use repolocli::backend::{Document, Replay};
use repolocli::types::{Package, Problem, StoreError};

fn package(version: &str, repo: &str) -> Package {
    Package {
        name: "foo".to_string(),
        version: version.to_string(),
        repo: repo.to_string(),
        status: None,
        www: None,
    }
}

fn problem(repo: &str, name: &str, maintainer: &str) -> Problem {
    Problem {
        repo: repo.to_string(),
        name: name.to_string(),
        effname: name.to_string(),
        maintainer: maintainer.to_string(),
        problem: "Homepage is dead".to_string(),
    }
}

fn problems() -> Vec<Problem> {
    vec![
        problem("debian", "a", "x@example.org"),
        problem("arch", "b", "y@example.org"),
        problem("debian", "c", "y@example.org"),
    ]
}

#[test]
fn replay_answers_with_the_packages_of_the_document() {
    let source = Replay::new(Document::Packages(vec![package("1.0", "debian"), package("1.1", "arch")]));
    assert_eq!(source.project("foo"), Ok(vec![package("1.0", "debian"), package("1.1", "arch")]));
}

#[test]
fn replay_answers_the_same_every_time() {
    let source = Replay::new(Document::Packages(vec![package("1.0", "debian")]));
    let first = source.project("foo");
    assert_eq!(source.project("foo"), first);
    assert_eq!(source.project("foo"), first);
    let source = Replay::new(Document::Problems(problems()));
    let first = source.problems_for_repo("debian");
    assert_eq!(source.problems_for_repo("debian"), first);
}

#[test]
fn replay_picks_the_problems_of_a_repository() {
    let source = Replay::new(Document::Problems(problems()));
    assert_eq!(
        source.problems_for_repo("debian"),
        Ok(vec![problem("debian", "a", "x@example.org"), problem("debian", "c", "y@example.org")])
    );
    assert_eq!(source.problems_for_repo("gentoo"), Ok(vec![]));
}

#[test]
fn replay_picks_the_problems_of_a_maintainer() {
    let source = Replay::new(Document::Problems(problems()));
    assert_eq!(
        source.problems_for_maintainer("y@example.org"),
        Ok(vec![problem("arch", "b", "y@example.org"), problem("debian", "c", "y@example.org")])
    );
    assert_eq!(source.problems_for_maintainer("debian"), Ok(vec![]));
}

#[test]
fn replay_of_a_malformed_document_fails_for_good() {
    let source = Replay::new(Document::Malformed);
    assert_eq!(source.project("foo"), Err(StoreError::Parse));
    assert_eq!(source.project("foo"), Err(StoreError::Parse));
    assert_eq!(source.problems_for_repo("debian"), Err(StoreError::Parse));
    assert_eq!(source.problems_for_maintainer("x@example.org"), Err(StoreError::Parse));
}

#[test]
fn replay_does_not_take_packages_for_problems() {
    let source = Replay::new(Document::Packages(vec![package("1.0", "debian")]));
    assert_eq!(source.problems_for_repo("debian"), Err(StoreError::Parse));
    let source = Replay::new(Document::Problems(problems()));
    assert_eq!(source.project("foo"), Err(StoreError::Parse));
}

#[test]
fn problem_duplicate_copies_every_field() {
    let p = problem("debian", "a", "x@example.org");
    assert_eq!(p.duplicate(), p);
}
