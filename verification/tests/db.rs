use repolocli::db::{Action, Database, Loaded};
use repolocli::types::{Package, StoreError};
use repolocli::update::{Event, Mode, Update};

fn package(name: &str, version: &str) -> Package {
    Package {
        name: name.to_string(),
        version: version.to_string(),
        repo: "repo".to_string(),
        status: None,
        www: None,
    }
}

fn package_in(name: &str, version: &str, repo: &str) -> Package {
    Package { repo: repo.to_string(), ..package(name, version) }
}

fn document(entries: &[(&str, &[&str])]) -> Vec<(String, Vec<String>)> {
    entries
        .iter()
        .map(|(name, versions)| (name.to_string(), versions.iter().map(|v| v.to_string()).collect()))
        .collect()
}

fn store(entries: &[(&str, &[&str])]) -> Database {
    Database::open(Loaded::Document(document(entries))).ok().unwrap()
}

fn sorted(mut listing: Vec<(String, Vec<String>)>) -> Vec<(String, Vec<String>)> {
    for entry in listing.iter_mut() {
        entry.1.sort();
    }
    listing
}

/// What a caller saw of a run that it answered from a fixed source.
struct Seen {
    fetched: Vec<String>,
    reports: Vec<(String, Vec<Package>)>,
    flushes: usize,
    outcome: Result<(), StoreError>,
    store: Database,
}

fn drive(mut run: Update, source: &dyn Fn(&str) -> Result<Vec<Package>, StoreError>) -> Seen {
    let mut fetched = Vec::new();
    let mut reports = Vec::new();
    let mut flushes = 0;
    loop {
        let event = match run.pending() {
            Action::Fetch(name) => {
                fetched.push(name.clone());
                match source(name) {
                    Ok(packages) => Event::Fetched(packages),
                    Err(e) => Event::Failed(e),
                }
            }
            Action::Report(name, packages) => {
                reports.push((name.clone(), packages.clone()));
                Event::Reported
            }
            Action::Flush => {
                flushes += 1;
                Event::Flushed
            }
            Action::Finish(outcome) => {
                let outcome = *outcome;
                return Seen { fetched, reports, flushes, outcome, store: run.into_database() };
            }
        };
        run = run.advance(event);
    }
}

fn foo_source(name: &str) -> Result<Vec<Package>, StoreError> {
    match name {
        "foo" => Ok(vec![package("foo", "1.0"), package("foo", "1.1")]),
        _ => Ok(vec![]),
    }
}

#[test]
fn open_without_a_file_is_empty() {
    let db = Database::open(Loaded::Absent).ok().unwrap();
    assert_eq!(db.len(), 0);
    assert_eq!(db.show(), vec![]);
}

#[test]
fn open_reports_an_unreadable_file() {
    assert_eq!(Database::open(Loaded::Unreadable).err(), Some(StoreError::Io));
}

#[test]
fn open_reports_a_malformed_file() {
    assert_eq!(Database::open(Loaded::Malformed).err(), Some(StoreError::Parse));
}

#[test]
fn open_keeps_the_document() {
    let db = store(&[("foo", &["1.0", "1.1"]), ("bar", &["2.0"])]);
    assert_eq!(db.len(), 2);
    assert_eq!(db.show(), document(&[("foo", &["1.0", "1.1"]), ("bar", &["2.0"])]));
}

#[test]
fn open_drops_repeated_versions() {
    let db = store(&[("foo", &["1.0", "1.0", "1.1", "1.0"])]);
    assert_eq!(db.show(), document(&[("foo", &["1.0", "1.1"])]));
}

#[test]
fn open_takes_the_last_of_a_repeated_project() {
    let db = store(&[("foo", &["1.0"]), ("bar", &["2.0"]), ("foo", &["3.0"])]);
    assert_eq!(db.show(), document(&[("foo", &["3.0"]), ("bar", &["2.0"])]));
}

#[test]
fn new_store_is_empty() {
    let db = Database::new();
    assert_eq!(db.len(), 0);
    assert!(db.known_versions(&"foo".to_string()).is_empty());
}

#[test]
fn known_versions_of_an_untracked_project_are_none() {
    let db = store(&[("foo", &["1.0"])]);
    assert_eq!(db.known_versions(&"foo".to_string()), vec!["1.0".to_string()]);
    assert!(db.known_versions(&"bar".to_string()).is_empty());
}

#[test]
fn new_packages_are_those_with_unknown_versions() {
    let known = vec!["1.0".to_string()];
    let packages = vec![
        package_in("foo", "1.0", "a"),
        package_in("foo", "1.1", "a"),
        package_in("foo", "1.1", "b"),
        package_in("foo", "0.9", "c"),
    ];
    assert_eq!(
        Database::get_new_packages(&known, &packages),
        vec![package_in("foo", "1.1", "a"), package_in("foo", "1.1", "b"), package_in("foo", "0.9", "c")]
    );
}

#[test]
fn versions_are_compared_for_equality_only() {
    let known = vec!["2.0".to_string()];
    let packages = vec![package("foo", "1.0"), package("foo", "2.0"), package("foo", "2.0.0")];
    assert_eq!(
        Database::get_new_packages(&known, &packages),
        vec![package("foo", "1.0"), package("foo", "2.0.0")]
    );
}

#[test]
fn nothing_is_new_without_packages() {
    assert_eq!(Database::get_new_packages(&vec!["1.0".to_string()], &vec![]), vec![]);
}

#[test]
fn dry_run_reports_and_leaves_the_store() {
    let seen = drive(store(&[("foo", &["1.0"])]).update(false), &foo_source);
    assert_eq!(seen.outcome, Ok(()));
    assert_eq!(seen.fetched, vec!["foo".to_string()]);
    assert_eq!(seen.reports, vec![("foo".to_string(), vec![package("foo", "1.1")])]);
    assert_eq!(seen.flushes, 0);
    assert_eq!(seen.store.show(), document(&[("foo", &["1.0"])]));
}

#[test]
fn commit_merges_and_writes_once() {
    let seen = drive(store(&[("foo", &["1.0"])]).update(false), &foo_source);
    let seen = drive(seen.store.update(true), &foo_source);
    assert_eq!(seen.outcome, Ok(()));
    assert_eq!(seen.reports, vec![("foo".to_string(), vec![package("foo", "1.1")])]);
    assert_eq!(seen.flushes, 1);
    assert_eq!(sorted(seen.store.show()), document(&[("foo", &["1.0", "1.1"])]));
}

#[test]
fn dry_runs_repeat() {
    let first = drive(store(&[("foo", &["1.0"]), ("bar", &[])]).update(false), &foo_source);
    let second = drive(first.store.update(false), &foo_source);
    let third = drive(second.store.update(false), &foo_source);
    assert_eq!(first.reports, second.reports);
    assert_eq!(second.reports, third.reports);
    assert_eq!(first.flushes + second.flushes + third.flushes, 0);
    assert_eq!(third.store.show(), document(&[("foo", &["1.0"]), ("bar", &[])]));
}

#[test]
fn commit_leaves_nothing_new() {
    let first = drive(store(&[("foo", &["1.0"])]).update(true), &foo_source);
    let second = drive(first.store.update(true), &foo_source);
    assert_eq!(second.reports, vec![("foo".to_string(), vec![])]);
    assert_eq!(second.flushes, 1);
    assert_eq!(sorted(second.store.show()), document(&[("foo", &["1.0", "1.1"])]));
}

#[test]
fn no_version_is_stored_twice() {
    let source = |_: &str| -> Result<Vec<Package>, StoreError> {
        Ok(vec![package("x", "1"), package("x", "2"), package("x", "1"), package("x", "2")])
    };
    let mut db = store(&[("a", &["1"]), ("b", &[])]);
    for _ in 0..3 {
        db = drive(db.update(true), &source).store;
        assert_eq!(db.add_package("c", source("c")), Action::Flush);
    }
    assert_eq!(
        sorted(db.show()),
        document(&[("a", &["1", "2"]), ("b", &["1", "2"]), ("c", &["1", "2"])])
    );
}

#[test]
fn every_project_is_visited_once_in_order() {
    let seen = drive(store(&[("a", &[]), ("b", &[]), ("c", &[])]).update(false), &foo_source);
    assert_eq!(seen.fetched, vec!["a".to_string(), "b".to_string(), "c".to_string()]);
    assert_eq!(seen.reports.len(), 3);
}

#[test]
fn a_failed_fetch_ends_the_run_without_a_write() {
    let source = |name: &str| -> Result<Vec<Package>, StoreError> {
        match name {
            "b" => Err(StoreError::Transport),
            _ => Ok(vec![package(name, "9.9")]),
        }
    };
    let seen = drive(store(&[("a", &["1"]), ("b", &["1"]), ("c", &["1"])]).update(true), &source);
    assert_eq!(seen.outcome, Err(StoreError::Transport));
    assert_eq!(seen.fetched, vec!["a".to_string(), "b".to_string()]);
    assert_eq!(seen.reports, vec![("a".to_string(), vec![package("a", "9.9")])]);
    assert_eq!(seen.flushes, 0);
    assert_eq!(seen.store.show(), document(&[("a", &["1"]), ("b", &["1"]), ("c", &["1"])]));
}

#[test]
fn a_project_can_be_added_after_a_commit_that_failed() {
    let source = |name: &str| -> Result<Vec<Package>, StoreError> {
        match name {
            "a" => Ok(vec![package("a", "2")]),
            "b" => Err(StoreError::Transport),
            _ => Ok(vec![package(name, "9")]),
        }
    };
    let seen = drive(store(&[("a", &["1"]), ("b", &["1"])]).update(true), &source);
    assert_eq!(seen.outcome, Err(StoreError::Transport));
    assert_eq!(seen.flushes, 0);
    let mut db = seen.store;
    assert_eq!(db.add_package("z", source("z")), Action::Flush);
    assert_eq!(db.show(), document(&[("a", &["1"]), ("b", &["1"]), ("z", &["9"])]));
}

#[test]
fn a_failed_dry_run_hands_the_store_back_unchanged() {
    let source = |_: &str| -> Result<Vec<Package>, StoreError> { Err(StoreError::Parse) };
    let seen = drive(store(&[("a", &["1"])]).update(false), &source);
    assert_eq!(seen.outcome, Err(StoreError::Parse));
    assert_eq!(seen.flushes, 0);
    assert_eq!(seen.store.show(), document(&[("a", &["1"])]));
}

#[test]
fn a_commit_that_was_given_up_hands_back_what_it_started_with() {
    let run = store(&[("a", &["1"])]).update(true);
    let run = run.advance(Event::Fetched(vec![package("a", "2")]));
    assert_eq!(run.database().show(), document(&[("a", &["1", "2"])]));
    assert_eq!(run.into_database().show(), document(&[("a", &["1"])]));
}

#[test]
fn a_failed_write_hands_back_what_the_run_started_with() {
    let run = store(&[("a", &["1"])]).update(true);
    let run = run.advance(Event::Fetched(vec![package("a", "2")]));
    let run = run.advance(Event::Reported);
    assert_eq!(run.pending(), &Action::Flush);
    let run = run.advance(Event::Failed(StoreError::Io));
    assert_eq!(run.outcome(), Some(Err(StoreError::Io)));
    assert_eq!(run.into_database().show(), document(&[("a", &["1"])]));
}

#[test]
fn duplicate_copies_the_store() {
    let db = store(&[("foo", &["1.0", "1.1"]), ("bar", &[])]);
    assert_eq!(db.duplicate().show(), db.show());
}

#[test]
fn a_failed_report_ends_the_run_without_a_write() {
    let run = store(&[("a", &[]), ("b", &[])]).update(true);
    let run = run.advance(Event::Fetched(vec![package("a", "1")]));
    assert_eq!(run.pending(), &Action::Report("a".to_string(), vec![package("a", "1")]));
    let run = run.advance(Event::Failed(StoreError::Io));
    assert_eq!(run.pending(), &Action::Finish(Err(StoreError::Io)));
    assert_eq!(run.outcome(), Some(Err(StoreError::Io)));
    let run = run.advance(Event::Reported);
    assert_eq!(run.pending(), &Action::Finish(Err(StoreError::Io)));
    assert_eq!(run.into_database().show(), document(&[("a", &[]), ("b", &[])]));
}

#[test]
fn a_failed_write_ends_the_run_with_its_error() {
    let run = store(&[]).update(true);
    assert_eq!(run.pending(), &Action::Flush);
    let run = run.advance(Event::Failed(StoreError::Io));
    assert_eq!(run.outcome(), Some(Err(StoreError::Io)));
}

#[test]
fn a_run_over_no_project_ends_at_once() {
    let run = store(&[]).update(false);
    assert_eq!(run.pending(), &Action::Finish(Ok(())));
    assert_eq!(run.outcome(), Some(Ok(())));
    assert_eq!(run.into_database().len(), 0);
}

#[test]
fn a_commit_over_no_project_still_writes() {
    let seen = drive(store(&[]).update(true), &foo_source);
    assert_eq!(seen.flushes, 1);
    assert_eq!(seen.outcome, Ok(()));
}

#[test]
fn an_answer_that_does_not_fit_changes_nothing() {
    let run = store(&[("foo", &["1.0"])]).update(true);
    let run = run.advance(Event::Reported);
    assert_eq!(run.pending(), &Action::Fetch("foo".to_string()));
    let run = run.advance(Event::Flushed);
    assert_eq!(run.pending(), &Action::Fetch("foo".to_string()));
    assert_eq!(run.outcome(), None);
    let run = run.advance(Event::Fetched(vec![package("foo", "1.1")]));
    let run = run.advance(Event::Fetched(vec![package("foo", "7")]));
    assert_eq!(run.pending(), &Action::Report("foo".to_string(), vec![package("foo", "1.1")]));
    assert_eq!(run.into_database().show(), document(&[("foo", &["1.0"])]));
}

#[test]
fn a_merge_is_seen_by_later_projects_in_memory_only() {
    let run = store(&[("a", &["1"]), ("b", &["1"])]).update(true);
    let run = run.advance(Event::Fetched(vec![package("a", "2")]));
    let run = run.advance(Event::Reported);
    let run = run.advance(Event::Fetched(vec![package("b", "2"), package("b", "1")]));
    assert_eq!(run.pending(), &Action::Report("b".to_string(), vec![package("b", "2")]));
    let run = run.advance(Event::Reported);
    assert_eq!(run.pending(), &Action::Flush);
    let run = run.advance(Event::Flushed);
    assert_eq!(
        run.into_database().show(),
        document(&[("a", &["1", "2"]), ("b", &["1", "2"])])
    );
}

#[test]
fn listing_reports_what_the_source_holds() {
    let seen = drive(store(&[("foo", &["1.0", "1.1"])]).show_upstream(), &foo_source);
    assert_eq!(
        seen.reports,
        vec![("foo".to_string(), vec![package("foo", "1.0"), package("foo", "1.1")])]
    );
    assert_eq!(seen.flushes, 0);
    assert_eq!(seen.store.show(), document(&[("foo", &["1.0", "1.1"])]));
}

#[test]
fn start_takes_the_mode() {
    let run = Update::start(store(&[]), Mode::Commit);
    assert_eq!(run.pending(), &Action::Flush);
    let run = Update::start(store(&[]), Mode::Listing);
    assert_eq!(run.pending(), &Action::Finish(Ok(())));
}

#[test]
fn show_lists_the_store() {
    let db = store(&[("foo", &["1.0"]), ("bar", &[])]);
    assert_eq!(db.show(), document(&[("foo", &["1.0"]), ("bar", &[])]));
}

#[test]
fn add_package_stores_distinct_versions_and_asks_for_the_write() {
    let mut db = Database::new();
    let fetched = Ok(vec![package("bar", "2.0"), package("bar", "2.0"), package("bar", "2.1")]);
    assert_eq!(db.add_package("bar", fetched), Action::Flush);
    assert_eq!(db.show(), document(&[("bar", &["2.0", "2.1"])]));
    assert_eq!(db.known_versions(&"bar".to_string()).len(), 2);
}

#[test]
fn add_package_overwrites_what_was_known() {
    let mut db = store(&[("foo", &["0.1"]), ("bar", &["1.0", "1.5"])]);
    assert_eq!(db.add_package("bar", Ok(vec![package("bar", "2.0")])), Action::Flush);
    assert_eq!(db.show(), document(&[("foo", &["0.1"]), ("bar", &["2.0"])]));
}

#[test]
fn add_package_fails_without_packages() {
    let mut db = store(&[("foo", &["0.1"])]);
    assert_eq!(db.add_package("bar", Ok(vec![])), Action::Finish(Err(StoreError::NotFound)));
    assert_eq!(db.show(), document(&[("foo", &["0.1"])]));
}

#[test]
fn add_package_hands_on_the_failure_of_the_source() {
    let mut db = store(&[("foo", &["0.1"])]);
    assert_eq!(
        db.add_package("foo", Err(StoreError::Transport)),
        Action::Finish(Err(StoreError::Transport))
    );
    assert_eq!(db.add_package("foo", Err(StoreError::Parse)), Action::Finish(Err(StoreError::Parse)));
    assert_eq!(db.show(), document(&[("foo", &["0.1"])]));
}
