//! The choice of the metadata source, and the source that replays a document.

use vstd::prelude::*;
use crate::config::Configuration;
use crate::types::{
    duplicate_packages, package_views, problem_views, Package, PackageView, Problem, ProblemView,
    StoreError,
};

verus! {

/// Which metadata source serves a run of the program.
#[derive(Clone, Debug, PartialEq, Eq)]
pub enum Backend {
    /// A document that was fetched before and is read from standard input.
    Stdin,
    /// The remote service at this base address.
    RepologyOrg(String),
}

/// What a [`Backend`] holds, as plain sequences.
pub enum BackendView {
    Stdin,
    RepologyOrg(Seq<char>),
}

impl View for Backend {
    type V = BackendView;

    open spec fn view(&self) -> BackendView {
        match self {
            Backend::Stdin => BackendView::Stdin,
            Backend::RepologyOrg(url) => BackendView::RepologyOrg(url@),
        }
    }
}

/// Chooses the source: standard input where the caller asked for it, else
/// the remote service at the configured address. The choice never fails.
pub fn new_backend(input_stdin: bool, config: &Configuration) -> (backend: Result<Backend, StoreError>)
    ensures
        backend is Ok,
        backend->Ok_0@ == if input_stdin {
            BackendView::Stdin
        } else {
            BackendView::RepologyOrg(config@.repology_url)
        },
{
    if input_stdin {
        Ok(Backend::Stdin)
    } else {
        Ok(Backend::RepologyOrg(config.repology_url().clone()))
    }
}

/// What was read where a document of the source was expected.
pub enum Document {
    /// The packages of a project.
    Packages(Vec<Package>),
    /// A list of problems.
    Problems(Vec<Problem>),
    /// Nothing that could be understood.
    Malformed,
}

/// What a [`Document`] holds, as plain sequences.
pub enum DocumentView {
    Packages(Seq<PackageView>),
    Problems(Seq<ProblemView>),
    Malformed,
}

impl View for Document {
    type V = DocumentView;

    open spec fn view(&self) -> DocumentView {
        match self {
            Document::Packages(packages) => DocumentView::Packages(package_views(packages@)),
            Document::Problems(problems) => DocumentView::Problems(problem_views(problems@)),
            Document::Malformed => DocumentView::Malformed,
        }
    }
}

/// A problem belongs to a repository when it names it.
pub open spec fn in_repo(repo: Seq<char>) -> spec_fn(ProblemView) -> bool {
    |p: ProblemView| p.repo == repo
}

/// A problem belongs to a maintainer when it names them.
pub open spec fn maintained_by(maintainer: Seq<char>) -> spec_fn(ProblemView) -> bool {
    |p: ProblemView| p.maintainer == maintainer
}

/// What a replayed document answers when asked for the packages of a
/// project: its packages, whatever the project. A document that holds no
/// packages cannot be read as an answer.
pub open spec fn replayed_project(document: DocumentView) -> Result<Seq<PackageView>, StoreError> {
    match document {
        DocumentView::Packages(packages) => Ok(packages),
        _ => Err(StoreError::Parse),
    }
}

/// What a replayed document answers when asked for problems that `wanted`
/// picks: those of its problems, in their order. A document that holds no
/// problems cannot be read as an answer.
pub open spec fn replayed_problems(document: DocumentView, wanted: spec_fn(ProblemView) -> bool) -> Result<
    Seq<ProblemView>,
    StoreError,
> {
    match document {
        DocumentView::Problems(problems) => Ok(problems.filter(wanted)),
        _ => Err(StoreError::Parse),
    }
}

/// A metadata source that answers from one document, which was read once.
/// It answers the same question in the same way every time.
pub struct Replay {
    document: Document,
}

impl View for Replay {
    type V = DocumentView;

    closed spec fn view(&self) -> DocumentView {
        self.document@
    }
}

impl Replay {
    pub fn new(document: Document) -> (source: Replay)
        ensures
            source@ == document@,
    {
        Replay { document }
    }

    /// The packages of a project.
    pub fn project(&self, name: &str) -> (answer: Result<Vec<Package>, StoreError>)
        ensures
            match replayed_project(self@) {
                Ok(packages) => answer is Ok && package_views(answer->Ok_0@) == packages,
                Err(e) => answer is Err && answer->Err_0 == e,
            },
    {
        match &self.document {
            Document::Packages(packages) => Ok(duplicate_packages(packages)),
            _ => Err(StoreError::Parse),
        }
    }

    /// The problems of the document that name `key` as their repository, or
    /// as their maintainer.
    fn problems(&self, by_repo: bool, key: &String) -> (answer: Result<Vec<Problem>, StoreError>)
        ensures
            match replayed_problems(self@, if by_repo { in_repo(key@) } else { maintained_by(key@) }) {
                Ok(problems) => answer is Ok && problem_views(answer->Ok_0@) == problems,
                Err(e) => answer is Err && answer->Err_0 == e,
            },
    {
        match &self.document {
            Document::Problems(problems) => {
                let ghost wanted = if by_repo { in_repo(key@) } else { maintained_by(key@) };
                let ghost all = problem_views(problems@);
                let mut kept: Vec<Problem> = Vec::new();
                let mut i: usize = 0;
                proof {
                    reveal(Seq::filter);
                    assert(all.take(0) =~= Seq::empty());
                    assert(problem_views(kept@) =~= Seq::empty());
                }
                while i < problems.len()
                    invariant
                        i <= problems.len(),
                        all == problem_views(problems@),
                        wanted == (if by_repo { in_repo(key@) } else { maintained_by(key@) }),
                        problem_views(kept@) == all.take(i as int).filter(wanted),
                    decreases problems.len() - i,
                {
                    let problem = &problems[i];
                    proof {
                        assert(all.take(i as int + 1) =~= all.take(i as int).push(all[i as int]));
                        all.take(i as int).lemma_filter_push(all[i as int], wanted);
                        assert(all[i as int] == problem@);
                    }
                    let picked = if by_repo { problem.repo == *key } else { problem.maintainer == *key };
                    if picked {
                        let copy = problem.duplicate();
                        assert(problem_views(kept@.push(copy)) =~= problem_views(kept@).push(copy@));
                        kept.push(copy);
                    }
                    i += 1;
                }
                assert(all.take(i as int) =~= all);
                Ok(kept)
            },
            _ => Err(StoreError::Parse),
        }
    }

    /// The problems of a repository.
    pub fn problems_for_repo(&self, repo: &str) -> (answer: Result<Vec<Problem>, StoreError>)
        ensures
            match replayed_problems(self@, in_repo(repo@)) {
                Ok(problems) => answer is Ok && problem_views(answer->Ok_0@) == problems,
                Err(e) => answer is Err && answer->Err_0 == e,
            },
    {
        self.problems(true, &repo.to_owned())
    }

    /// The problems of a maintainer.
    pub fn problems_for_maintainer(&self, maintainer: &str) -> (answer: Result<Vec<Problem>, StoreError>)
        ensures
            match replayed_problems(self@, maintained_by(maintainer@)) {
                Ok(problems) => answer is Ok && problem_views(answer->Ok_0@) == problems,
                Err(e) => answer is Err && answer->Err_0 == e,
            },
    {
        self.problems(false, &maintainer.to_owned())
    }
}

} // verus!
