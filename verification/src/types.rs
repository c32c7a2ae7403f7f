//! The records that a metadata source hands out, and the failures that the
//! store reports.

use vstd::prelude::*;
use crate::text::{clone_texts, texts};

verus! {

/// Why an operation on the store did not succeed.
#[derive(Clone, Copy, Debug, PartialEq, Eq, Structural)]
pub enum StoreError {
    /// The durable file could not be opened, read or written.
    Io,
    /// The durable file or an answer of the source was malformed.
    Parse,
    /// The source could not be reached or answered with an error status.
    Transport,
    /// The source knows no package of the project asked for.
    NotFound,
}

/// What a [`Package`] holds, as plain sequences.
pub struct PackageView {
    pub name: Seq<char>,
    pub version: Seq<char>,
    pub repo: Seq<char>,
    pub status: Option<Seq<char>>,
    pub www: Option<Seq<Seq<char>>>,
}

/// One package record of a metadata source: a project as one repository
/// offers it.
#[derive(Clone, Debug, PartialEq, Eq)]
pub struct Package {
    pub name: String,
    pub version: String,
    pub repo: String,
    /// How current the repository's version is, in the source's own words.
    pub status: Option<String>,
    /// The addresses of the package's web pages.
    pub www: Option<Vec<String>>,
}

impl View for Package {
    type V = PackageView;

    open spec fn view(&self) -> PackageView {
        PackageView {
            name: self.name@,
            version: self.version@,
            repo: self.repo@,
            status: match self.status {
                Some(s) => Some(s@),
                None => None,
            },
            www: match self.www {
                Some(pages) => Some(texts(pages@)),
                None => None,
            },
        }
    }
}

impl Package {
    /// A record with the same contents.
    pub fn duplicate(&self) -> (copy: Package)
        ensures
            copy@ == self@,
    {
        let status = match &self.status {
            Some(s) => Some(s.clone()),
            None => None,
        };
        let www = match &self.www {
            Some(pages) => Some(clone_texts(pages)),
            None => None,
        };
        Package {
            name: self.name.clone(),
            version: self.version.clone(),
            repo: self.repo.clone(),
            status,
            www,
        }
    }
}

/// The views of a list of packages, in order.
pub open spec fn package_views(packages: Seq<Package>) -> Seq<PackageView> {
    packages.map_values(|p: Package| p@)
}

/// The version strings of a list of packages, in order.
pub open spec fn versions_of(packages: Seq<PackageView>) -> Seq<Seq<char>> {
    packages.map_values(|p: PackageView| p.version)
}

/// A copy of a list of packages with the same contents in the same order.
pub fn duplicate_packages(packages: &Vec<Package>) -> (copy: Vec<Package>)
    ensures
        package_views(copy@) == package_views(packages@),
{
    let mut copy: Vec<Package> = Vec::new();
    let mut i: usize = 0;
    while i < packages.len()
        invariant
            i <= packages.len(),
            copy@.len() == i,
            forall|j: int| 0 <= j < i ==> copy@[j]@ == packages@[j]@,
        decreases packages.len() - i,
    {
        copy.push(packages[i].duplicate());
        i += 1;
    }
    assert(package_views(copy@) =~= package_views(packages@));
    copy
}

/// The version strings of a list of packages, in order.
pub fn package_versions(packages: &Vec<Package>) -> (versions: Vec<String>)
    ensures
        texts(versions@) == versions_of(package_views(packages@)),
{
    let mut versions: Vec<String> = Vec::new();
    let mut i: usize = 0;
    while i < packages.len()
        invariant
            i <= packages.len(),
            versions@.len() == i,
            forall|j: int| 0 <= j < i ==> versions@[j]@ == packages@[j].version@,
        decreases packages.len() - i,
    {
        versions.push(packages[i].version.clone());
        i += 1;
    }
    assert(texts(versions@) =~= versions_of(package_views(packages@)));
    versions
}

/// What a [`Problem`] holds, as plain sequences.
pub struct ProblemView {
    pub repo: Seq<char>,
    pub name: Seq<char>,
    pub effname: Seq<char>,
    pub maintainer: Seq<char>,
    pub problem: Seq<char>,
}

/// One packaging problem that a metadata source reports.
#[derive(Clone, Debug, PartialEq, Eq)]
pub struct Problem {
    pub repo: String,
    pub name: String,
    /// The name under which the source groups the package.
    pub effname: String,
    pub maintainer: String,
    /// The description of the problem, as free text.
    pub problem: String,
}

impl View for Problem {
    type V = ProblemView;

    open spec fn view(&self) -> ProblemView {
        ProblemView {
            repo: self.repo@,
            name: self.name@,
            effname: self.effname@,
            maintainer: self.maintainer@,
            problem: self.problem@,
        }
    }
}

impl Problem {
    /// A record with the same contents.
    pub fn duplicate(&self) -> (copy: Problem)
        ensures
            copy@ == self@,
    {
        Problem {
            repo: self.repo.clone(),
            name: self.name.clone(),
            effname: self.effname.clone(),
            maintainer: self.maintainer.clone(),
            problem: self.problem.clone(),
        }
    }
}

/// The views of a list of problems, in order.
pub open spec fn problem_views(problems: Seq<Problem>) -> Seq<ProblemView> {
    problems.map_values(|p: Problem| p@)
}

} // verus!
