//! The version store: for each tracked project the set of versions that are
//! known locally.
//!
//! The store is held in memory. The caller reads the durable file before it
//! opens the store and writes it when the store asks for that.

use vstd::prelude::*;
use itertools::Itertools;
use crate::text::{
    clone_texts, contains_text, extend_distinct, first_occurrences, lemma_extended,
    lemma_first_occurrences, lemma_push_fresh, texts,
};
use crate::types::{package_versions, package_views, versions_of, Package, PackageView, StoreError};

verus! {

/// One tracked project: its name and the set of its known versions.
pub struct Entry {
    pub name: Seq<char>,
    pub versions: Set<Seq<char>>,
}

/// The names of the tracked projects, in the order of the store.
pub open spec fn names_of(store: Seq<Entry>) -> Seq<Seq<char>> {
    store.map_values(|e: Entry| e.name)
}

/// No project is tracked twice.
pub open spec fn valid_store(store: Seq<Entry>) -> bool {
    names_of(store).no_duplicates()
}

/// The known versions of a project: the empty set for a project that is not
/// tracked.
pub open spec fn known(store: Seq<Entry>, name: Seq<char>) -> Set<Seq<char>> {
    if names_of(store).contains(name) {
        store[names_of(store).index_of(name)].versions
    } else {
        Set::empty()
    }
}

/// The store after `versions` became the known versions of `name`: the entry
/// of a tracked project is replaced in place, a new project comes last.
pub open spec fn inserted(store: Seq<Entry>, name: Seq<char>, versions: Set<Seq<char>>) -> Seq<Entry> {
    let entry = Entry { name, versions };
    if names_of(store).contains(name) {
        store.update(names_of(store).index_of(name), entry)
    } else {
        store.push(entry)
    }
}

/// `Itertools::unique` on the strings of a list, collected again: the
/// adaptor hands on each string that it has not handed on before and drops
/// the others, so that the first occurrences are left, in their order.
#[verifier::external_body]
fn unique_texts(items: Vec<String>) -> (kept: Vec<String>)
    ensures
        texts(kept@) == first_occurrences(texts(items@)),
{
    items.into_iter().unique().collect()
}

struct VersionRecord {
    name: String,
    versions: Vec<String>,
}

impl VersionRecord {
    spec fn entry(&self) -> Entry {
        Entry { name: self.name@, versions: texts(self.versions@).to_set() }
    }
}

spec fn entries(records: Seq<VersionRecord>) -> Seq<Entry> {
    records.map_values(|r: VersionRecord| r.entry())
}

spec fn well_formed(records: Seq<VersionRecord>) -> bool {
    &&& names_of(entries(records)).no_duplicates()
    &&& forall|i: int| 0 <= i < records.len() ==> texts(#[trigger] records[i].versions@).no_duplicates()
}

/// The index of the record of a project, if it is tracked.
fn find(records: &Vec<VersionRecord>, name: &String) -> (found: Option<usize>)
    ensures
        match found {
            Some(i) => i < records@.len() && names_of(entries(records@))[i as int] == name@,
            None => !names_of(entries(records@)).contains(name@),
        },
{
    let ghost names = names_of(entries(records@));
    let mut i: usize = 0;
    while i < records.len()
        invariant
            i <= records.len(),
            names == names_of(entries(records@)),
            forall|j: int| 0 <= j < i ==> names[j] != name@,
        decreases records.len() - i,
    {
        assert(names[i as int] == records@[i as int].name@);
        if records[i].name == *name {
            return Some(i);
        }
        i += 1;
    }
    None
}

/// Makes `versions` the known versions of `name`.
fn insert_record(records: &mut Vec<VersionRecord>, name: String, versions: Vec<String>)
    requires
        well_formed(old(records)@),
        texts(versions@).no_duplicates(),
    ensures
        well_formed(final(records)@),
        entries(final(records)@) == inserted(entries(old(records)@), name@, texts(versions@).to_set()),
{
    let ghost before = entries(records@);
    let ghost names = names_of(before);
    let ghost entry = Entry { name: name@, versions: texts(versions@).to_set() };
    let record = VersionRecord { name, versions };
    assert(record.entry() == entry);
    match find(records, &record.name) {
        Some(i) => {
            assert(names.contains(entry.name));
            assert(names.index_of(entry.name) == i as int);
            records.set(i, record);
            assert(entries(records@) =~= before.update(i as int, entry));
            assert(names_of(entries(records@)) =~= names);
        },
        None => {
            records.push(record);
            assert(entries(records@) =~= before.push(entry));
            proof {
                assert(names_of(entries(records@)) =~= names.push(entry.name));
                lemma_push_fresh(names, entry.name);
            }
        },
    }
}

/// What the caller found where the durable file should be.
pub enum Loaded {
    /// There is no file yet.
    Absent,
    /// The file is there and could not be read, or could not be created.
    Unreadable,
    /// The file was read and does not hold a store.
    Malformed,
    /// The projects that the file holds, each with its versions.
    Document(Vec<(String, Vec<String>)>),
}

/// The store that a document stands for: its projects in their order, a
/// repeated project with the versions of its last occurrence.
pub open spec fn document_store(document: Seq<(String, Vec<String>)>) -> Seq<Entry>
    decreases document.len(),
{
    if document.len() == 0 {
        Seq::empty()
    } else {
        let last = document.last();
        inserted(document_store(document.drop_last()), last.0@, texts(last.1@).to_set())
    }
}

/// Whether `listing` shows `store`: the same projects in the same order, each
/// with its known versions, none of them twice.
pub open spec fn lists(listing: Seq<(String, Vec<String>)>, store: Seq<Entry>) -> bool {
    &&& listing.len() == store.len()
    &&& forall|i: int|
        0 <= i < store.len() ==> {
            &&& (#[trigger] listing[i]).0@ == store[i].name
            &&& texts(listing[i].1@).no_duplicates()
            &&& texts(listing[i].1@).to_set() == store[i].versions
        }
}

/// A package is new to a set of known versions when its version is not among
/// them.
pub open spec fn is_new(known_versions: Set<Seq<char>>) -> spec_fn(PackageView) -> bool {
    |p: PackageView| !known_versions.contains(p.version)
}

/// The packages with a version that is not known yet, in the order of the
/// source.
pub open spec fn new_packages(known_versions: Set<Seq<char>>, packages: Seq<PackageView>) -> Seq<PackageView> {
    packages.filter(is_new(known_versions))
}

/// What the caller is to do next.
#[derive(Debug, PartialEq, Eq)]
pub enum Action {
    /// Ask the source for the packages of this project.
    Fetch(String),
    /// Hand these packages of this project to the sink.
    Report(String, Vec<Package>),
    /// Write the store to the durable file.
    Flush,
    /// Nothing is left to do: the operation ended as given.
    Finish(Result<(), StoreError>),
}

/// What an [`Action`] holds, as plain sequences.
pub enum ActionView {
    Fetch(Seq<char>),
    Report(Seq<char>, Seq<PackageView>),
    Flush,
    Finish(Result<(), StoreError>),
}

impl View for Action {
    type V = ActionView;

    open spec fn view(&self) -> ActionView {
        match self {
            Action::Fetch(name) => ActionView::Fetch(name@),
            Action::Report(name, packages) => ActionView::Report(name@, package_views(packages@)),
            Action::Flush => ActionView::Flush,
            Action::Finish(outcome) => ActionView::Finish(*outcome),
        }
    }
}

/// The version store.
pub struct Database {
    records: Vec<VersionRecord>,
}

impl View for Database {
    type V = Seq<Entry>;

    closed spec fn view(&self) -> Seq<Entry> {
        entries(self.records@)
    }
}

impl Database {
    #[verifier::type_invariant]
    spec fn inv(&self) -> bool {
        well_formed(self.records@)
    }

    /// A store that tracks no project.
    pub fn new() -> (db: Database)
        ensures
            db@ == Seq::<Entry>::empty(),
    {
        let db = Database { records: Vec::new() };
        assert(db@ =~= Seq::<Entry>::empty());
        db
    }

    /// Opens the store on what the caller found where the durable file
    /// should be: a missing file gives an empty store, a file that could not
    /// be read or understood gives the matching error.
    pub fn open(loaded: Loaded) -> (opened: Result<Database, StoreError>)
        ensures
            match loaded {
                Loaded::Absent => opened is Ok && opened->Ok_0@ == Seq::<Entry>::empty(),
                Loaded::Unreadable => opened is Err && opened->Err_0 == StoreError::Io,
                Loaded::Malformed => opened is Err && opened->Err_0 == StoreError::Parse,
                Loaded::Document(document) => opened is Ok && opened->Ok_0@ == document_store(document@),
            },
    {
        match loaded {
            Loaded::Absent => Ok(Database::new()),
            Loaded::Unreadable => Err(StoreError::Io),
            Loaded::Malformed => Err(StoreError::Parse),
            Loaded::Document(document) => {
                let mut records: Vec<VersionRecord> = Vec::new();
                let mut i: usize = 0;
                assert(document@.take(0) =~= Seq::empty());
                assert(entries(records@) =~= Seq::empty());
                while i < document.len()
                    invariant
                        i <= document.len(),
                        well_formed(records@),
                        entries(records@) == document_store(document@.take(i as int)),
                    decreases document.len() - i,
                {
                    let name = document[i].0.clone();
                    let mut versions: Vec<String> = Vec::new();
                    assert(texts(versions@) =~= Seq::empty());
                    extend_distinct(&mut versions, &document[i].1);
                    proof {
                        let prefix = document@.take(i as int + 1);
                        assert(prefix.drop_last() =~= document@.take(i as int));
                        assert(prefix.last() == document@[i as int]);
                        lemma_first_occurrences(texts(document@[i as int].1@));
                    }
                    insert_record(&mut records, name, versions);
                    i += 1;
                }
                assert(document@.take(i as int) =~= document@);
                Ok(Database { records })
            },
        }
    }

    /// The tracked projects in the order of the store, each with its known
    /// versions.
    pub fn show(&self) -> (listing: Vec<(String, Vec<String>)>)
        ensures
            valid_store(self@),
            lists(listing@, self@),
    {
        proof {
            use_type_invariant(self);
        }
        let mut listing: Vec<(String, Vec<String>)> = Vec::new();
        let mut i: usize = 0;
        while i < self.records.len()
            invariant
                i <= self.records.len(),
                well_formed(self.records@),
                listing@.len() == i,
                forall|j: int|
                    0 <= j < i ==> {
                        &&& (#[trigger] listing@[j]).0@ == self.records@[j].name@
                        &&& texts(listing@[j].1@) == texts(self.records@[j].versions@)
                    },
            decreases self.records.len() - i,
        {
            let name = self.records[i].name.clone();
            let versions = clone_texts(&self.records[i].versions);
            listing.push((name, versions));
            i += 1;
        }
        listing
    }

    /// The packages among `packages` with a version that `known_versions`
    /// does not hold, in their order.
    pub fn get_new_packages(known_versions: &Vec<String>, packages: &Vec<Package>) -> (fresh: Vec<Package>)
        ensures
            package_views(fresh@) == new_packages(texts(known_versions@).to_set(), package_views(packages@)),
    {
        let ghost known_set = texts(known_versions@).to_set();
        let ghost all = package_views(packages@);
        let mut fresh: Vec<Package> = Vec::new();
        let mut i: usize = 0;
        proof {
            reveal(Seq::filter);
            assert(all.take(0) =~= Seq::empty());
            assert(package_views(fresh@) =~= Seq::empty());
        }
        while i < packages.len()
            invariant
                i <= packages.len(),
                known_set == texts(known_versions@).to_set(),
                all == package_views(packages@),
                package_views(fresh@) == all.take(i as int).filter(is_new(known_set)),
            decreases packages.len() - i,
        {
            let package = &packages[i];
            proof {
                assert(all.take(i as int + 1) =~= all.take(i as int).push(all[i as int]));
                all.take(i as int).lemma_filter_push(all[i as int], is_new(known_set));
                assert(all[i as int] == package@);
            }
            if !contains_text(known_versions, &package.version) {
                let copy = package.duplicate();
                assert(package_views(fresh@.push(copy)) =~= package_views(fresh@).push(copy@));
                fresh.push(copy);
            }
            i += 1;
        }
        assert(all.take(i as int) =~= all);
        fresh
    }

    /// Tracks a project with the versions that the source offers, each once,
    /// in place of what was known of it. `fetched` is what the source answered
    /// for `package_name`.
    ///
    /// Asks for the store to be written when the project was added. Where the
    /// source failed or knows no package of the project, the store stays as
    /// it was and nothing is to be written.
    pub fn add_package(&mut self, package_name: &str, fetched: Result<Vec<Package>, StoreError>) -> (action: Action)
        ensures
            valid_store(final(self)@),
            match fetched {
                Err(e) => action@ == ActionView::Finish(Err(e)) && final(self)@ == old(self)@,
                Ok(packages) => if packages@.len() == 0 {
                    action@ == ActionView::Finish(Err(StoreError::NotFound)) && final(self)@ == old(self)@
                } else {
                    &&& action@ == ActionView::Flush
                    &&& final(self)@ == inserted(
                        old(self)@,
                        package_name@,
                        versions_of(package_views(packages@)).to_set(),
                    )
                },
            },
    {
        proof {
            use_type_invariant(&*self);
        }
        match fetched {
            Err(e) => Action::Finish(Err(e)),
            Ok(packages) => {
                if packages.len() == 0 {
                    Action::Finish(Err(StoreError::NotFound))
                } else {
                    let versions = unique_texts(package_versions(&packages));
                    proof {
                        lemma_first_occurrences(versions_of(package_views(packages@)));
                    }
                    let mut records: Vec<VersionRecord> = Vec::new();
                    std::mem::swap(&mut self.records, &mut records);
                    insert_record(&mut records, package_name.to_owned(), versions);
                    self.records = records;
                    Action::Flush
                }
            },
        }
    }

    /// The name of the project at `index` in the order of the store.
    pub(crate) fn project_name(&self, index: usize) -> (name: &String)
        requires
            index < self@.len(),
        ensures
            name@ == self@[index as int].name,
    {
        &self.records[index].name
    }

    /// The known versions of the project at `index`, each once.
    pub(crate) fn versions_at(&self, index: usize) -> (versions: &Vec<String>)
        requires
            index < self@.len(),
        ensures
            texts(versions@).no_duplicates(),
            texts(versions@).to_set() == self@[index as int].versions,
    {
        proof {
            use_type_invariant(self);
        }
        &self.records[index].versions
    }

    /// Adds `versions` to the known versions of the project at `index`.
    pub(crate) fn learn(&mut self, index: usize, versions: &Vec<String>)
        requires
            index < old(self)@.len(),
        ensures
            final(self)@ == old(self)@.update(
                index as int,
                Entry {
                    name: old(self)@[index as int].name,
                    versions: old(self)@[index as int].versions.union(texts(versions@).to_set()),
                },
            ),
    {
        proof {
            use_type_invariant(&*self);
        }
        let ghost before = self@;
        let mut records: Vec<VersionRecord> = Vec::new();
        std::mem::swap(&mut self.records, &mut records);
        let name = records[index].name.clone();
        let mut merged = clone_texts(&records[index].versions);
        extend_distinct(&mut merged, versions);
        proof {
            lemma_extended(texts(records@[index as int].versions@), texts(versions@));
        }
        let record = VersionRecord { name, versions: merged };
        let ghost entry = record.entry();
        records.set(index, record);
        proof {
            assert(entries(records@) =~= before.update(index as int, entry));
            assert(names_of(entries(records@)) =~= names_of(before));
        }
        self.records = records;
    }

    /// A store with the same contents.
    pub fn duplicate(&self) -> (copy: Database)
        ensures
            copy@ == self@,
    {
        proof {
            use_type_invariant(self);
        }
        let mut records: Vec<VersionRecord> = Vec::new();
        let mut i: usize = 0;
        while i < self.records.len()
            invariant
                i <= self.records.len(),
                records@.len() == i,
                forall|j: int|
                    0 <= j < i ==> {
                        &&& (#[trigger] records@[j]).name@ == self.records@[j].name@
                        &&& texts(records@[j].versions@) == texts(self.records@[j].versions@)
                    },
            decreases self.records.len() - i,
        {
            let name = self.records[i].name.clone();
            let versions = clone_texts(&self.records[i].versions);
            records.push(VersionRecord { name, versions });
            i += 1;
        }
        proof {
            assert(entries(records@) =~= entries(self.records@));
        }
        Database { records }
    }

    /// The number of tracked projects.
    pub fn len(&self) -> (n: usize)
        ensures
            n == self@.len(),
    {
        self.records.len()
    }

    /// The known versions of a project, each once. A project that is not
    /// tracked has none.
    pub fn known_versions(&self, name: &String) -> (versions: Vec<String>)
        ensures
            valid_store(self@),
            texts(versions@).no_duplicates(),
            texts(versions@).to_set() == known(self@, name@),
    {
        proof {
            use_type_invariant(self);
        }
        match find(&self.records, name) {
            Some(i) => {
                let versions = clone_texts(&self.records[i].versions);
                proof {
                    let names = names_of(self@);
                    assert(names.contains(name@));
                    assert(names.index_of(name@) == i as int);
                    assert(self@[i as int].versions == texts(self.records@[i as int].versions@).to_set());
                }
                versions
            },
            None => {
                let versions: Vec<String> = Vec::new();
                assert(texts(versions@).to_set() =~= Set::<Seq<char>>::empty());
                versions
            },
        }
    }
}

} // verus!
