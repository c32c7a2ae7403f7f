//! Reconciliation of the store against a metadata source, as a sequence of
//! requests and answers.
//!
//! A run asks the caller for one thing at a time: to fetch the packages of a
//! project, to hand a result to the sink, or to write the store. The caller
//! does so and answers with what happened. The run decides what follows:
//! which versions are new, what is merged, whether the store is written, and
//! that nothing more is asked once an answer reported a failure.

use vstd::prelude::*;
use crate::db::{new_packages, Action, ActionView, Database, Entry};
use crate::types::{package_versions, package_views, versions_of, Package, PackageView, StoreError};

verus! {

/// What a run is for.
#[derive(Clone, Copy, Debug, PartialEq, Eq, Structural)]
pub enum Mode {
    /// Report the new versions of each project and leave the store alone.
    DryRun,
    /// Report the new versions of each project, add them to the store and
    /// have the store written once all projects are done.
    Commit,
    /// Report all packages of each project as the source has them.
    Listing,
}

/// What the caller answers to an [`Action`].
#[derive(Debug, PartialEq, Eq)]
pub enum Event {
    /// The source answered a fetch with these packages.
    Fetched(Vec<Package>),
    /// The sink took the report.
    Reported,
    /// The store was written.
    Flushed,
    /// The action failed.
    Failed(StoreError),
}

/// What an [`Event`] holds, as plain sequences.
pub enum EventView {
    Fetched(Seq<PackageView>),
    Reported,
    Flushed,
    Failed(StoreError),
}

impl View for Event {
    type V = EventView;

    open spec fn view(&self) -> EventView {
        match self {
            Event::Fetched(packages) => EventView::Fetched(package_views(packages@)),
            Event::Reported => EventView::Reported,
            Event::Flushed => EventView::Flushed,
            Event::Failed(e) => EventView::Failed(*e),
        }
    }
}

/// The state of a run: the store as it was when the run started and as it
/// stands, the project that is being worked on, and what the caller was
/// asked to do.
pub struct UpdateView {
    pub start: Seq<Entry>,
    pub store: Seq<Entry>,
    pub mode: Mode,
    pub position: int,
    pub pending: ActionView,
}

/// What is asked when the work arrives at `position`: the packages of the
/// project there, or, past the last project, the write of a committing run
/// and the end of any other.
pub open spec fn request(store: Seq<Entry>, mode: Mode, position: int) -> ActionView {
    if 0 <= position < store.len() {
        ActionView::Fetch(store[position].name)
    } else if mode == Mode::Commit {
        ActionView::Flush
    } else {
        ActionView::Finish(Ok(()))
    }
}

/// The state in which a run starts.
pub open spec fn begin(store: Seq<Entry>, mode: Mode) -> UpdateView {
    UpdateView { start: store, store, mode, position: 0, pending: request(store, mode, 0) }
}

/// The state after the source answered with `packages` for the project that
/// the run is at. A listing reports them all. The other runs report those
/// with a version that was not known, and a committing run adds the versions
/// of all of them to the known ones.
pub open spec fn fetched(run: UpdateView, packages: Seq<PackageView>) -> UpdateView {
    let entry = run.store[run.position];
    match run.mode {
        Mode::Listing => UpdateView { pending: ActionView::Report(entry.name, packages), ..run },
        Mode::DryRun => UpdateView {
            pending: ActionView::Report(entry.name, new_packages(entry.versions, packages)),
            ..run
        },
        Mode::Commit => UpdateView {
            store: run.store.update(
                run.position,
                Entry { name: entry.name, versions: entry.versions.union(versions_of(packages).to_set()) },
            ),
            pending: ActionView::Report(entry.name, new_packages(entry.versions, packages)),
            ..run
        },
    }
}

/// The state after a failure: the run has ended with that error.
pub open spec fn failed(run: UpdateView, error: StoreError) -> UpdateView {
    UpdateView { pending: ActionView::Finish(Err(error)), ..run }
}

/// The state after the caller answered the pending action with `event`. An
/// answer of failure ends the run. An answer that does not fit the pending
/// action changes nothing, and neither does any answer to a run that has
/// ended.
pub open spec fn step(run: UpdateView, event: EventView) -> UpdateView {
    match run.pending {
        ActionView::Finish(_) => run,
        ActionView::Fetch(_) => match event {
            EventView::Fetched(packages) => fetched(run, packages),
            EventView::Failed(e) => failed(run, e),
            _ => run,
        },
        ActionView::Report(_, _) => match event {
            EventView::Reported => UpdateView {
                position: run.position + 1,
                pending: request(run.store, run.mode, run.position + 1),
                ..run
            },
            EventView::Failed(e) => failed(run, e),
            _ => run,
        },
        ActionView::Flush => match event {
            EventView::Flushed => UpdateView { pending: ActionView::Finish(Ok(())), ..run },
            EventView::Failed(e) => failed(run, e),
            _ => run,
        },
    }
}

/// The state that a run reaches from `start` when the caller gives the
/// answers `events` one after the other.
pub open spec fn run(start: UpdateView, events: Seq<EventView>) -> UpdateView
    decreases events.len(),
{
    if events.len() == 0 {
        start
    } else {
        step(run(start, events.drop_last()), events.last())
    }
}

/// The store that a run hands back: the store as it stands once the run has
/// ended without a failure, and the store as it was when the run started in
/// any other case. What a run merged before it failed, or before it was
/// given up, is discarded.
pub open spec fn handed_back(run: UpdateView) -> Seq<Entry> {
    if run.pending matches ActionView::Finish(Ok(_)) {
        run.store
    } else {
        run.start
    }
}

/// A run over the projects of a store.
pub struct Update {
    /// The store as it was when the run started, kept by a run that merges.
    initial: Option<Database>,
    db: Database,
    mode: Mode,
    position: usize,
    pending: Action,
}

impl View for Update {
    type V = UpdateView;

    closed spec fn view(&self) -> UpdateView {
        UpdateView {
            start: match self.initial {
                Some(initial) => initial@,
                None => self.db@,
            },
            store: self.db@,
            mode: self.mode,
            position: self.position as int,
            pending: self.pending@,
        }
    }
}

/// What is asked when the work arrives at `position`.
fn ask(db: &Database, mode: Mode, position: usize) -> (action: Action)
    ensures
        action@ == request(db@, mode, position as int),
{
    if position < db.len() {
        Action::Fetch(db.project_name(position).clone())
    } else if mode == Mode::Commit {
        Action::Flush
    } else {
        Action::Finish(Ok(()))
    }
}

impl Update {
    #[verifier::type_invariant]
    spec fn inv(&self) -> bool {
        &&& self.mode == Mode::Commit ==> self.initial is Some
        &&& match self.pending {
            Action::Fetch(_) | Action::Report(_, _) => self.position < self.db@.len(),
            _ => true,
        }
    }

    /// Starts a run over the projects that `db` tracks now.
    pub fn start(db: Database, mode: Mode) -> (run: Update)
        ensures
            run@ == begin(db@, mode),
    {
        let pending = ask(&db, mode, 0);
        let initial = if mode == Mode::Commit {
            Some(db.duplicate())
        } else {
            None
        };
        Update { initial, db, mode, position: 0, pending }
    }

    /// What the caller is asked to do now.
    pub fn pending(&self) -> (action: &Action)
        ensures
            action@ == self@.pending,
    {
        &self.pending
    }

    /// The store as the run holds it: what is to be written when the run asks
    /// for that.
    pub fn database(&self) -> (db: &Database)
        ensures
            db@ == self@.store,
    {
        &self.db
    }

    /// Takes the caller's answer to the pending action and decides what is
    /// asked next.
    pub fn advance(self, event: Event) -> (next: Update)
        ensures
            next@ == step(self@, event@),
    {
        proof {
            use_type_invariant(&self);
        }
        let Update { initial, db, mode, position, pending } = self;
        let mut db = db;
        match pending {
            Action::Finish(outcome) => Update { initial, db, mode, position, pending: Action::Finish(outcome) },
            Action::Fetch(name) => match event {
                Event::Fetched(packages) => {
                    let report = match mode {
                        Mode::Listing => packages,
                        Mode::DryRun => Database::get_new_packages(db.versions_at(position), &packages),
                        Mode::Commit => {
                            let fresh = Database::get_new_packages(db.versions_at(position), &packages);
                            let versions = package_versions(&packages);
                            db.learn(position, &versions);
                            fresh
                        },
                    };
                    let project = db.project_name(position).clone();
                    Update { initial, db, mode, position, pending: Action::Report(project, report) }
                },
                Event::Failed(e) => Update { initial, db, mode, position, pending: Action::Finish(Err(e)) },
                _ => Update { initial, db, mode, position, pending: Action::Fetch(name) },
            },
            Action::Report(name, packages) => match event {
                Event::Reported => {
                    let projects: usize = db.len();
                    assert(position < projects);
                    let pending = ask(&db, mode, position + 1);
                    Update { initial, db, mode, position: position + 1, pending }
                },
                Event::Failed(e) => Update { initial, db, mode, position, pending: Action::Finish(Err(e)) },
                _ => Update { initial, db, mode, position, pending: Action::Report(name, packages) },
            },
            Action::Flush => match event {
                Event::Flushed => Update { initial, db, mode, position, pending: Action::Finish(Ok(())) },
                Event::Failed(e) => Update { initial, db, mode, position, pending: Action::Finish(Err(e)) },
                _ => Update { initial, db, mode, position, pending: Action::Flush },
            },
        }
    }

    /// How the run ended, if it has.
    pub fn outcome(&self) -> (outcome: Option<Result<(), StoreError>>)
        ensures
            outcome == match self@.pending {
                ActionView::Finish(r) => Some(r),
                _ => None,
            },
    {
        match &self.pending {
            Action::Finish(r) => Some(*r),
            _ => None,
        }
    }

    /// Ends the run and hands the store back: with what the run merged once
    /// it has ended without a failure, and as it was when the run started in
    /// any other case.
    pub fn into_database(self) -> (db: Database)
        ensures
            db@ == handed_back(self@),
    {
        match self.pending {
            Action::Finish(Ok(_)) => self.db,
            _ => match self.initial {
                Some(initial) => initial,
                None => self.db,
            },
        }
    }
}

impl Database {
    /// Starts a reconciliation of the store: a dry run, or with `commit` a
    /// run that adds what it finds and has the store written.
    pub fn update(self, commit: bool) -> (run: Update)
        ensures
            run@ == begin(self@, if commit { Mode::Commit } else { Mode::DryRun }),
    {
        Update::start(self, if commit { Mode::Commit } else { Mode::DryRun })
    }

    /// Starts a listing of what the source holds of each tracked project.
    pub fn show_upstream(self) -> (run: Update)
        ensures
            run@ == begin(self@, Mode::Listing),
    {
        Update::start(self, Mode::Listing)
    }
}

} // verus!
