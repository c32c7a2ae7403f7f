//! What holds of every run, whatever the source and the sink answer.

use vstd::prelude::*;
use crate::db::{
    document_store, inserted, is_new, known, lists, names_of, new_packages, valid_store, ActionView,
    Entry,
};
use crate::text::{lemma_push_contains, lemma_push_fresh, texts};
use crate::types::{versions_of, PackageView, StoreError};
use crate::update::{begin, handed_back, run, step, EventView, Mode, UpdateView};

verus! {

/// A run that has not ended is at a project of the store while it fetches or
/// reports, and past the last project while it asks for the write.
pub open spec fn in_order(state: UpdateView) -> bool {
    match state.pending {
        ActionView::Fetch(_) | ActionView::Report(_, _) => 0 <= state.position < state.store.len(),
        ActionView::Flush => state.mode == Mode::Commit && state.position == state.store.len(),
        ActionView::Finish(_) => true,
    }
}

/// One more answer takes the run one step further.
pub proof fn lemma_run_next(start: UpdateView, events: Seq<EventView>, k: int)
    requires
        0 <= k < events.len(),
    ensures
        run(start, events.take(k + 1)) == step(run(start, events.take(k)), events[k]),
{
    let longer = events.take(k + 1);
    assert(longer.drop_last() =~= events.take(k));
    assert(longer.last() == events[k]);
}

/// Whatever the answers, a run stays in order, keeps its purpose, remembers
/// the store that it started with, and keeps the projects of the store and
/// their order: it changes known versions only, so no project comes to be
/// recorded twice.
pub proof fn lemma_run_keeps_projects(store: Seq<Entry>, mode: Mode, events: Seq<EventView>)
    ensures
        in_order(run(begin(store, mode), events)),
        run(begin(store, mode), events).mode == mode,
        run(begin(store, mode), events).start == store,
        run(begin(store, mode), events).store.len() == store.len(),
        names_of(run(begin(store, mode), events).store) == names_of(store),
        valid_store(store) ==> valid_store(run(begin(store, mode), events).store),
    decreases events.len(),
{
    if events.len() > 0 {
        lemma_run_keeps_projects(store, mode, events.drop_last());
        let before = run(begin(store, mode), events.drop_last());
        let after = run(begin(store, mode), events);
        assert(after == step(before, events.last()));
        assert(names_of(after.store) =~= names_of(before.store));
    }
}

/// A dry run and a listing leave the store as it was and never ask for it to
/// be written, whatever the answers.
pub proof fn lemma_only_commit_writes(store: Seq<Entry>, mode: Mode, events: Seq<EventView>)
    requires
        mode != Mode::Commit,
    ensures
        run(begin(store, mode), events).store == store,
        run(begin(store, mode), events).pending != ActionView::Flush,
    decreases events.len(),
{
    if events.len() > 0 {
        lemma_only_commit_writes(store, mode, events.drop_last());
        lemma_run_keeps_projects(store, mode, events.drop_last());
    }
}

/// A run that has not ended without a failure hands back the store that it
/// started with, whatever it merged, and so does every dry run and every
/// listing: only a committing run that succeeded changes the store.
pub proof fn lemma_failure_restores(store: Seq<Entry>, mode: Mode, events: Seq<EventView>)
    ensures
        !(run(begin(store, mode), events).pending matches ActionView::Finish(Ok(_))) ==> handed_back(
            run(begin(store, mode), events),
        ) == store,
        mode != Mode::Commit ==> handed_back(run(begin(store, mode), events)) == store,
{
    lemma_run_keeps_projects(store, mode, events);
    if mode != Mode::Commit {
        lemma_only_commit_writes(store, mode, events);
    }
}

/// A run ends with a failure only when an answer reported one.
pub proof fn lemma_no_failure_no_error(store: Seq<Entry>, mode: Mode, events: Seq<EventView>)
    requires
        forall|i: int| 0 <= i < events.len() ==> !(#[trigger] events[i] is Failed),
    ensures
        !(run(begin(store, mode), events).pending matches ActionView::Finish(Err(_))),
    decreases events.len(),
{
    if events.len() > 0 {
        let earlier = events.drop_last();
        assert forall|i: int| 0 <= i < earlier.len() implies !(#[trigger] earlier[i] is Failed) by {
            assert(earlier[i] == events[i]);
        }
        lemma_no_failure_no_error(store, mode, earlier);
        assert(!(events.last() is Failed)) by {
            assert(events.last() == events[events.len() - 1]);
        }
    }
}

/// The store after some dry runs in a row, each with its own answers.
pub open spec fn after_dry_runs(store: Seq<Entry>, answers: Seq<Seq<EventView>>) -> Seq<Entry>
    decreases answers.len(),
{
    if answers.len() == 0 {
        store
    } else {
        run(begin(after_dry_runs(store, answers.drop_last()), Mode::DryRun), answers.last()).store
    }
}

/// Dry runs can be repeated: after any number of them the store is what it
/// was, and one more dry run asks and reports what it would have at first.
pub proof fn lemma_dry_run_repeats(store: Seq<Entry>, earlier: Seq<Seq<EventView>>, events: Seq<EventView>)
    ensures
        after_dry_runs(store, earlier) == store,
        run(begin(after_dry_runs(store, earlier), Mode::DryRun), events) == run(
            begin(store, Mode::DryRun),
            events,
        ),
    decreases earlier.len(),
{
    if earlier.len() > 0 {
        lemma_dry_run_repeats(store, earlier.drop_last(), earlier.last());
        lemma_only_commit_writes(store, Mode::DryRun, earlier.last());
    }
}

/// A run that has ended stays as it is.
pub proof fn lemma_end_is_final(start: UpdateView, events: Seq<EventView>, j: int, k: int)
    requires
        0 <= j <= k <= events.len(),
        run(start, events.take(j)).pending is Finish,
    ensures
        run(start, events.take(k)) == run(start, events.take(j)),
    decreases k - j,
{
    if j < k {
        lemma_end_is_final(start, events, j, k - 1);
        lemma_run_next(start, events, k - 1);
    }
}

/// Once a run has asked for the write it fetches and reports no more.
pub proof fn lemma_write_comes_last(start: UpdateView, events: Seq<EventView>, j: int, k: int)
    requires
        0 <= j <= k <= events.len(),
        run(start, events.take(j)).pending is Flush || run(start, events.take(j)).pending is Finish,
    ensures
        run(start, events.take(k)).pending is Flush || run(start, events.take(k)).pending is Finish,
    decreases k - j,
{
    if j < k {
        lemma_write_comes_last(start, events, j, k - 1);
        lemma_run_next(start, events, k - 1);
    }
}

/// A run fails fast. When the answer at `k` reports a failure to a run that
/// has not ended, the run ends with that error and stays so. When that
/// failure answers a fetch or a report, the run never asks for the store to
/// be written, neither before nor after: what it merged so far is not
/// written.
pub proof fn lemma_fail_fast(store: Seq<Entry>, mode: Mode, events: Seq<EventView>, k: int, error: StoreError)
    requires
        0 <= k < events.len(),
        events[k] == EventView::Failed(error),
        !(run(begin(store, mode), events.take(k)).pending is Finish),
    ensures
        forall|j: int|
            k < j <= events.len() ==> (#[trigger] run(begin(store, mode), events.take(j))).pending
                == ActionView::Finish(Err(error)),
        !(run(begin(store, mode), events.take(k)).pending is Flush) ==> forall|j: int|
            0 <= j <= events.len() ==> !((#[trigger] run(begin(store, mode), events.take(j))).pending is Flush),
{
    let start = begin(store, mode);
    lemma_run_next(start, events, k);
    assert forall|j: int| k < j <= events.len() implies (#[trigger] run(start, events.take(j))).pending
        == ActionView::Finish(Err(error)) by {
        lemma_end_is_final(start, events, k + 1, j);
    }
    if !(run(start, events.take(k)).pending is Flush) {
        assert forall|j: int| 0 <= j <= events.len() implies !((#[trigger] run(
            start,
            events.take(j),
        )).pending is Flush) by {
            if j <= k {
                if run(start, events.take(j)).pending is Flush {
                    lemma_write_comes_last(start, events, j, k);
                }
            }
        }
    }
}

/// A committing run asks for the write only when every project has been
/// fetched and reported without a failure, and once the write is done the
/// run has ended.
pub proof fn lemma_write_after_all(store: Seq<Entry>, mode: Mode, events: Seq<EventView>)
    requires
        run(begin(store, mode), events).pending is Flush,
    ensures
        mode == Mode::Commit,
        run(begin(store, mode), events).position == store.len(),
        step(run(begin(store, mode), events), EventView::Flushed).pending == ActionView::Finish(Ok(())),
{
    lemma_run_keeps_projects(store, mode, events);
}

/// Tracking a project keeps the store valid, makes the given versions the
/// known ones of that project, and leaves the other projects as they were.
pub proof fn lemma_inserted(store: Seq<Entry>, name: Seq<char>, versions: Set<Seq<char>>, other: Seq<char>)
    requires
        valid_store(store),
    ensures
        valid_store(inserted(store, name, versions)),
        known(inserted(store, name, versions), name) == versions,
        other != name ==> known(inserted(store, name, versions), other) == known(store, other),
{
    let names = names_of(store);
    let after = inserted(store, name, versions);
    let entry = Entry { name, versions };
    if names.contains(name) {
        let i = names.index_of(name);
        assert(names_of(after) =~= names);
        assert(names_of(after).index_of(name) == i);
        if other != name && names.contains(other) {
            let o = names.index_of(other);
            assert(after[o] == store[o]);
        }
    } else {
        assert(names_of(after) =~= names.push(name));
        lemma_push_fresh(names, name);
        assert(names_of(after)[names.len() as int] == name);
        assert(names_of(after).contains(name));
        assert(names_of(after).index_of(name) == names.len());
        if other != name {
            lemma_push_contains(names, name, other);
            if names.contains(other) {
                let o = names.index_of(other);
                assert(names_of(after)[o] == other);
                assert(names_of(after).index_of(other) == o);
            }
        }
    }
}

/// A store that is written and opened again is the store that was written:
/// the document of a listing of a store stands for that store.
pub proof fn lemma_reopen(store: Seq<Entry>, listing: Seq<(String, Vec<String>)>)
    requires
        valid_store(store),
        lists(listing, store),
    ensures
        document_store(listing) == store,
    decreases listing.len(),
{
    if listing.len() == 0 {
        assert(store =~= Seq::empty());
    } else {
        let n = listing.len() - 1;
        let rest = store.drop_last();
        let names = names_of(store);
        assert(names_of(rest) =~= names.drop_last());
        assert(lists(listing.drop_last(), rest)) by {
            assert forall|i: int| 0 <= i < rest.len() implies {
                &&& (#[trigger] listing.drop_last()[i]).0@ == rest[i].name
                &&& texts(listing.drop_last()[i].1@).no_duplicates()
                &&& texts(listing.drop_last()[i].1@).to_set() == rest[i].versions
            } by {
                assert(listing.drop_last()[i] == listing[i]);
                assert(rest[i] == store[i]);
            }
        }
        lemma_reopen(rest, listing.drop_last());
        let last = listing.last();
        assert(last == listing[n]);
        assert(last.0@ == store[n].name);
        assert(names[n] == store[n].name);
        if names_of(rest).contains(last.0@) {
            let j = names_of(rest).index_of(last.0@);
            assert(names[j] == last.0@);
        }
        assert(rest.push(store[n]) =~= store);
        assert(store[n] == (Entry { name: last.0@, versions: texts(last.1@).to_set() }));
    }
}

/// The store of a document tracks no project twice.
pub proof fn lemma_document_store_valid(document: Seq<(String, Vec<String>)>)
    ensures
        valid_store(document_store(document)),
    decreases document.len(),
{
    if document.len() > 0 {
        let last = document.last();
        lemma_document_store_valid(document.drop_last());
        lemma_inserted(document_store(document.drop_last()), last.0@, texts(last.1@).to_set(), last.0@);
    }
}

/// The known versions of a project after opening a document are those of
/// the project's last place in the document, wherever that place is: the
/// order in which a file holds its projects does not matter to what is
/// known.
pub proof fn lemma_document_known(document: Seq<(String, Vec<String>)>, name: Seq<char>, i: int)
    requires
        0 <= i < document.len(),
        document[i].0@ == name,
        forall|j: int| i < j < document.len() ==> (#[trigger] document[j]).0@ != name,
    ensures
        known(document_store(document), name) == texts(document[i].1@).to_set(),
    decreases document.len(),
{
    let rest = document.drop_last();
    let last = document.last();
    lemma_document_store_valid(rest);
    lemma_inserted(document_store(rest), last.0@, texts(last.1@).to_set(), name);
    if i < document.len() - 1 {
        assert(last == document[document.len() - 1]);
        assert(rest[i] == document[i]);
        assert forall|j: int| i < j < rest.len() implies (#[trigger] rest[j]).0@ != name by {
            assert(rest[j] == document[j]);
        }
        lemma_document_known(rest, name, i);
    }
}

/// A project that a document does not hold has no known version after
/// opening it.
pub proof fn lemma_document_unknown(document: Seq<(String, Vec<String>)>, name: Seq<char>)
    requires
        forall|j: int| 0 <= j < document.len() ==> (#[trigger] document[j]).0@ != name,
    ensures
        known(document_store(document), name) == Set::<Seq<char>>::empty(),
    decreases document.len(),
{
    if document.len() > 0 {
        let rest = document.drop_last();
        let last = document.last();
        assert(last == document[document.len() - 1]);
        assert forall|j: int| 0 <= j < rest.len() implies (#[trigger] rest[j]).0@ != name by {
            assert(rest[j] == document[j]);
        }
        lemma_document_unknown(rest, name);
        lemma_document_store_valid(rest);
        lemma_inserted(document_store(rest), last.0@, texts(last.1@).to_set(), name);
    } else {
        assert(names_of(document_store(document)) =~= Seq::empty());
    }
}

/// Among packages whose versions are all known, none is new.
pub proof fn lemma_known_is_not_new(known_versions: Set<Seq<char>>, packages: Seq<PackageView>)
    requires
        forall|i: int| 0 <= i < packages.len() ==> known_versions.contains(#[trigger] packages[i].version),
    ensures
        new_packages(known_versions, packages) == Seq::<PackageView>::empty(),
    decreases packages.len(),
{
    reveal(Seq::filter);
    if packages.len() > 0 {
        lemma_known_is_not_new(known_versions, packages.drop_last());
        assert(!is_new(known_versions)(packages.last()));
    }
}

/// Once the versions of what the source holds have been added to the known
/// ones, the same answer of the source holds nothing new.
pub proof fn lemma_nothing_new_after_commit(known_versions: Set<Seq<char>>, packages: Seq<PackageView>)
    ensures
        new_packages(known_versions.union(versions_of(packages).to_set()), packages) == Seq::<
            PackageView,
        >::empty(),
{
    let merged = known_versions.union(versions_of(packages).to_set());
    assert forall|i: int| 0 <= i < packages.len() implies merged.contains(#[trigger] packages[i].version) by {
        assert(versions_of(packages)[i] == packages[i].version);
    }
    lemma_known_is_not_new(merged, packages);
}

} // verus!
