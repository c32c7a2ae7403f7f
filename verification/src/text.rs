//! Views of lists of strings, shared by the contracts of the other modules.

use vstd::prelude::*;

verus! {

/// The character sequences of a list of strings, in order.
pub open spec fn texts(items: Seq<String>) -> Seq<Seq<char>> {
    items.map_values(|s: String| s@)
}

/// A text is plain when it holds no escape character, the character that
/// begins a control sequence of a terminal.
pub open spec fn plain(text: Seq<char>) -> bool {
    !text.contains('\u{1b}')
}

/// Every text of a list is plain.
pub open spec fn all_plain(items: Seq<Seq<char>>) -> bool {
    forall|i: int| 0 <= i < items.len() ==> plain(#[trigger] items[i])
}

/// Whether a text is plain.
pub fn is_plain(text: &str) -> (answer: bool)
    ensures
        answer == plain(text@),
{
    broadcast use vstd::string::axiom_spec_iter;

    let mut found = false;
    for c in it: text.chars()
        invariant
            it.seq() == text@,
            found == exists|j: int| 0 <= j < it.index() && text@[j] == '\u{1b}',
    {
        if c == '\u{1b}' {
            found = true;
        }
    }
    !found
}

/// Whether `needle` occurs in `items`, compared character by character.
pub fn contains_text(items: &Vec<String>, needle: &String) -> (found: bool)
    ensures
        found == texts(items@).contains(needle@),
{
    let mut i: usize = 0;
    while i < items.len()
        invariant
            i <= items.len(),
            forall|j: int| 0 <= j < i ==> items@[j]@ != needle@,
        decreases items.len() - i,
    {
        if items[i] == *needle {
            assert(texts(items@)[i as int] == needle@);
            return true;
        }
        i += 1;
    }
    assert forall|j: int| 0 <= j < texts(items@).len() implies texts(items@)[j] != needle@ by {
        assert(texts(items@)[j] == items@[j]@);
    }
    false
}

/// A copy of a list of strings with the same texts in the same order.
pub fn clone_texts(items: &Vec<String>) -> (copy: Vec<String>)
    ensures
        texts(copy@) == texts(items@),
{
    let mut copy: Vec<String> = Vec::new();
    let mut i: usize = 0;
    while i < items.len()
        invariant
            i <= items.len(),
            copy@.len() == i,
            forall|j: int| 0 <= j < i ==> copy@[j]@ == items@[j]@,
        decreases items.len() - i,
    {
        copy.push(items[i].clone());
        i += 1;
    }
    assert(texts(copy@) =~= texts(items@));
    copy
}

/// Appending a string to a list appends its text to the list's texts.
pub proof fn lemma_texts_push(items: Seq<String>, item: String)
    ensures
        texts(items.push(item)) == texts(items).push(item@),
{
    assert(texts(items.push(item)) =~= texts(items).push(item@));
}

/// `known`, followed by each string of `more` that neither `known` nor an
/// earlier place of `more` holds, in the order of `more`.
pub open spec fn extended(known: Seq<Seq<char>>, more: Seq<Seq<char>>) -> Seq<Seq<char>>
    decreases more.len(),
{
    if more.len() == 0 {
        known
    } else {
        let before = extended(known, more.drop_last());
        if before.contains(more.last()) {
            before
        } else {
            before.push(more.last())
        }
    }
}

/// The strings of `items` without those that occurred before, in the order
/// in which each occurs first.
pub open spec fn first_occurrences(items: Seq<Seq<char>>) -> Seq<Seq<char>> {
    extended(Seq::empty(), items)
}

/// An extended list starts with what was known, holds what was known and
/// what was added and nothing else, and has no repeats if the known part had
/// none.
pub proof fn lemma_extended(known: Seq<Seq<char>>, more: Seq<Seq<char>>)
    ensures
        known.is_prefix_of(extended(known, more)),
        extended(known, more).to_set() == known.to_set().union(more.to_set()),
        known.no_duplicates() ==> extended(known, more).no_duplicates(),
    decreases more.len(),
{
    if more.len() == 0 {
        assert(extended(known, more).to_set() =~= known.to_set().union(more.to_set()));
    } else {
        let rest = more.drop_last();
        let before = extended(known, rest);
        lemma_extended(known, rest);
        assert(rest.push(more.last()) =~= more);
        assert forall|t: Seq<char>|
            extended(known, more).contains(t) <==> known.contains(t) || more.contains(t) by {
            lemma_push_contains(rest, more.last(), t);
            lemma_push_contains(before, more.last(), t);
            assert(before.to_set().contains(t) <==> known.to_set().contains(t) || rest.to_set().contains(t));
        }
        if !before.contains(more.last()) && known.no_duplicates() {
            lemma_push_fresh(before, more.last());
        }
        assert(extended(known, more).to_set() =~= known.to_set().union(more.to_set()));
    }
}

/// The first occurrences hold each string of the list once.
pub proof fn lemma_first_occurrences(items: Seq<Seq<char>>)
    ensures
        first_occurrences(items).no_duplicates(),
        first_occurrences(items).to_set() == items.to_set(),
{
    lemma_extended(Seq::empty(), items);
    assert(Seq::<Seq<char>>::empty().to_set().union(items.to_set()) =~= items.to_set());
}

/// Adds to `known` each string of `more` that it does not hold yet, in the
/// order of `more`.
pub fn extend_distinct(known: &mut Vec<String>, more: &Vec<String>)
    ensures
        texts(final(known)@) == extended(texts(old(known)@), texts(more@)),
{
    let ghost before = texts(known@);
    let ghost added = texts(more@);
    let mut i: usize = 0;
    assert(added.take(0) =~= Seq::empty());
    while i < more.len()
        invariant
            i <= more.len(),
            before == texts(old(known)@),
            added == texts(more@),
            texts(known@) == extended(before, added.take(i as int)),
        decreases more.len() - i,
    {
        proof {
            let longer = added.take(i as int + 1);
            assert(longer.drop_last() =~= added.take(i as int));
            assert(longer.last() == more@[i as int]@);
        }
        if !contains_text(known, &more[i]) {
            let item = more[i].clone();
            proof {
                lemma_texts_push(known@, item);
            }
            known.push(item);
        }
        i += 1;
    }
    assert(added.take(i as int) =~= added);
}

/// A pushed sequence holds what it held before, and the pushed item.
pub proof fn lemma_push_contains<T>(items: Seq<T>, item: T, probe: T)
    ensures
        items.push(item).contains(probe) <==> items.contains(probe) || probe == item,
{
    let pushed = items.push(item);
    if items.contains(probe) {
        let j = choose|j: int| 0 <= j < items.len() && items[j] == probe;
        assert(pushed[j] == probe);
    }
    if probe == item {
        assert(pushed[items.len() as int] == probe);
    }
    if pushed.contains(probe) {
        let j = choose|j: int| 0 <= j < pushed.len() && pushed[j] == probe;
        if j < items.len() {
            assert(items[j] == probe);
        }
    }
}

/// Pushing an item that a sequence without repeats does not hold leaves it
/// without repeats.
pub proof fn lemma_push_fresh<T>(items: Seq<T>, item: T)
    requires
        items.no_duplicates(),
        !items.contains(item),
    ensures
        items.push(item).no_duplicates(),
{
    let pushed = items.push(item);
    assert forall|i: int, j: int| 0 <= i < pushed.len() && 0 <= j < pushed.len() && i != j implies pushed[i]
        != pushed[j] by {
        if i < items.len() && j < items.len() {
        } else if i < items.len() {
            assert(items[i] == pushed[i]);
        } else {
            assert(items[j] == pushed[j]);
        }
    }
}

} // verus!
