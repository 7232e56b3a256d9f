//! Properties of the folder state that hold across inputs and event sequences.
use vstd::prelude::*;
use crate::bitmap::{outcome_view, BitmapView, IconError, RawIcon};
use crate::state::{
    child_entry, child_is_readable, created, removed, scanned, after_event, Child,
    EntryView,
};
use crate::watch::EventView;

verus! {

broadcast use Seq::lemma_filter_push, Seq::lemma_filter_len_push;

/// The items of `s` whose path is `p`.
pub open spec fn items_at(s: Seq<EntryView>, p: Seq<char>) -> Seq<EntryView> {
    s.filter(|e: EntryView| e.is_item_at(p))
}

/// The error entries of `s`, in order.
pub open spec fn errors_of(s: Seq<EntryView>) -> Seq<EntryView> {
    s.filter(|e: EntryView| e.is_error())
}

/// The item entries of `s`, in order.
pub open spec fn items_of(s: Seq<EntryView>) -> Seq<EntryView> {
    s.filter(|e: EntryView| e.is_item())
}

/// Creating a path that no entry holds adds exactly one entry, at the end,
/// and leaves the others as they were; when the icon resolves, the new entry
/// is an item at that path.
pub proof fn lemma_created_appends(s: Seq<EntryView>, p: Seq<char>, outcome: Result<BitmapView, IconError>)
    requires
        forall|i: int| 0 <= i < s.len() ==> !(#[trigger] s[i]).is_item_at(p),
    ensures
        created(s, p, outcome).len() == s.len() + 1,
        created(s, p, outcome).drop_last() == s,
        outcome is Ok ==> created(s, p, outcome).last().is_item_at(p),
        outcome is Ok ==> items_at(created(s, p, outcome), p).len() == 1,
{
    assert(created(s, p, outcome).drop_last() =~= s);
    lemma_no_items_at(s, p);
}

/// Creating the same path twice in a row, with no removal between, leaves two
/// more items at that path: creation never merges duplicates.
pub proof fn lemma_created_twice_duplicates(s: Seq<EntryView>, p: Seq<char>, outcome: Result<BitmapView, IconError>)
    requires
        outcome is Ok,
    ensures
        created(created(s, p, outcome), p, outcome).len() == s.len() + 2,
        items_at(created(created(s, p, outcome), p, outcome), p).len() == items_at(s, p).len() + 2,
{
}

proof fn lemma_no_items_at(s: Seq<EntryView>, p: Seq<char>)
    requires
        forall|i: int| 0 <= i < s.len() ==> !(#[trigger] s[i]).is_item_at(p),
    ensures
        items_at(s, p).len() == 0,
    decreases s.len(),
{
    if s.len() > 0 {
        let init = s.drop_last();
        assert(s =~= init.push(s.last()));
        assert forall|i: int| 0 <= i < init.len() implies !(#[trigger] init[i]).is_item_at(p) by {
            assert(init[i] == s[i]);
        }
        lemma_no_items_at(init, p);
    }
}

/// Removing a path leaves no item at that path, keeps every error entry in
/// order, and changes nothing when no item is at that path.
pub proof fn lemma_removed_exact(s: Seq<EntryView>, p: Seq<char>)
    ensures
        forall|i: int| 0 <= i < removed(s, p).len() ==> !(#[trigger] removed(s, p)[i]).is_item_at(p),
        errors_of(removed(s, p)) == errors_of(s),
        (forall|i: int| 0 <= i < s.len() ==> !(#[trigger] s[i]).is_item_at(p)) ==> removed(s, p) == s,
    decreases s.len(),
{
    broadcast use Seq::lemma_filter_pred;

    if s.len() > 0 {
        let init = s.drop_last();
        assert(s =~= init.push(s.last()));
        lemma_removed_exact(init, p);
        if forall|i: int| 0 <= i < s.len() ==> !(#[trigger] s[i]).is_item_at(p) {
            assert(forall|i: int| 0 <= i < init.len() ==> #[trigger] init[i] == s[i]);
            assert(!s[s.len() - 1].is_item_at(p));
        }
    } else {
        assert(removed(s, p) =~= s) by {
            reveal(Seq::filter);
        }
        assert(errors_of(removed(s, p)) =~= errors_of(s));
    }
}

/// A `Modified` event leaves the state exactly as it was.
pub proof fn lemma_modified_keeps(s: Seq<EntryView>, outcome: Result<BitmapView, IconError>)
    ensures
        after_event(s, EventView::Modified, outcome) == s,
{
}

/// A child yields an item exactly when it was read and its icon converts.
pub proof fn lemma_child_entry_kind(c: Child)
    ensures
        child_entry(c).is_item() == child_is_readable(c),
        child_entry(c).is_error() == !child_is_readable(c),
{
}

/// Scanning a listing gives one entry per child, in listing order: an item
/// for each readable child and an error for each other, so the counts of
/// items and errors are those of readable and unreadable children.
pub proof fn lemma_scan_counts(cs: Seq<Child>)
    ensures
        scanned(Ok(cs)).len() == cs.len(),
        forall|i: int| 0 <= i < cs.len() ==> #[trigger] scanned(Ok(cs))[i] == child_entry(cs[i]),
        items_of(scanned(Ok(cs))).len() == cs.filter(|c: Child| child_is_readable(c)).len(),
        errors_of(scanned(Ok(cs))).len() + cs.filter(|c: Child| child_is_readable(c)).len() == cs.len(),
    decreases cs.len(),
{
    if cs.len() > 0 {
        let init = cs.drop_last();
        let c = cs.last();
        assert(cs =~= init.push(c));
        lemma_scan_counts(init);
        lemma_child_entry_kind(c);
        assert(scanned(Ok(cs)) =~= scanned(Ok(init)).push(child_entry(c)));
    } else {
        reveal(Seq::filter);
    }
}

/// A directory that cannot be listed gives exactly one error entry, whose
/// message is the failure's text.
pub proof fn lemma_scan_failure(message: Seq<char>)
    ensures
        scanned(Err(message)).len() == 1,
        scanned(Err(message))[0] == (EntryView::Error { message }),
{
}

/// Converting the same raw icon twice gives bitmaps with the same width,
/// height and pixel bytes.
pub proof fn lemma_conversion_deterministic(a: RawIcon, b: RawIcon)
    requires
        a.width == b.width,
        a.height == b.height,
        a.bgra@ == b.bgra@,
    ensures
        outcome_view(Ok(a)) == outcome_view(Ok(b)),
{
}

} // verus!
