//! The ordered list of folder entries, its initial assembly from a directory
//! listing, and the reconciliation of watch events into it.
use vstd::prelude::*;
use crate::bitmap::{
    resolve_icon, outcome_view, BitmapView, IconBitmap, IconError, RawIcon,
};
use crate::watch::{EventView, WatchEvent};

verus! {

/// One row of the folder state.
#[derive(Debug)]
pub enum Entry {
    /// A launchable file or folder with its icon.
    Item { path: String, icon: IconBitmap },
    /// A failure captured in place of a row.
    Error { message: String },
}

/// The mathematical content of an [`Entry`].
pub enum EntryView {
    Item { path: Seq<char>, icon: BitmapView },
    Error { message: Seq<char> },
}

impl View for Entry {
    type V = EntryView;

    open spec fn view(&self) -> EntryView {
        match self {
            Entry::Item { path, icon } => EntryView::Item { path: path@, icon: icon@ },
            Entry::Error { message } => EntryView::Error { message: message@ },
        }
    }
}

impl EntryView {
    pub open spec fn is_item(self) -> bool {
        self is Item
    }

    pub open spec fn is_error(self) -> bool {
        self is Error
    }

    /// The entry is an item whose path is exactly `p`.
    pub open spec fn is_item_at(self, p: Seq<char>) -> bool {
        match self {
            EntryView::Item { path, .. } => path == p,
            EntryView::Error { .. } => false,
        }
    }
}

/// The message of the entry that stands for a path whose icon failed.
pub open spec fn icon_failure_message(e: IconError, path: Seq<char>) -> Seq<char> {
    e.describe_spec() + ": "@ + path
}

/// The entry that a path and the outcome of its icon lookup give.
pub open spec fn entry_for_spec(path: Seq<char>, outcome: Result<BitmapView, IconError>) -> EntryView {
    match outcome {
        Ok(icon) => EntryView::Item { path, icon },
        Err(e) => EntryView::Error { message: icon_failure_message(e, path) },
    }
}

/// The entry for a path, given what its icon lookup returned: an item when
/// the icon converts, else an error that names the path.
pub fn entry_for(path: String, raw: Result<RawIcon, IconError>) -> (r: Entry)
    ensures
        r@ == entry_for_spec(path@, outcome_view(raw)),
{
    match resolve_icon(raw) {
        Ok(icon) => Entry::Item { path, icon },
        Err(e) => {
            let mut message = e.describe().to_owned();
            message.append(": ");
            message.append(path.as_str());
            Entry::Error { message }
        },
    }
}

/// One child of the monitored directory as the listing gave it.
#[derive(Debug)]
pub enum Child {
    /// A child whose directory entry was read, with what its icon lookup
    /// returned.
    Listed { path: String, icon: Result<RawIcon, IconError> },
    /// A child whose directory entry could not be read.
    Unreadable { message: String },
}

/// The entry that a child of the listing gives.
pub open spec fn child_entry(c: Child) -> EntryView {
    match c {
        Child::Listed { path, icon } => entry_for_spec(path@, outcome_view(icon)),
        Child::Unreadable { message } => EntryView::Error { message: message@ },
    }
}

/// The child yields an item: its entry was read and its icon converts.
pub open spec fn child_is_readable(c: Child) -> bool {
    match c {
        Child::Listed { icon, .. } => outcome_view(icon) is Ok,
        Child::Unreadable { .. } => false,
    }
}

/// The state that a listing of the directory gives: one entry per child in
/// listing order, or a single error entry when the directory could not be
/// listed.
pub open spec fn scanned(listing: Result<Seq<Child>, Seq<char>>) -> Seq<EntryView> {
    match listing {
        Ok(children) => children.map_values(|c: Child| child_entry(c)),
        Err(message) => seq![EntryView::Error { message }],
    }
}

/// The state after `Created(p)`: the entry for `p` appended at the end, with
/// no check for an entry already at `p`.
pub open spec fn created(s: Seq<EntryView>, p: Seq<char>, outcome: Result<BitmapView, IconError>) -> Seq<EntryView> {
    s.push(entry_for_spec(p, outcome))
}

/// The state after `Removed(p)`: every item at `p` gone, all else in order.
pub open spec fn removed(s: Seq<EntryView>, p: Seq<char>) -> Seq<EntryView> {
    s.filter(|e: EntryView| !e.is_item_at(p))
}

/// The state after an event; the icon outcome counts only for `Created`.
pub open spec fn after_event(s: Seq<EntryView>, ev: EventView, outcome: Result<BitmapView, IconError>) -> Seq<EntryView> {
    match ev {
        EventView::Created(p) => created(s, p, outcome),
        EventView::Removed(p) => removed(s, p),
        EventView::Modified => s,
    }
}

/// The ordered entries of the monitored folder.
#[derive(Debug)]
pub struct FolderState {
    pub entries: Vec<Entry>,
}

impl View for FolderState {
    type V = Seq<EntryView>;

    open spec fn view(&self) -> Seq<EntryView> {
        self.entries@.map_values(|e: Entry| e@)
    }
}

impl FolderState {
    /// A state with no entries.
    pub fn new() -> (r: FolderState)
        ensures
            r@ == Seq::<EntryView>::empty(),
    {
        let r = FolderState { entries: Vec::new() };
        assert(r@ =~= Seq::<EntryView>::empty());
        r
    }

    /// Builds the state from a listing of the directory: each child becomes
    /// an item or an error in listing order; a directory that could not be
    /// listed becomes one error entry with the failure's text.
    pub fn scan(listing: Result<Vec<Child>, String>) -> (r: FolderState)
        ensures
            r@ == scanned(
                match listing {
                    Ok(v) => Ok::<Seq<Child>, Seq<char>>(v@),
                    Err(m) => Err::<Seq<Child>, Seq<char>>(m@),
                },
            ),
    {
        match listing {
            Ok(children) => {
                let ghost cs = children@;
                let mut rest = children;
                let mut entries: Vec<Entry> = Vec::new();
                while rest.len() > 0
                    invariant
                        cs.len() == entries@.len() + rest@.len(),
                        rest@ == cs.skip(entries@.len() as int),
                        entries@.map_values(|e: Entry| e@) == cs.take(entries@.len() as int).map_values(
                            |c: Child| child_entry(c),
                        ),
                    decreases rest@.len(),
                {
                    let ghost k = entries@.len() as int;
                    let c = rest.remove(0);
                    assert(c == cs[k]);
                    let e = match c {
                        Child::Listed { path, icon } => entry_for(path, icon),
                        Child::Unreadable { message } => Entry::Error { message },
                    };
                    assert(e@ == child_entry(cs[k]));
                    let ghost prev = entries@;
                    assert forall|j: int| 0 <= j < k implies prev[j]@ == child_entry(cs[j]) by {
                        assert(prev.map_values(|e: Entry| e@)[j] == cs.take(k).map_values(
                            |c: Child| child_entry(c),
                        )[j]);
                    }
                    entries.push(e);
                    assert(rest@ =~= cs.skip(k + 1));
                    assert(entries@.map_values(|e: Entry| e@) =~= cs.take(k + 1).map_values(
                        |c: Child| child_entry(c),
                    ));
                }
                assert(cs.take(cs.len() as int) =~= cs);
                FolderState { entries }
            },
            Err(message) => {
                let mut entries: Vec<Entry> = Vec::new();
                entries.push(Entry::Error { message });
                let r = FolderState { entries };
                assert(r@ =~= seq![EntryView::Error { message: message@ }]);
                r
            },
        }
    }

    /// Applies `Created(path)`: appends the entry for `path`, given what its
    /// icon lookup returned.
    pub fn apply_created(&mut self, path: String, icon: Result<RawIcon, IconError>)
        ensures
            final(self)@ == created(old(self)@, path@, outcome_view(icon)),
    {
        let e = entry_for(path, icon);
        self.entries.push(e);
        assert(self@ =~= created(old(self)@, path@, outcome_view(icon)));
    }

    /// Applies `Removed(path)`: removes every item whose path is `path`;
    /// error entries and other items stay in order.
    pub fn apply_removed(&mut self, path: &String)
        ensures
            final(self)@ == removed(old(self)@, path@),
    {
        let ghost orig = self@;
        let mut rest: Vec<Entry> = Vec::new();
        std::mem::swap(&mut rest, &mut self.entries);
        let ghost rs = rest@;
        let total = rest.len();
        let ghost pred = |e: EntryView| !e.is_item_at(path@);
        assert(rs.map_values(|e: Entry| e@) == orig);
        let mut i: usize = 0;
        while rest.len() > 0
            invariant
                rs.len() == total,
                rs.len() == i + rest@.len(),
                rest@ == rs.skip(i as int),
                self.entries@.map_values(|e: Entry| e@) == rs.take(i as int).map_values(|e: Entry| e@).filter(pred),
                pred == (|e: EntryView| !e.is_item_at(path@)),
            decreases rest@.len(),
        {
            let e = rest.remove(0);
            assert(e == rs[i as int]);
            let keep = match &e {
                Entry::Item { path: q, .. } => !(*q == *path),
                Entry::Error { .. } => true,
            };
            let ghost before = rs.take(i as int).map_values(|e: Entry| e@);
            assert(rs.take(i + 1).map_values(|e: Entry| e@) =~= before.push(e@));
            proof {
                before.lemma_filter_push(e@, pred);
            }
            if keep {
                self.entries.push(e);
            }
            assert(self.entries@.map_values(|e: Entry| e@) =~= rs.take(i + 1).map_values(|e: Entry| e@).filter(pred));
            i = i + 1;
            assert(rest@ =~= rs.skip(i as int));
        }
        assert(rs.take(i as int) =~= rs);
    }

    /// Applies `Modified`: the state is left as it is.
    pub fn apply_modified(&mut self)
        ensures
            final(self)@ == old(self)@,
    {
    }

    /// Applies an event; `icon` is what the icon lookup of the created path
    /// returned, and counts only for `Created`.
    pub fn apply(&mut self, event: WatchEvent, icon: Result<RawIcon, IconError>)
        ensures
            final(self)@ == after_event(old(self)@, event@, outcome_view(icon)),
    {
        match event {
            WatchEvent::Created(p) => self.apply_created(p, icon),
            WatchEvent::Removed(p) => self.apply_removed(&p),
            WatchEvent::Modified => self.apply_modified(),
        }
    }

    /// Number of entries.
    pub fn len(&self) -> (r: usize)
        ensures
            r == self@.len(),
    {
        self.entries.len()
    }
}

} // verus!
