//! Watch events and the classification of raw filesystem notifications.
use vstd::prelude::*;

verus! {

/// A classified change to the monitored tree.
#[derive(Clone, Debug)]
pub enum WatchEvent {
    Created(String),
    Removed(String),
    Modified,
}

/// The mathematical content of a [`WatchEvent`].
pub enum EventView {
    Created(Seq<char>),
    Removed(Seq<char>),
    Modified,
}

impl View for WatchEvent {
    type V = EventView;

    open spec fn view(&self) -> EventView {
        match self {
            WatchEvent::Created(p) => EventView::Created(p@),
            WatchEvent::Removed(p) => EventView::Removed(p@),
            WatchEvent::Modified => EventView::Modified,
        }
    }
}

/// Direction of a rename as the platform reported it.
#[derive(Clone, Copy, Debug, PartialEq, Eq, Structural)]
pub enum RawRename {
    Any,
    To,
    From,
    Both,
    Other,
}

/// What a modification notification changed.
#[derive(Clone, Copy, Debug, PartialEq, Eq, Structural)]
pub enum RawModify {
    Any,
    Data,
    Metadata,
    Name(RawRename),
    Other,
}

/// The kind of a raw filesystem notification.
#[derive(Clone, Copy, Debug, PartialEq, Eq, Structural)]
pub enum RawKind {
    Any,
    Access,
    Create,
    Modify(RawModify),
    Remove,
    Other,
}

/// What a notification means for the folder state.
pub enum Intent {
    Create,
    Remove,
    Modify,
    Drop,
}

/// The intent of a raw notification kind: creation or a rename into the
/// tree creates; removal or a rename out of the tree removes; any other
/// modification modifies; everything else is dropped.
pub open spec fn intent_of(kind: RawKind) -> Intent {
    match kind {
        RawKind::Create => Intent::Create,
        RawKind::Modify(RawModify::Name(RawRename::To)) => Intent::Create,
        RawKind::Remove => Intent::Remove,
        RawKind::Modify(RawModify::Name(RawRename::From)) => Intent::Remove,
        RawKind::Modify(_) => Intent::Modify,
        _ => Intent::Drop,
    }
}

/// The events that a notification of `kind` about `paths` yields: one
/// `Created` or `Removed` per path, in order, a single `Modified`, or none.
pub open spec fn classified(kind: RawKind, paths: Seq<Seq<char>>) -> Seq<EventView> {
    match intent_of(kind) {
        Intent::Create => paths.map_values(|p: Seq<char>| EventView::Created(p)),
        Intent::Remove => paths.map_values(|p: Seq<char>| EventView::Removed(p)),
        Intent::Modify => seq![EventView::Modified],
        Intent::Drop => Seq::empty(),
    }
}

/// The views of a sequence of strings.
pub open spec fn string_views(v: Seq<String>) -> Seq<Seq<char>> {
    v.map_values(|s: String| s@)
}

/// The views of a sequence of events.
pub open spec fn event_views(v: Seq<WatchEvent>) -> Seq<EventView> {
    v.map_values(|e: WatchEvent| e@)
}

/// Wraps each path in an event: `Created` when `create`, else `Removed`.
fn events_for_paths(paths: Vec<String>, create: bool) -> (r: Vec<WatchEvent>)
    ensures
        create ==> event_views(r@) == string_views(paths@).map_values(|p: Seq<char>| EventView::Created(p)),
        !create ==> event_views(r@) == string_views(paths@).map_values(|p: Seq<char>| EventView::Removed(p)),
{
    let ghost ps = paths@;
    let ghost target = if create {
        string_views(ps).map_values(|p: Seq<char>| EventView::Created(p))
    } else {
        string_views(ps).map_values(|p: Seq<char>| EventView::Removed(p))
    };
    let mut rest = paths;
    let mut out: Vec<WatchEvent> = Vec::new();
    while rest.len() > 0
        invariant
            ps.len() == out@.len() + rest@.len(),
            rest@ == ps.skip(out@.len() as int),
            target.len() == ps.len(),
            forall|j: int| 0 <= j < ps.len() ==> #[trigger] target[j] == (if create {
                EventView::Created(ps[j]@)
            } else {
                EventView::Removed(ps[j]@)
            }),
            forall|j: int| 0 <= j < out@.len() ==> #[trigger] out@[j]@ == target[j],
        decreases rest@.len(),
    {
        let ghost k = out@.len() as int;
        let p = rest.remove(0);
        assert(p == ps[k]);
        let e = if create {
            WatchEvent::Created(p)
        } else {
            WatchEvent::Removed(p)
        };
        out.push(e);
        assert(rest@ =~= ps.skip(k + 1));
    }
    assert(event_views(out@) =~= target);
    out
}

/// Classifies a raw notification of `kind` about `paths` into watch events.
pub fn classify(kind: RawKind, paths: Vec<String>) -> (r: Vec<WatchEvent>)
    ensures
        event_views(r@) == classified(kind, string_views(paths@)),
{
    match kind {
        RawKind::Create | RawKind::Modify(RawModify::Name(RawRename::To)) => events_for_paths(paths, true),
        RawKind::Remove | RawKind::Modify(RawModify::Name(RawRename::From)) => events_for_paths(paths, false),
        RawKind::Modify(_) => {
            let mut r: Vec<WatchEvent> = Vec::new();
            r.push(WatchEvent::Modified);
            assert(event_views(r@) =~= seq![EventView::Modified]);
            r
        },
        _ => {
            let r: Vec<WatchEvent> = Vec::new();
            assert(event_views(r@) =~= Seq::<EventView>::empty());
            r
        },
    }
}

} // verus!
