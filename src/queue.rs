//! A bounded first-in first-out queue of watch events with an explicit policy
//! for what happens when it is full, and a count of the events it dropped.
use vstd::prelude::*;
use crate::watch::{event_views, EventView, WatchEvent};

verus! {

/// What a full queue does with one more event.
#[derive(Clone, Copy, Debug, PartialEq, Eq, Structural)]
pub enum OverflowPolicy {
    /// Refuse the event and hand it back; the producer waits and offers it again.
    Block,
    /// Drop the oldest queued event to make room.
    DropOldest,
    /// Drop the offered event.
    DropNewest,
}

/// What became of an offered event.
#[derive(Debug)]
pub enum Offer {
    /// The event was queued.
    Queued,
    /// The queue was full and refused the event, which is handed back.
    Refused(WatchEvent),
    /// The event was queued and the oldest event was dropped; it is handed back.
    Displaced(WatchEvent),
    /// The queue was full and the offered event was dropped.
    Discarded,
}

/// The mathematical content of an [`EventQueue`].
pub struct QueueView {
    pub events: Seq<EventView>,
    pub capacity: nat,
    pub policy: OverflowPolicy,
    pub dropped: nat,
}

/// A bounded queue of watch events.
pub struct EventQueue {
    events: Vec<WatchEvent>,
    capacity: usize,
    policy: OverflowPolicy,
    dropped: u64,
}

impl View for EventQueue {
    type V = QueueView;

    closed spec fn view(&self) -> QueueView {
        QueueView {
            events: event_views(self.events@),
            capacity: self.capacity as nat,
            policy: self.policy,
            dropped: self.dropped as nat,
        }
    }
}

/// The drop count after one more drop, held at the largest `u64`.
pub open spec fn bumped(dropped: nat) -> nat {
    if dropped < u64::MAX {
        dropped + 1
    } else {
        dropped
    }
}

impl EventQueue {
    /// The queue holds at most `capacity` events and `capacity` is positive.
    pub closed spec fn wf(&self) -> bool {
        0 < self.capacity && self.events@.len() <= self.capacity
    }


    /// An empty queue with room for `capacity` events.
    pub fn new(capacity: usize, policy: OverflowPolicy) -> (r: EventQueue)
        requires
            capacity > 0,
        ensures
            r.wf(),
            r@.events == Seq::<EventView>::empty(),
            r@.capacity == capacity,
            r@.policy == policy,
            r@.dropped == 0,
    {
        let r = EventQueue { events: Vec::new(), capacity, policy, dropped: 0 };
        assert(r@.events =~= Seq::<EventView>::empty());
        r
    }

    /// Number of queued events.
    pub fn len(&self) -> (r: usize)
        requires
            self.wf(),
        ensures
            r == self@.events.len(),
    {
        self.events.len()
    }

    /// The queue holds as many events as it has room for.
    pub fn is_full(&self) -> (r: bool)
        requires
            self.wf(),
        ensures
            r == (self@.events.len() == self@.capacity),
    {
        self.events.len() == self.capacity
    }

    /// How many events the queue has dropped, held at the largest `u64`.
    pub fn dropped(&self) -> (r: u64)
        ensures
            r == self@.dropped,
    {
        self.dropped
    }

    fn note_drop(&mut self)
        ensures
            final(self).events == old(self).events,
            final(self).capacity == old(self).capacity,
            final(self).policy == old(self).policy,
            final(self).dropped as nat == bumped(old(self).dropped as nat),
    {
        if self.dropped < u64::MAX {
            self.dropped = self.dropped + 1;
        }
    }

    /// Offers an event. With room it is queued at the back. A full queue
    /// follows its policy: it refuses the event, drops its oldest event, or
    /// drops the offered one; each drop is counted.
    pub fn offer(&mut self, event: WatchEvent) -> (r: Offer)
        requires
            old(self).wf(),
        ensures
            final(self).wf(),
            final(self)@.capacity == old(self)@.capacity,
            final(self)@.policy == old(self)@.policy,
            old(self)@.events.len() < old(self)@.capacity ==> {
                &&& r is Queued
                &&& final(self)@.events == old(self)@.events.push(event@)
                &&& final(self)@.dropped == old(self)@.dropped
            },
            old(self)@.events.len() == old(self)@.capacity && old(self)@.policy == OverflowPolicy::Block ==> {
                &&& r matches Offer::Refused(e) && e == event
                &&& final(self)@ == old(self)@
            },
            old(self)@.events.len() == old(self)@.capacity && old(self)@.policy == OverflowPolicy::DropOldest ==> {
                &&& r matches Offer::Displaced(e) && e@ == old(self)@.events[0]
                &&& final(self)@.events == old(self)@.events.drop_first().push(event@)
                &&& final(self)@.dropped == bumped(old(self)@.dropped)
            },
            old(self)@.events.len() == old(self)@.capacity && old(self)@.policy == OverflowPolicy::DropNewest ==> {
                &&& r is Discarded
                &&& final(self)@.events == old(self)@.events
                &&& final(self)@.dropped == bumped(old(self)@.dropped)
            },
    {
        let ghost before = self.events@;
        if self.events.len() < self.capacity {
            self.events.push(event);
            assert(event_views(self.events@) =~= event_views(before).push(event@));
            return Offer::Queued;
        }
        match self.policy {
            OverflowPolicy::Block => Offer::Refused(event),
            OverflowPolicy::DropOldest => {
                let oldest = self.events.remove(0);
                self.events.push(event);
                self.note_drop();
                assert(event_views(self.events@) =~= event_views(before).drop_first().push(event@));
                Offer::Displaced(oldest)
            },
            OverflowPolicy::DropNewest => {
                self.note_drop();
                Offer::Discarded
            },
        }
    }

    /// Takes the oldest event, if any.
    pub fn take(&mut self) -> (r: Option<WatchEvent>)
        requires
            old(self).wf(),
        ensures
            final(self).wf(),
            final(self)@.capacity == old(self)@.capacity,
            final(self)@.policy == old(self)@.policy,
            final(self)@.dropped == old(self)@.dropped,
            old(self)@.events.len() == 0 ==> r is None && final(self)@.events == old(self)@.events,
            old(self)@.events.len() > 0 ==> {
                &&& r matches Some(e) && e@ == old(self)@.events[0]
                &&& final(self)@.events == old(self)@.events.drop_first()
            },
    {
        if self.events.len() == 0 {
            return None;
        }
        let ghost before = self.events@;
        let e = self.events.remove(0);
        assert(event_views(self.events@) =~= event_views(before).drop_first());
        Some(e)
    }
}

} // verus!
