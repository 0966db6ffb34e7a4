//! The typed event bus of the window-manager layer.
//!
//! Components subscribe to an event kind and get back a handle; emitting
//! an event yields the ordered handles of its subscribers, which the
//! unverified widget layer uses to run the matching callbacks.  Keeping
//! only handles here makes every registry operation a plain data-structure
//! update with an exact contract.

use vstd::prelude::*;

verus! {

/// A subscription handle, usable for explicit removal.
pub type EventId = u64;

/// The event kinds the bar reacts to.
#[derive(Debug, Clone, Copy, PartialEq, Eq, Structural)]
pub enum Event {
    /// The window manager entered a binding mode.
    Mode,
    /// The focused window (or its title) changed.
    Window,
    /// The workspace list changed.
    Workspace,
}

/// A payload delivered with an event.
#[derive(Debug, Clone, PartialEq)]
pub enum EventValue {
    /// A textual payload, such as a window title or a mode name.
    Text(String),
    /// A workspace listing.
    Workspaces(Vec<crate::workspace::Workspace>),
}

/// One subscription: an event kind and the handle given out for it.
#[derive(Debug, Clone, Copy, PartialEq, Eq, Structural)]
pub struct ListenerEntry {
    /// The event kind subscribed to.
    pub event: Event,
    /// The handle returned to the subscriber.
    pub id: EventId,
}

/// The ordered handles subscribed to `event`.
pub open spec fn ids_for(subs: Seq<ListenerEntry>, event: Event) -> Seq<EventId>
    decreases subs.len(),
{
    if subs.len() == 0 {
        Seq::<EventId>::empty()
    } else {
        ids_for(subs.drop_last(), event) + if subs.last().event == event {
            seq![subs.last().id]
        } else {
            Seq::<EventId>::empty()
        }
    }
}

/// The registry: a mapping from event kind to the ordered subscriber
/// handles, with a counter for fresh handles.
#[derive(Debug)]
pub struct EventEmitter {
    /// The next handle to give out.
    pub next_id: EventId,
    /// All live subscriptions, oldest first.
    pub subs: Vec<ListenerEntry>,
}

impl EventEmitter {
    /// An empty registry.
    pub fn new() -> (r: EventEmitter)
        ensures
            r.next_id == 0,
            r.subs@ == Seq::<ListenerEntry>::empty(),
    {
        let r = EventEmitter { next_id: 0, subs: Vec::new() };
        proof {
            assert(r.subs@ =~= Seq::<ListenerEntry>::empty());
        }
        r
    }

    /// Subscribe to `event`; the returned handle is fresh and can later
    /// be passed to `remove_listener`.
    pub fn add_listener(&mut self, event: Event) -> (id: EventId)
        requires
            old(self).next_id < EventId::MAX,
        ensures
            id == old(self).next_id,
            final(self).next_id == old(self).next_id + 1,
            final(self).subs@ == old(self).subs@.push(ListenerEntry { event, id }),
    {
        let id = self.next_id;
        self.next_id = self.next_id + 1;
        self.subs.push(ListenerEntry { event, id });
        id
    }

    /// Drop the subscription with the given handle to `event`; every
    /// other subscription is kept, in order.
    pub fn remove_listener(&mut self, event: Event, id: EventId)
        ensures
            final(self).next_id == old(self).next_id,
            final(self).subs@ == old(self).subs@.filter(
                |e: ListenerEntry| !(e.event == event && e.id == id),
            ),
    {
        let ghost pred = |e: ListenerEntry| !(e.event == event && e.id == id);
        let mut kept: Vec<ListenerEntry> = Vec::new();
        let mut i: usize = 0;
        proof {
            reveal(Seq::filter);
            assert(old(self).subs@.take(0) =~= Seq::<ListenerEntry>::empty());
            assert(kept@ =~= old(self).subs@.take(0).filter(pred));
        }
        while i < self.subs.len()
            invariant
                i <= self.subs.len(),
                self.subs@ == old(self).subs@,
                self.next_id == old(self).next_id,
                kept@ == self.subs@.take(i as int).filter(pred),
            decreases self.subs.len() - i,
        {
            let e = self.subs[i];
            proof {
                assert(self.subs@.take(i + 1).drop_last() =~= self.subs@.take(i as int));
                assert(self.subs@.take(i + 1).last() == e);
            }
            if !(e.event == event && e.id == id) {
                kept.push(e);
            }
            proof {
                reveal(Seq::filter);
                assert(kept@ =~= self.subs@.take(i + 1).filter(pred));
            }
            i = i + 1;
        }
        proof {
            assert(self.subs@.take(self.subs@.len() as int) =~= self.subs@);
        }
        self.subs = kept;
    }

    /// The ordered handles subscribed to `event`, for the caller to
    /// notify.
    pub fn emit(&self, event: Event) -> (ids: Vec<EventId>)
        ensures
            ids@ == ids_for(self.subs@, event),
    {
        let mut ids: Vec<EventId> = Vec::new();
        let mut i: usize = 0;
        proof {
            assert(self.subs@.take(0) =~= Seq::<ListenerEntry>::empty());
            assert(ids@ =~= ids_for(self.subs@.take(0), event));
        }
        while i < self.subs.len()
            invariant
                i <= self.subs.len(),
                ids@ == ids_for(self.subs@.take(i as int), event),
            decreases self.subs.len() - i,
        {
            let e = self.subs[i];
            proof {
                assert(self.subs@.take(i + 1).drop_last() =~= self.subs@.take(i as int));
                assert(self.subs@.take(i + 1).last() == e);
            }
            if e.event == event {
                ids.push(e.id);
            }
            proof {
                assert(ids@ =~= ids_for(self.subs@.take(i + 1), event));
            }
            i = i + 1;
        }
        proof {
            assert(self.subs@.take(self.subs@.len() as int) =~= self.subs@);
        }
        ids
    }
}

} // verus!
