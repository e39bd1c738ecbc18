//! Machine lifecycle notifications and their bounded queue.
//!
//! The queue is a FIFO with a fixed capacity chosen at construction. A push
//! against a full queue silently drops the event — loss under sustained
//! overflow is an accepted degradation, not a fault — and unread events
//! persist across frames until popped or dropped.

use crate::pool::Handle;
use vstd::prelude::*;

verus! {

/// A machine lifecycle notification.
#[derive(Clone, Copy, Debug, PartialEq, Eq, Structural)]
pub enum Event {
    /// A state is being entered.
    StateEnter(Handle),
    /// A state is being left.
    StateLeave(Handle),
    /// A transition finished and the active state changed.
    ActiveStateChanged(Handle),
}

/// What a bounded push leaves behind: the event appended while there is
/// room, the queue unchanged once it is full.
pub open spec fn pushed(events: Seq<Event>, limit: u32, e: Event) -> Seq<Event> {
    if events.len() < limit {
        events.push(e)
    } else {
        events
    }
}

/// Bounded FIFO of events. Its view is the queued events, oldest first.
pub struct LimitedEventQueue {
    queue: Vec<Event>,
    limit: u32,
}

impl View for LimitedEventQueue {
    type V = Seq<Event>;

    closed spec fn view(&self) -> Seq<Event> {
        self.queue@
    }
}

impl LimitedEventQueue {
    /// The queue's fixed capacity.
    pub closed spec fn spec_limit(&self) -> u32 {
        self.limit
    }

    /// An empty queue that holds at most `limit` events.
    pub fn new(limit: u32) -> (r: LimitedEventQueue)
        ensures
            r@ == Seq::<Event>::empty(),
            r.spec_limit() == limit,
    {
        LimitedEventQueue { queue: Vec::new(), limit }
    }

    pub fn len(&self) -> (n: usize)
        ensures
            n == self@.len(),
    {
        self.queue.len()
    }

    /// The fixed capacity this queue was built with.
    pub fn limit(&self) -> (r: u32)
        ensures
            r == self.spec_limit(),
    {
        self.limit
    }

    /// Appends the event, or silently drops it when the queue is full.
    pub fn push(&mut self, event: Event)
        ensures
            final(self)@ == pushed(old(self)@, old(self).spec_limit(), event),
            final(self).spec_limit() == old(self).spec_limit(),
    {
        if self.queue.len() < self.limit as usize {
            self.queue.push(event);
        }
    }

    /// Removes and returns the oldest event, or `None` on an empty queue.
    pub fn pop(&mut self) -> (r: Option<Event>)
        ensures
            final(self).spec_limit() == old(self).spec_limit(),
            match r {
                Some(e) => old(self)@.len() > 0 && e == old(self)@[0] && final(self)@ == old(
                    self,
                )@.drop_first(),
                None => old(self)@.len() == 0 && final(self)@ == old(self)@,
            },
    {
        if self.queue.len() > 0 {
            let e = self.queue.remove(0);
            proof {
                assert(self.queue@ =~= old(self).queue@.drop_first());
            }
            Some(e)
        } else {
            None
        }
    }
}

impl Default for LimitedEventQueue {
    /// An effectively unbounded queue.
    fn default() -> (r: LimitedEventQueue)
        ensures
            r@ == Seq::<Event>::empty(),
            r.spec_limit() == u32::MAX,
    {
        LimitedEventQueue { queue: Vec::new(), limit: u32::MAX }
    }
}

} // verus!
