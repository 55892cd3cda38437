use vstd::prelude::*;

use crate::errors::EventDeliveryLost;
use crate::events::DiscoveryEvent;

verus! {

/// The ordered, bounded queue between the event relay (writer) and the
/// consumer loop (reader). Events come out in exactly the order they went
/// in; nothing is merged, deduplicated or reordered. When the queue is full
/// the writer is told so instead of an event being silently dropped.
pub struct EventQueue {
    items: Vec<DiscoveryEvent>,
    cap: usize,
}

impl View for EventQueue {
    type V = Seq<DiscoveryEvent>;

    closed spec fn view(&self) -> Seq<DiscoveryEvent> {
        self.items@
    }
}

impl EventQueue {
    /// The fixed bound the queue was created with.
    pub closed spec fn capacity_spec(&self) -> nat {
        self.cap as nat
    }

    /// The queue never holds more than its capacity, and the capacity is at
    /// least one and fits in a machine word.
    pub open spec fn wf(&self) -> bool {
        self@.len() <= self.capacity_spec() && 1 <= self.capacity_spec() <= usize::MAX
    }

    /// Creates an empty queue with the given bound. A bound of zero could
    /// never accept an event, so it is excluded.
    pub fn new(capacity: usize) -> (q: EventQueue)
        requires
            capacity >= 1,
        ensures
            q.wf(),
            q@ == Seq::<DiscoveryEvent>::empty(),
            q.capacity_spec() == capacity as nat,
    {
        EventQueue { items: Vec::new(), cap: capacity }
    }

    /// Returns the fixed bound.
    pub fn capacity(&self) -> (c: usize)
        ensures
            c as nat == self.capacity_spec(),
    {
        self.cap
    }

    /// Returns how many events are waiting.
    pub fn len(&self) -> (n: usize)
        ensures
            n as nat == self@.len(),
    {
        self.items.len()
    }

    /// Returns whether no event is waiting.
    pub fn is_empty(&self) -> (b: bool)
        ensures
            b == (self@.len() == 0),
    {
        self.items.len() == 0
    }

    /// Returns whether the queue is at its bound.
    pub fn is_full(&self) -> (b: bool)
        ensures
            b == (self@.len() == self.capacity_spec()),
    {
        self.items.len() == self.cap
    }

    /// Appends one event, or signals backpressure. Never blocks: a full
    /// queue answers `EventDeliveryLost` at once and keeps its contents
    /// unchanged, so the platform callback thread returns promptly.
    pub fn enqueue(&mut self, event: DiscoveryEvent) -> (r: Result<(), EventDeliveryLost>)
        requires
            old(self).wf(),
        ensures
            final(self).wf(),
            final(self).capacity_spec() == old(self).capacity_spec(),
            old(self)@.len() < old(self).capacity_spec() ==> r is Ok && final(self)@ == old(
                self,
            )@.push(event),
            old(self)@.len() == old(self).capacity_spec() ==> r is Err && final(self)@ == old(
                self,
            )@,
    {
        if self.items.len() < self.cap {
            self.items.push(event);
            Ok(())
        } else {
            Err(EventDeliveryLost)
        }
    }

    /// Removes and returns the oldest event, or `None` when the queue is
    /// empty.
    pub fn dequeue(&mut self) -> (r: Option<DiscoveryEvent>)
        requires
            old(self).wf(),
        ensures
            final(self).wf(),
            final(self).capacity_spec() == old(self).capacity_spec(),
            old(self)@.len() > 0 ==> (r matches Some(e) && e == old(self)@[0] && final(self)@
                == old(self)@.drop_first()),
            old(self)@.len() == 0 ==> r is None && final(self)@ == old(self)@,
    {
        if self.items.len() > 0 {
            let e = self.items.remove(0);
            proof {
                assert(self.items@ =~= old(self)@.drop_first());
            }
            Some(e)
        } else {
            None
        }
    }
}

} // verus!
