use vstd::prelude::*;

use crate::errors::HandlerFault;
use crate::events::DiscoveryEvent;
use crate::queue::EventQueue;
use crate::relay::accepted_count;

verus! {

/// The application-supplied sink for discovery events. An implementation
/// records every call, in order, whether or not it also fails on it: a
/// fault is local to one event and does not undo its delivery.
pub trait EventHandler {
    /// The events this handler has been invoked with, oldest first.
    spec fn calls(&self) -> Seq<DiscoveryEvent>;

    /// Handles one event. May fail; the call is recorded either way.
    fn handle(&mut self, event: &DiscoveryEvent) -> (r: Result<(), HandlerFault>)
        ensures
            final(self).calls() == old(self).calls().push(*event),
    ;
}

/// A handler that stores every event it is given and never fails.
pub struct RecordingHandler {
    seen: Vec<DiscoveryEvent>,
}

impl RecordingHandler {
    /// Creates a handler that has seen nothing yet.
    pub fn new() -> (h: RecordingHandler)
        ensures
            h.calls() == Seq::<DiscoveryEvent>::empty(),
    {
        RecordingHandler { seen: Vec::new() }
    }

    /// The events handled so far, oldest first.
    pub fn seen(&self) -> (v: &Vec<DiscoveryEvent>)
        ensures
            v@ == self.calls(),
    {
        &self.seen
    }
}

impl EventHandler for RecordingHandler {
    closed spec fn calls(&self) -> Seq<DiscoveryEvent> {
        self.seen@
    }

    fn handle(&mut self, event: &DiscoveryEvent) -> (r: Result<(), HandlerFault>) {
        self.seen.push(*event);
        Ok(())
    }
}

/// A handler that records every event but fails on one configured call
/// index; it shows that one failing call does not stop later deliveries.
pub struct FlakyHandler {
    seen: Vec<DiscoveryEvent>,
    fail_index: usize,
}

impl FlakyHandler {
    /// Creates a handler that will fail on call number `fail_index`
    /// (counting from zero) and succeed on every other.
    pub fn new(fail_index: usize) -> (h: FlakyHandler)
        ensures
            h.calls() == Seq::<DiscoveryEvent>::empty(),
    {
        FlakyHandler { seen: Vec::new(), fail_index }
    }

    /// The events handled so far, oldest first.
    pub fn seen(&self) -> (v: &Vec<DiscoveryEvent>)
        ensures
            v@ == self.calls(),
    {
        &self.seen
    }
}

impl EventHandler for FlakyHandler {
    closed spec fn calls(&self) -> Seq<DiscoveryEvent> {
        self.seen@
    }

    fn handle(&mut self, event: &DiscoveryEvent) -> (r: Result<(), HandlerFault>) {
        let index = self.seen.len();
        self.seen.push(*event);
        if index == self.fail_index {
            Err(HandlerFault)
        } else {
            Ok(())
        }
    }
}

/// One full pass of the consumer loop: drains the queue to empty, invoking
/// the handler once per event in queue order. A handler fault never stops
/// the pass — the next event is still delivered — it is only counted.
/// Returns `(delivered, faults)`.
pub fn drain_all<H: EventHandler>(queue: &mut EventQueue, handler: &mut H) -> (r: (usize, usize))
    requires
        old(queue).wf(),
    ensures
        final(queue).wf(),
        final(queue)@.len() == 0,
        final(queue).capacity_spec() == old(queue).capacity_spec(),
        final(handler).calls() == old(handler).calls() + old(queue)@,
        r.0 as nat == old(queue)@.len(),
        r.1 <= r.0,
{
    let mut delivered: usize = 0;
    let mut faults: usize = 0;
    while queue.len() > 0
        invariant
            old(queue).wf(),
            queue.wf(),
            queue.capacity_spec() == old(queue).capacity_spec(),
            delivered as nat <= old(queue)@.len(),
            queue@ == old(queue)@.skip(delivered as int),
            handler.calls() == old(handler).calls() + old(queue)@.take(delivered as int),
            faults <= delivered,
        decreases queue@.len(),
    {
        let next = queue.dequeue();
        match next {
            Some(event) => {
                proof {
                    assert(old(queue)@.skip(delivered as int).len() == old(queue)@.len()
                        - delivered);
                    assert(delivered < old(queue)@.len());
                    assert(old(queue)@.len() <= old(queue).capacity_spec());
                    assert(old(queue)@.skip(delivered as int).drop_first() =~= old(
                        queue,
                    )@.skip(delivered + 1));
                    assert(old(queue)@.take(delivered + 1) =~= old(queue)@.take(
                        delivered as int,
                    ).push(old(queue)@[delivered as int]));
                }
                let outcome = handler.handle(&event);
                proof {
                    assert(old(handler).calls() + old(queue)@.take(delivered + 1) =~= (old(
                        handler,
                    ).calls() + old(queue)@.take(delivered as int)).push(event));
                }
                match outcome {
                    Ok(_) => {},
                    Err(_) => {
                        faults = faults + 1;
                    },
                }
                delivered = delivered + 1;
            },
            None => {},
        }
    }
    proof {
        assert(delivered as nat == old(queue)@.len());
        assert(old(handler).calls() + old(queue)@.take(delivered as int) =~= old(handler).calls()
            + old(queue)@);
    }
    (delivered, faults)
}

/// Law (exact in-order delivery): a burst that fits an otherwise empty
/// queue is relayed whole, and a full drain then invokes the handler exactly
/// once per injected event, in the injected order.
pub proof fn lemma_in_order_exact_delivery(
    cap: nat,
    events: Seq<DiscoveryEvent>,
    prior_calls: Seq<DiscoveryEvent>,
)
    requires
        cap >= 1,
        events.len() <= cap,
    ensures
        accepted_count(cap, 0, events.len()) == events.len(),
        prior_calls + (Seq::<DiscoveryEvent>::empty() + events.take(events.len() as int))
            == prior_calls + events,
        (prior_calls + events).len() == prior_calls.len() + events.len(),
        forall|i: int| 0 <= i < events.len() ==> (prior_calls + events)[prior_calls.len() + i]
            == events[i],
{
    assert(prior_calls + (Seq::<DiscoveryEvent>::empty() + events.take(events.len() as int)) =~=
        prior_calls + events);
}

/// Law (fault isolation): after a full drain the handler's call sequence
/// holds every queued event in order, and the drain contract makes no
/// reference to what each call returned — so a fault on event `k` cannot
/// remove event `k + 1` from delivery.
pub proof fn lemma_fault_does_not_stop_delivery(
    prior_calls: Seq<DiscoveryEvent>,
    queued: Seq<DiscoveryEvent>,
    k: int,
)
    requires
        0 <= k,
        k + 1 < queued.len(),
    ensures
        (prior_calls + queued)[prior_calls.len() + k] == queued[k],
        (prior_calls + queued)[prior_calls.len() + k + 1] == queued[k + 1],
{
}

} // verus!
