use vstd::prelude::*;

use crate::events::DiscoveryEvent;
use crate::queue::EventQueue;

verus! {

/// How many of `offered` events a queue with bound `cap`, already holding
/// `queued` events and with no consumer draining it, will accept before it
/// is full.
pub open spec fn accepted_count(cap: nat, queued: nat, offered: nat) -> nat
    recommends
        queued <= cap,
{
    if queued + offered <= cap {
        offered
    } else {
        (cap - queued) as nat
    }
}

/// The relay's fan-in for a burst of callback events: forwards each event
/// onto the queue in arrival order, stopping as soon as the queue is full.
/// Returns how many were accepted; the remainder were offered to a
/// demonstrably full queue, so none is silently dropped beforehand.
pub fn relay_burst(queue: &mut EventQueue, events: &Vec<DiscoveryEvent>) -> (accepted: usize)
    requires
        old(queue).wf(),
    ensures
        final(queue).wf(),
        final(queue).capacity_spec() == old(queue).capacity_spec(),
        accepted as nat == accepted_count(
            old(queue).capacity_spec(),
            old(queue)@.len(),
            events@.len(),
        ),
        final(queue)@ == old(queue)@ + events@.take(accepted as int),
        accepted < events@.len() ==> final(queue)@.len() == final(queue).capacity_spec(),
{
    let room: usize = queue.capacity() - queue.len();
    let take: usize = if events.len() < room {
        events.len()
    } else {
        room
    };
    let mut i: usize = 0;
    while i < take
        invariant
            i <= take,
            take as nat == accepted_count(
                old(queue).capacity_spec(),
                old(queue)@.len(),
                events@.len(),
            ),
            take <= events@.len(),
            old(queue)@.len() + take <= old(queue).capacity_spec(),
            queue.wf(),
            queue.capacity_spec() == old(queue).capacity_spec(),
            queue@ == old(queue)@ + events@.take(i as int),
        decreases take - i,
    {
        proof {
            assert(queue@.len() == old(queue)@.len() + i);
        }
        let r = queue.enqueue(events[i]);
        proof {
            assert(events@.take(i + 1 as int) =~= events@.take(i as int).push(events@[i as int]));
            assert(old(queue)@ + events@.take(i + 1 as int) =~= (old(queue)@ + events@.take(
                i as int,
            )).push(events@[i as int]));
        }
        i = i + 1;
    }
    take
}

/// Law (backpressure at capacity): a burst one longer than the bound of an
/// empty queue with a paused consumer is accepted exactly up to the bound,
/// keeping the accepted prefix in order; the queue is then demonstrably
/// full, so the overflowing event is signalled rather than silently dropped.
pub proof fn lemma_backpressure_at_capacity(cap: nat, events: Seq<DiscoveryEvent>)
    requires
        cap >= 1,
        events.len() == cap + 1,
    ensures
        accepted_count(cap, 0, events.len()) == cap,
        (Seq::<DiscoveryEvent>::empty() + events.take(cap as int)).len() == cap,
        forall|i: int|
            0 <= i < cap ==> (Seq::<DiscoveryEvent>::empty() + events.take(cap as int))[i]
                == events[i],
{
}

} // verus!
