use ble_pipeline::consumer::drain_all;
use ble_pipeline::consumer::FlakyHandler;
use ble_pipeline::consumer::RecordingHandler;
use ble_pipeline::events::DeviceAddress;
use ble_pipeline::events::DiscoveryEvent;
use ble_pipeline::queue::EventQueue;
use ble_pipeline::relay::relay_burst;

fn addr(bits: u64) -> DeviceAddress {
    DeviceAddress::new(bits).unwrap()
}

#[test]
fn in_order_delivery_exact_count() {
    let events = vec![
        DiscoveryEvent::Discovered(addr(0x10)),
        DiscoveryEvent::Updated(addr(0x10)),
        DiscoveryEvent::Discovered(addr(0x22)),
        DiscoveryEvent::Lost(addr(0x10)),
        DiscoveryEvent::Updated(addr(0x22)),
    ];
    let mut queue = EventQueue::new(256);
    let accepted = relay_burst(&mut queue, &events);
    assert_eq!(accepted, 5);
    let mut handler = RecordingHandler::new();
    let (delivered, faults) = drain_all(&mut queue, &mut handler);
    assert_eq!(delivered, 5);
    assert_eq!(faults, 0);
    assert_eq!(*handler.seen(), events);
}

#[test]
fn end_to_end_recorded_sequence() {
    let a = addr(0x1);
    let events = vec![
        DiscoveryEvent::Discovered(a),
        DiscoveryEvent::Connected(a),
        DiscoveryEvent::Disconnected(a),
        DiscoveryEvent::Lost(a),
    ];
    let mut queue = EventQueue::new(256);
    let accepted = relay_burst(&mut queue, &events);
    assert_eq!(accepted, 4);
    let mut handler = RecordingHandler::new();
    let (delivered, faults) = drain_all(&mut queue, &mut handler);
    assert_eq!(delivered, 4);
    assert_eq!(faults, 0);
    assert_eq!(
        *handler.seen(),
        vec![
            DiscoveryEvent::Discovered(a),
            DiscoveryEvent::Connected(a),
            DiscoveryEvent::Disconnected(a),
            DiscoveryEvent::Lost(a),
        ]
    );
}

#[test]
fn handler_fault_does_not_stop_delivery() {
    let events = vec![
        DiscoveryEvent::Discovered(addr(0x5)),
        DiscoveryEvent::Connected(addr(0x5)),
        DiscoveryEvent::Disconnected(addr(0x5)),
    ];
    let mut queue = EventQueue::new(8);
    let accepted = relay_burst(&mut queue, &events);
    assert_eq!(accepted, 3);
    // Fails on the second call (index 1); the third event must still arrive.
    let mut handler = FlakyHandler::new(1);
    let (delivered, faults) = drain_all(&mut queue, &mut handler);
    assert_eq!(delivered, 3);
    assert_eq!(faults, 1);
    assert_eq!(*handler.seen(), events);
}

#[test]
fn backpressure_exactly_at_capacity() {
    let events = vec![
        DiscoveryEvent::Discovered(addr(0xa)),
        DiscoveryEvent::Discovered(addr(0xb)),
        DiscoveryEvent::Discovered(addr(0xc)),
        DiscoveryEvent::Discovered(addr(0xd)),
        DiscoveryEvent::Discovered(addr(0xe)),
    ];
    let mut queue = EventQueue::new(4);
    // Paused consumer: nothing dequeues while the burst arrives.
    let accepted = relay_burst(&mut queue, &events);
    assert_eq!(accepted, 4);
    assert_eq!(queue.len(), 4);
    assert!(queue.is_full());
    // The overflowing event is signalled, not silently dropped.
    let overflow = queue.enqueue(DiscoveryEvent::Discovered(addr(0xf)));
    assert!(overflow.is_err());
    assert_eq!(queue.len(), 4);
    // Everything accepted before the queue was full is still there, in order.
    let mut handler = RecordingHandler::new();
    let (delivered, faults) = drain_all(&mut queue, &mut handler);
    assert_eq!(delivered, 4);
    assert_eq!(faults, 0);
    assert_eq!(*handler.seen(), events[..4].to_vec());
}

#[test]
fn queue_preserves_fifo_order() {
    let mut queue = EventQueue::new(2);
    assert!(queue.is_empty());
    assert_eq!(queue.capacity(), 2);
    assert!(queue.enqueue(DiscoveryEvent::Discovered(addr(0x7))).is_ok());
    assert!(queue.enqueue(DiscoveryEvent::Lost(addr(0x8))).is_ok());
    assert_eq!(queue.dequeue(), Some(DiscoveryEvent::Discovered(addr(0x7))));
    assert_eq!(queue.dequeue(), Some(DiscoveryEvent::Lost(addr(0x8))));
    assert_eq!(queue.dequeue(), None);
}

#[test]
fn dequeue_on_empty_queue_is_none() {
    let mut queue = EventQueue::new(1);
    assert_eq!(queue.dequeue(), None);
    assert!(queue.is_empty());
}
