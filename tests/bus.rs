use price_feed::{BoundedQueue, CancelSignal, CancelWaiter, EventBus, Trade};

fn trade(n: u64) -> Trade {
    Trade::new(0x3f80_0000, n, "BBG000B9XRY4".to_string(), 0, n as i64, n as i64 + 5)
}

fn drain(bus: &mut EventBus<Trade>, id: usize) -> Vec<u64> {
    let mut out = Vec::new();
    while let Some(t) = bus.try_recv(id) {
        out.push(t.volume);
    }
    out
}

#[test]
fn subscribers_see_every_event_in_order() {
    let mut bus = EventBus::new(20);
    let a = bus.subscribe();
    let b = bus.subscribe();
    for n in 0..10 {
        bus.publish(&trade(n));
    }
    let expected: Vec<u64> = (0..10).collect();
    assert_eq!(drain(&mut bus, a), expected);
    assert_eq!(drain(&mut bus, b), expected);
}

#[test]
fn delivered_events_are_independent_copies() {
    let mut bus = EventBus::new(4);
    let a = bus.subscribe();
    let b = bus.subscribe();
    bus.publish(&trade(1));
    let mut first = bus.try_recv(a).unwrap();
    first.figi.push_str("-changed");
    let second = bus.try_recv(b).unwrap();
    assert_eq!(second.figi, "BBG000B9XRY4");
    assert_eq!(second.received, 6);
}

#[test]
fn lagging_subscriber_loses_only_oldest() {
    let mut bus = EventBus::new(20);
    let slow = bus.subscribe();
    let fast = bus.subscribe();
    let mut fast_seen = Vec::new();
    for n in 0..25 {
        bus.publish(&trade(n));
        fast_seen.extend(drain(&mut bus, fast));
    }
    assert_eq!(fast_seen, (0..25).collect::<Vec<u64>>());
    assert_eq!(drain(&mut bus, slow), (5..25).collect::<Vec<u64>>());
}

#[test]
fn late_subscriber_sees_only_later_events() {
    let mut bus = EventBus::new(20);
    let early = bus.subscribe();
    bus.publish(&trade(1));
    let late = bus.subscribe();
    bus.publish(&trade(2));
    assert_eq!(drain(&mut bus, early), vec![1, 2]);
    assert_eq!(drain(&mut bus, late), vec![2]);
}

#[test]
fn publish_without_subscribers_is_a_no_op() {
    let mut bus: EventBus<Trade> = EventBus::new(20);
    bus.publish(&trade(1));
    assert_eq!(bus.receiver_count(), 0);
    let id = bus.subscribe();
    assert_eq!(bus.receiver_count(), 1);
    assert!(bus.try_recv(id).is_none());
}

#[test]
fn full_queue_refuses_without_blocking() {
    let mut q = BoundedQueue::new(2);
    assert_eq!(q.try_send(1u32), Ok(()));
    assert_eq!(q.try_send(2u32), Ok(()));
    assert_eq!(q.try_send(3u32), Err(3));
    assert_eq!(q.len(), 2);
    assert_eq!(q.dropped(), 1);
    assert_eq!(q.capacity(), 2);
    assert_eq!(q.recv(), Some(1));
    assert_eq!(q.try_send(4u32), Ok(()));
    assert_eq!(q.recv(), Some(2));
    assert_eq!(q.recv(), Some(4));
    assert_eq!(q.recv(), None);
    assert!(q.is_empty());
}

#[test]
fn queue_never_exceeds_capacity() {
    let mut q = BoundedQueue::new(20);
    let mut refused = 0u64;
    for n in 0..100u64 {
        if q.try_send(n).is_err() {
            refused += 1;
        }
        assert!(q.len() <= 20);
    }
    assert_eq!(q.len(), 20);
    assert_eq!(refused, 80);
    assert_eq!(q.dropped(), 80);
    assert_eq!(q.recv(), Some(0));
}

#[test]
fn cancellation_is_observed_once_per_waiter() {
    let mut sig = CancelSignal::new();
    let mut w1 = CancelWaiter::new();
    let mut w2 = CancelWaiter::new();
    assert!(!w1.poll(&sig));
    sig.cancel();
    sig.cancel();
    assert!(sig.is_cancelled());
    assert!(w1.poll(&sig));
    assert!(!w1.poll(&sig));
    assert!(w2.poll(&sig));
    assert!(!w2.poll(&sig));
}
