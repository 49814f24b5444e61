use typed_bus::bus::{MessageBus, Recv, SubscriptionHandle};
use typed_bus::message::{Message, OrderSide};

#[derive(Clone, Debug, PartialEq)]
struct Tick(u64);

impl Message for Tick {}

const T: u64 = 1;
const U: u64 = 2;
const V: u64 = 3;

fn expect_value(r: Recv<Tick>) -> u64 {
    match r {
        Recv::Value(t) => t.0,
        Recv::Lagged(n) => panic!("expected a value, got Lagged({})", n),
        Recv::Empty => panic!("expected a value, got Empty"),
        Recv::Closed => panic!("expected a value, got Closed"),
    }
}

fn expect_lagged(r: Recv<Tick>) -> usize {
    match r {
        Recv::Lagged(n) => n,
        _ => panic!("expected a lag report"),
    }
}

#[test]
fn no_eager_allocation() {
    let mut bus: MessageBus<Tick> = MessageBus::new(8);
    assert!(!bus.has_channel(T));
    assert!(!bus.has_channel(U));
    // Publishing does not allocate a channel either.
    bus.publish(T, Tick(1));
    assert!(!bus.has_channel(T));
    // Subscribing allocates a channel for its own type only.
    let _h = bus.subscribe(T);
    assert!(bus.has_channel(T));
    assert!(!bus.has_channel(U));
}

#[test]
fn publish_without_subscribers_delivers_zero() {
    let mut bus: MessageBus<Tick> = MessageBus::new(8);
    let delivered = bus.publish(U, Tick(42));
    assert_eq!(delivered, 0);
    assert!(!bus.has_channel(U));
}

#[test]
fn publish_after_last_unsubscribe_delivers_zero() {
    let mut bus: MessageBus<Tick> = MessageBus::new(8);
    let h = bus.subscribe(T);
    bus.unsubscribe(h);
    assert_eq!(bus.subscriber_count(T), 0);
    // The channel survives its last subscriber and keeps accepting publishes.
    assert!(bus.has_channel(T));
    let delivered = bus.publish(T, Tick(5));
    assert_eq!(delivered, 0);
    assert_eq!(bus.published_count(T), 1);
}

#[test]
fn delivered_count_matches_live_handles() {
    let mut bus: MessageBus<Tick> = MessageBus::new(8);
    let h1 = bus.subscribe(T);
    let _h2 = bus.subscribe(T);
    let _h3 = bus.subscribe(T);
    assert_eq!(bus.subscriber_count(T), 3);
    assert_eq!(bus.publish(T, Tick(1)), 3);
    bus.unsubscribe(h1);
    assert_eq!(bus.publish(T, Tick(2)), 2);
}

#[test]
fn two_subscribers_receive_independently_in_order() {
    let mut bus: MessageBus<Tick> = MessageBus::new(8);
    let mut s1 = bus.subscribe(V);
    let mut s2 = bus.subscribe(V);
    bus.publish(V, Tick(10));
    bus.publish(V, Tick(20));
    assert_eq!(expect_value(bus.recv(&mut s1)), 10);
    assert_eq!(expect_value(bus.recv(&mut s1)), 20);
    assert!(matches!(bus.recv(&mut s1), Recv::Empty));
    assert_eq!(expect_value(bus.recv(&mut s2)), 10);
    assert_eq!(expect_value(bus.recv(&mut s2)), 20);
    assert!(matches!(bus.recv(&mut s2), Recv::Empty));
}

#[test]
fn slow_subscriber_lags_then_resumes() {
    // Capacity 4; publish 1..=6; a subscriber that starts receiving only
    // afterwards is lagged by 2 and then gets 3, 4, 5, 6 in order.
    let mut bus: MessageBus<Tick> = MessageBus::new(4);
    let mut h = bus.subscribe(T);
    for i in 1..=6u64 {
        bus.publish(T, Tick(i));
    }
    assert_eq!(expect_lagged(bus.recv(&mut h)), 2);
    assert_eq!(expect_value(bus.recv(&mut h)), 3);
    assert_eq!(expect_value(bus.recv(&mut h)), 4);
    assert_eq!(expect_value(bus.recv(&mut h)), 5);
    assert_eq!(expect_value(bus.recv(&mut h)), 6);
    assert!(matches!(bus.recv(&mut h), Recv::Empty));
}

#[test]
fn filling_exactly_to_capacity_does_not_lag() {
    let mut bus: MessageBus<Tick> = MessageBus::new(4);
    let mut h = bus.subscribe(T);
    for i in 1..=4u64 {
        bus.publish(T, Tick(i));
    }
    for i in 1..=4u64 {
        assert_eq!(expect_value(bus.recv(&mut h)), i);
    }
    assert!(matches!(bus.recv(&mut h), Recv::Empty));
}

#[test]
fn one_past_capacity_lags_by_one() {
    let mut bus: MessageBus<Tick> = MessageBus::new(4);
    let mut h = bus.subscribe(T);
    for i in 1..=5u64 {
        bus.publish(T, Tick(i));
    }
    assert_eq!(expect_lagged(bus.recv(&mut h)), 1);
    assert_eq!(expect_value(bus.recv(&mut h)), 2);
}

#[test]
fn closed_is_reported_instead_of_lag_and_is_terminal() {
    let mut bus: MessageBus<Tick> = MessageBus::new(2);
    let mut h = bus.subscribe(T);
    // Fall far behind so that a lag report would otherwise be due.
    for i in 1..=5u64 {
        bus.publish(T, Tick(i));
    }
    bus.close();
    assert!(bus.is_closed());
    assert!(matches!(bus.recv(&mut h), Recv::Closed));
    // Every further receive keeps reporting Closed, never Lagged.
    assert!(matches!(bus.recv(&mut h), Recv::Closed));
    assert!(matches!(bus.recv(&mut h), Recv::Closed));
}

#[test]
fn racing_first_subscriptions_share_one_channel() {
    // The sequential image of N tasks racing to subscribe first: repeated
    // subscription to a never-before-seen type must find or create the same
    // single channel, leaving all handles live against it.
    let mut bus: MessageBus<Tick> = MessageBus::new(8);
    let mut handles: Vec<SubscriptionHandle> = Vec::new();
    for _ in 0..5 {
        handles.push(bus.subscribe(T));
    }
    assert!(bus.has_channel(T));
    assert_eq!(bus.subscriber_count(T), 5);
    assert_eq!(bus.published_count(T), 0);
    assert_eq!(bus.publish(T, Tick(9)), 5);
    for h in handles.iter_mut() {
        assert_eq!(expect_value(bus.recv(h)), 9);
    }
}

#[test]
fn late_subscriber_sees_only_later_values() {
    let mut bus: MessageBus<Tick> = MessageBus::new(8);
    let mut early = bus.subscribe(T);
    bus.publish(T, Tick(1));
    let mut late = bus.subscribe(T);
    bus.publish(T, Tick(2));
    assert_eq!(expect_value(bus.recv(&mut early)), 1);
    assert_eq!(expect_value(bus.recv(&mut early)), 2);
    assert_eq!(expect_value(bus.recv(&mut late)), 2);
    assert!(matches!(bus.recv(&mut late), Recv::Empty));
}

#[test]
fn handles_report_their_key() {
    let mut bus: MessageBus<Tick> = MessageBus::new(8);
    let h = bus.subscribe(V);
    assert_eq!(h.key(), V);
    bus.unsubscribe(h);
}

#[test]
fn capacity_is_shared_and_fixed() {
    let bus: MessageBus<Tick> = MessageBus::new(17);
    assert_eq!(bus.capacity(), 17);
    assert!(!bus.is_closed());
}

#[test]
fn order_sides_travel_through_the_bus() {
    let mut bus: MessageBus<OrderSide> = MessageBus::new(4);
    let mut h = bus.subscribe(U);
    bus.publish(U, OrderSide::Buy);
    bus.publish(U, OrderSide::Sell);
    assert!(matches!(bus.recv(&mut h), Recv::Value(OrderSide::Buy)));
    assert!(matches!(bus.recv(&mut h), Recv::Value(OrderSide::Sell)));
    assert_eq!(bus.published_count(U), 2);
}
