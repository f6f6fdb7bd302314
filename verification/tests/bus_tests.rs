use plugin_stream::bus::{EventBus, PublishOutcome, RecvOutcome, DEFAULT_EVENT_BUFFER};
use plugin_stream::plugin::{MutationKind, PluginUpdate};

fn create_event(id: i32) -> PluginUpdate {
    PluginUpdate { mutation_kind: MutationKind::Create, id }
}

#[test]
fn publish_with_no_subscribers_reports_nobody_listening() {
    let mut bus = EventBus::new(DEFAULT_EVENT_BUFFER);
    // Nobody listening is not an error: the outcome just names it.
    assert_eq!(bus.publish(create_event(1)), PublishOutcome::NoSubscribers);
}

#[test]
fn publish_reaches_every_current_subscriber_exactly_once() {
    let mut bus = EventBus::new(DEFAULT_EVENT_BUFFER);
    let a = bus.subscribe();
    let b = bus.subscribe();
    assert_eq!(bus.publish(create_event(1)), PublishOutcome::Delivered(2));
    assert_eq!(bus.try_recv(a), RecvOutcome::Event(create_event(1)));
    assert_eq!(bus.try_recv(a), RecvOutcome::Empty);
    assert_eq!(bus.try_recv(b), RecvOutcome::Event(create_event(1)));
    assert_eq!(bus.try_recv(b), RecvOutcome::Empty);
}

#[test]
fn late_subscribers_get_no_backlog() {
    let mut bus = EventBus::new(DEFAULT_EVENT_BUFFER);
    let early = bus.subscribe();
    bus.publish(create_event(1));
    let late = bus.subscribe();
    assert_eq!(bus.try_recv(late), RecvOutcome::Empty);
    assert_eq!(bus.try_recv(early), RecvOutcome::Event(create_event(1)));
}

#[test]
fn events_arrive_in_publish_order() {
    let mut bus = EventBus::new(DEFAULT_EVENT_BUFFER);
    let sub = bus.subscribe();
    bus.publish(create_event(1));
    bus.publish(PluginUpdate { mutation_kind: MutationKind::Delete, id: 1 });
    bus.publish(create_event(2));
    assert_eq!(bus.try_recv(sub), RecvOutcome::Event(create_event(1)));
    assert_eq!(
        bus.try_recv(sub),
        RecvOutcome::Event(PluginUpdate { mutation_kind: MutationKind::Delete, id: 1 })
    );
    assert_eq!(bus.try_recv(sub), RecvOutcome::Event(create_event(2)));
    assert_eq!(bus.try_recv(sub), RecvOutcome::Empty);
}

#[test]
fn overflowing_a_subscriber_drops_oldest_and_reports_lag() {
    let mut bus = EventBus::new(2);
    let sub = bus.subscribe();
    bus.publish(create_event(1));
    bus.publish(create_event(2));
    // The buffer holds two; the third publish drops the oldest unread event
    // rather than blocking the publisher.
    assert_eq!(bus.publish(create_event(3)), PublishOutcome::Delivered(1));
    // The subscriber is told it lagged instead of being handed a gapped
    // sequence.
    assert_eq!(bus.try_recv(sub), RecvOutcome::Lagged);
}

#[test]
fn lag_on_one_subscriber_leaves_others_untouched() {
    let mut bus = EventBus::new(1);
    let slow = bus.subscribe();
    let fast = bus.subscribe();
    bus.publish(create_event(1));
    assert_eq!(bus.try_recv(fast), RecvOutcome::Event(create_event(1)));
    bus.publish(create_event(2));
    assert_eq!(bus.try_recv(slow), RecvOutcome::Lagged);
    assert_eq!(bus.try_recv(fast), RecvOutcome::Event(create_event(2)));
    assert_eq!(bus.try_recv(fast), RecvOutcome::Empty);
}

#[test]
fn unsubscribing_stops_delivery() {
    let mut bus = EventBus::new(DEFAULT_EVENT_BUFFER);
    let a = bus.subscribe();
    let b = bus.subscribe();
    bus.unsubscribe(a);
    assert_eq!(bus.publish(create_event(1)), PublishOutcome::Delivered(1));
    assert_eq!(bus.try_recv(b), RecvOutcome::Event(create_event(1)));
}
