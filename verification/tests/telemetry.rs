use dashboard_core::stats::{MqttStats, StatField};
use dashboard_core::store::StatsStore;
use dashboard_core::subscriber::{
    apply_publish, decode_payload, field_for_topic, subscription_topics, BrokerEvent, Subscriber,
    SubscriberState,
};

#[test]
fn read_before_any_write_is_all_empty() {
    let store = StatsStore::new();
    let snapshot = store.read();
    assert_eq!(snapshot.uptime, "");
    assert_eq!(snapshot.clients_connected, "");
    assert_eq!(snapshot.messages_sent, "");
    assert_eq!(snapshot.messages_received, "");
}

#[test]
fn write_to_one_field_leaves_the_other_three() {
    let store = StatsStore::new();
    store.write_field(StatField::MessagesSent, "100".to_string());
    store.write_field(StatField::Uptime, "12345 seconds".to_string());
    let snapshot = store.read();
    assert_eq!(snapshot.uptime, "12345 seconds");
    assert_eq!(snapshot.messages_sent, "100");
    assert_eq!(snapshot.clients_connected, "");
    assert_eq!(snapshot.messages_received, "");
}

#[test]
fn last_write_to_a_field_wins() {
    let store = StatsStore::new();
    store.write_field(StatField::ClientsConnected, "3".to_string());
    store.write_field(StatField::ClientsConnected, "4".to_string());
    assert_eq!(store.read().clients_connected, "4");
}

#[test]
fn publish_on_connected_clients_topic_sets_exactly_that_field() {
    let mut stats = MqttStats::default();
    stats.write_field(StatField::Uptime, "99 seconds".to_string());
    apply_publish(
        &mut stats,
        "$SYS/broker/clients/connected",
        b"17".to_vec(),
    );
    assert_eq!(stats.clients_connected, "17");
    assert_eq!(stats.uptime, "99 seconds");
    assert_eq!(stats.messages_sent, "");
    assert_eq!(stats.messages_received, "");
}

#[test]
fn publish_on_unrecognized_topic_changes_nothing() {
    let mut stats = MqttStats::default();
    stats.write_field(StatField::Uptime, "99 seconds".to_string());
    apply_publish(&mut stats, "$SYS/broker/version", b"2.0.18".to_vec());
    assert_eq!(stats.uptime, "99 seconds");
    assert_eq!(stats.clients_connected, "");
    assert_eq!(stats.messages_sent, "");
    assert_eq!(stats.messages_received, "");
}

#[test]
fn invalid_utf8_payload_becomes_sentinel() {
    let mut stats = MqttStats::default();
    stats.write_field(StatField::MessagesReceived, "41".to_string());
    apply_publish(
        &mut stats,
        "$SYS/broker/messages/received",
        vec![0xff, 0xfe, 0x17],
    );
    assert_eq!(stats.messages_received, "N/A");
}

#[test]
fn decode_payload_keeps_valid_utf8_verbatim() {
    assert_eq!(decode_payload(b"17".to_vec()), "17");
    assert_eq!(decode_payload(Vec::new()), "");
    assert_eq!(decode_payload(vec![0xc3, 0x28]), "N/A");
}

#[test]
fn topic_dispatch_is_exact_match() {
    assert_eq!(field_for_topic("$SYS/broker/uptime"), Some(StatField::Uptime));
    assert_eq!(
        field_for_topic("$SYS/broker/clients/connected"),
        Some(StatField::ClientsConnected)
    );
    assert_eq!(
        field_for_topic("$SYS/broker/messages/sent"),
        Some(StatField::MessagesSent)
    );
    assert_eq!(
        field_for_topic("$SYS/broker/messages/received"),
        Some(StatField::MessagesReceived)
    );
    assert_eq!(field_for_topic("$SYS/broker/version"), None);
    assert_eq!(field_for_topic("$SYS/broker/uptime/extra"), None);
    assert_eq!(field_for_topic(""), None);
}

#[test]
fn subscription_covers_the_four_status_topics() {
    let topics = subscription_topics();
    assert_eq!(
        topics,
        vec![
            "$SYS/broker/uptime".to_string(),
            "$SYS/broker/clients/connected".to_string(),
            "$SYS/broker/messages/sent".to_string(),
            "$SYS/broker/messages/received".to_string(),
        ]
    );
}

#[test]
fn subscriber_walks_its_states_forward() {
    let mut subscriber = Subscriber::new();
    assert_eq!(subscriber.state, SubscriberState::Connecting);
    subscriber.mark_subscribed();
    assert_eq!(subscriber.state, SubscriberState::Subscribed);
    subscriber.mark_streaming();
    assert_eq!(subscriber.state, SubscriberState::Streaming);
}

#[test]
fn control_events_are_discarded() {
    let store = StatsStore::new();
    let mut subscriber = Subscriber::new();
    store.process_event(&mut subscriber, BrokerEvent::Control);
    assert_eq!(subscriber.state, SubscriberState::Connecting);
    assert_eq!(store.read().uptime, "");
}

#[test]
fn delivered_messages_reach_the_store() {
    let store = StatsStore::new();
    let mut subscriber = Subscriber::new();
    subscriber.mark_subscribed();
    subscriber.mark_streaming();
    store.process_event(
        &mut subscriber,
        BrokerEvent::Publish {
            topic: "$SYS/broker/clients/connected".to_string(),
            payload: b"17".to_vec(),
        },
    );
    assert_eq!(subscriber.state, SubscriberState::Streaming);
    let snapshot = store.read();
    assert_eq!(snapshot.clients_connected, "17");
    assert_eq!(snapshot.uptime, "");
}

#[test]
fn closed_source_freezes_the_store() {
    let store = StatsStore::new();
    let mut subscriber = Subscriber::new();
    subscriber.mark_subscribed();
    subscriber.mark_streaming();
    store.process_event(
        &mut subscriber,
        BrokerEvent::Publish {
            topic: "$SYS/broker/uptime".to_string(),
            payload: b"500 seconds".to_vec(),
        },
    );
    store.process_event(&mut subscriber, BrokerEvent::SourceClosed);
    assert_eq!(subscriber.state, SubscriberState::Terminated);
    store.process_event(
        &mut subscriber,
        BrokerEvent::Publish {
            topic: "$SYS/broker/uptime".to_string(),
            payload: b"501 seconds".to_vec(),
        },
    );
    store.process_event(&mut subscriber, BrokerEvent::SourceClosed);
    assert_eq!(subscriber.state, SubscriberState::Terminated);
    let snapshot = store.read();
    assert_eq!(snapshot.uptime, "500 seconds");
}

#[test]
fn readers_see_every_field_as_written_or_initial() {
    let store = StatsStore::new();
    let writes = [
        (StatField::Uptime, "1"),
        (StatField::MessagesSent, "2"),
        (StatField::Uptime, "3"),
        (StatField::MessagesReceived, "4"),
    ];
    for (field, value) in writes {
        store.write_field(field, value.to_string());
        let snapshot = store.read();
        for text in [
            snapshot.uptime,
            snapshot.clients_connected,
            snapshot.messages_sent,
            snapshot.messages_received,
        ] {
            assert!(
                text.is_empty() || writes.iter().any(|(_, w)| *w == text),
                "field value {:?} was never written",
                text
            );
        }
    }
}
