use mqtt_kafka_bridge::bridge::MAX_RECONNECT_ATTEMPTS;
use mqtt_kafka_bridge::{
    BridgeAction, BridgeLoop, BridgeSettings, BridgeStats, ConnectionEvent, InboundMessage,
    LinkState, OutboundRecord,
};

fn message(topic: &str, payload: &[u8]) -> ConnectionEvent {
    ConnectionEvent::Message(InboundMessage {
        topic: topic.to_string(),
        payload: payload.to_vec(),
        qos: Some(1),
    })
}

fn delivered(a: BridgeAction) -> OutboundRecord {
    match a {
        BridgeAction::Deliver(r) => r,
        _ => panic!("expected a delivery"),
    }
}

fn is_reconnect(a: &BridgeAction) -> bool {
    matches!(a, BridgeAction::Reconnect)
}

fn is_resume(a: &BridgeAction) -> bool {
    matches!(a, BridgeAction::Resume)
}

fn is_stop(a: &BridgeAction) -> bool {
    matches!(a, BridgeAction::Stop)
}

#[test]
fn wildcard_filter_routes_kitchen_sensor() {
    let mut stats = BridgeStats::new(1000);
    let mut lp = BridgeLoop::new("*".to_string(), MAX_RECONNECT_ATTEMPTS);
    let r = delivered(lp.on_event(&mut stats, message("sensors/temp/kitchen", b"21.5")));
    assert_eq!(r.destination, "sensors-temp-kitchen");
    assert_eq!(r.payload, b"21.5".to_vec());
    assert_eq!(stats.routed_messages(), 1);
    assert_eq!(stats.skipped_messages(), 0);
    assert_eq!(stats.errors(), 0);
    assert_eq!(lp.link(), LinkState::Connected);
}

#[test]
fn literal_filter_counts_routed_and_skipped_but_still_delivers() {
    let mut stats = BridgeStats::new(1000);
    let mut lp = BridgeLoop::new("only-this-topic".to_string(), MAX_RECONNECT_ATTEMPTS);
    let r = delivered(lp.on_event(&mut stats, message("a/b", b"x")));
    assert_eq!(r.destination, "a-b");
    assert_eq!(r.payload, b"x".to_vec());
    assert_eq!(stats.routed_messages(), 1);
    assert_eq!(stats.skipped_messages(), 1);
}

#[test]
fn record_key_is_a_fresh_v4_uuid() {
    let mut stats = BridgeStats::new(0);
    let mut lp = BridgeLoop::new("*".to_string(), 1);
    let a = delivered(lp.on_event(&mut stats, message("t", b"")));
    let b = delivered(lp.on_event(&mut stats, message("t", b"")));
    let chars: Vec<char> = a.key.chars().collect();
    assert_eq!(chars.len(), 36);
    for (i, c) in chars.iter().enumerate() {
        if i == 8 || i == 13 || i == 18 || i == 23 {
            assert_eq!(*c, '-');
        } else {
            assert!(c.is_ascii_digit() || ('a'..='f').contains(c));
        }
    }
    assert_eq!(chars[14], '4');
    assert_ne!(a.key, b.key);
}

#[test]
fn n_messages_with_wildcard_route_n_and_skip_none() {
    let mut stats = BridgeStats::new(0);
    let mut lp = BridgeLoop::new("*".to_string(), 3);
    for i in 0..7 {
        let topic = format!("room/{}", i);
        let r = delivered(lp.on_event(&mut stats, message(&topic, b"p")));
        assert_eq!(r.destination, format!("room-{}", i));
    }
    assert_eq!(stats.routed_messages(), 7);
    assert_eq!(stats.skipped_messages(), 0);
    assert_eq!(stats.connection_error(), 0);
}

#[test]
fn n_messages_with_literal_filter_route_n_and_skip_n() {
    let mut stats = BridgeStats::new(0);
    let mut lp = BridgeLoop::new("room/1".to_string(), 3);
    for _ in 0..5 {
        lp.on_event(&mut stats, message("room/1", b"p"));
    }
    assert_eq!(stats.routed_messages(), 5);
    assert_eq!(stats.skipped_messages(), 5);
}

#[test]
fn empty_filter_is_not_the_wildcard() {
    let mut stats = BridgeStats::new(0);
    let mut lp = BridgeLoop::new(String::new(), 3);
    lp.on_event(&mut stats, message("a", b""));
    assert_eq!(stats.skipped_messages(), 1);
    let mut lp2 = BridgeLoop::new("**".to_string(), 3);
    lp2.on_event(&mut stats, message("a", b""));
    assert_eq!(stats.skipped_messages(), 2);
    assert_eq!(stats.routed_messages(), 2);
}

#[test]
fn disconnect_counted_once_across_many_attempts() {
    let mut stats = BridgeStats::new(0);
    let mut lp = BridgeLoop::new("*".to_string(), 12);
    assert!(is_reconnect(&lp.on_event(&mut stats, ConnectionEvent::Disconnected)));
    assert_eq!(lp.link(), LinkState::Reconnecting { failed_attempts: 0 });
    for k in 1..=5 {
        assert!(is_reconnect(&lp.on_reconnect_attempt(false)));
        assert_eq!(lp.link(), LinkState::Reconnecting { failed_attempts: k });
    }
    assert!(is_resume(&lp.on_reconnect_attempt(true)));
    assert_eq!(stats.connection_error(), 1);
    assert_eq!(stats.routed_messages(), 0);
    assert_eq!(stats.errors(), 0);
}

#[test]
fn resumes_after_reconnect_without_replaying() {
    let mut stats = BridgeStats::new(0);
    let mut lp = BridgeLoop::new("*".to_string(), 4);
    let first = delivered(lp.on_event(&mut stats, message("a/1", b"1")));
    assert!(is_reconnect(&lp.on_event(&mut stats, ConnectionEvent::Disconnected)));
    assert!(is_reconnect(&lp.on_reconnect_attempt(false)));
    assert!(is_resume(&lp.on_reconnect_attempt(true)));
    assert_eq!(lp.link(), LinkState::Connected);
    let second = delivered(lp.on_event(&mut stats, message("a/2", b"2")));
    assert_eq!(first.destination, "a-1");
    assert_eq!(second.destination, "a-2");
    assert_eq!(second.payload, b"2".to_vec());
    assert_eq!(stats.routed_messages(), 2);
    assert_eq!(stats.connection_error(), 1);
}

#[test]
fn exhausted_budget_stops_the_loop() {
    let mut stats = BridgeStats::new(0);
    let mut lp = BridgeLoop::new("*".to_string(), 3);
    assert!(is_reconnect(&lp.on_event(&mut stats, ConnectionEvent::Disconnected)));
    assert!(is_reconnect(&lp.on_reconnect_attempt(false)));
    assert!(is_reconnect(&lp.on_reconnect_attempt(false)));
    assert!(is_stop(&lp.on_reconnect_attempt(false)));
    assert_eq!(lp.link(), LinkState::Failed);
    assert_eq!(stats.connection_error(), 1);
}

#[test]
fn zero_budget_stops_at_the_first_disconnect() {
    let mut stats = BridgeStats::new(0);
    let mut lp = BridgeLoop::new("*".to_string(), 0);
    assert!(is_stop(&lp.on_event(&mut stats, ConnectionEvent::Disconnected)));
    assert_eq!(lp.link(), LinkState::Failed);
    assert_eq!(stats.connection_error(), 1);
}

#[test]
fn standard_budget_allows_twelve_attempts() {
    let settings = BridgeSettings::default();
    let mut stats = BridgeStats::new(0);
    let mut lp = BridgeLoop::from_settings(&settings);
    assert!(is_reconnect(&lp.on_event(&mut stats, ConnectionEvent::Disconnected)));
    for _ in 0..11 {
        assert!(is_reconnect(&lp.on_reconnect_attempt(false)));
    }
    assert!(is_stop(&lp.on_reconnect_attempt(false)));
    assert_eq!(lp.link(), LinkState::Failed);
}

#[test]
fn from_settings_uses_the_configured_filter() {
    let mut settings = BridgeSettings::default();
    settings.kafka_settings.kafka_topic = "none".to_string();
    let mut stats = BridgeStats::new(0);
    let mut lp = BridgeLoop::from_settings(&settings);
    lp.on_event(&mut stats, message("x/y", b""));
    assert_eq!(stats.skipped_messages(), 1);
}
