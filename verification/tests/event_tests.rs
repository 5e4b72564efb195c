use pusher_rs::{Event, PresenceData, SystemEvent, SystemEventData};
use serde_json::Value;
use std::collections::HashMap;

fn json(text: &str) -> Value {
    serde_json::from_str(text).unwrap()
}

#[test]
fn test_system_event_connection_established() {
    let event = SystemEvent::connection_established("socket123".to_string(), 120);

    assert_eq!(event.event, "pusher:connection_established");
    assert_eq!(event.channel, None);

    if let SystemEventData::ConnectionEstablished { socket_id, activity_timeout } = event.data {
        assert_eq!(socket_id, "socket123");
        assert_eq!(activity_timeout, 120);
    } else {
        panic!("Unexpected event data");
    }
}

#[test]
fn test_system_event_subscription_succeeded() {
    let hash: HashMap<String, Value> = [
        ("user1".to_string(), json(r#"{"name": "Alice"}"#)),
        ("user2".to_string(), json(r#"{"name": "Bob"}"#)),
    ]
    .into_iter()
    .collect();
    let presence_data = PresenceData {
        count: 2,
        hash,
        ids: vec!["user1".to_string(), "user2".to_string()],
    };

    let event = SystemEvent::subscription_succeeded("presence-channel".to_string(), Some(presence_data));

    assert_eq!(event.event, "pusher:subscription_succeeded");
    assert_eq!(event.channel, Some("presence-channel".to_string()));

    if let SystemEventData::SubscriptionSucceeded { presence } = event.data {
        assert!(presence.is_some());
        let presence = presence.unwrap();
        assert_eq!(presence.count, 2);
        assert_eq!(presence.ids, vec!["user1", "user2"]);
    } else {
        panic!("Unexpected event data");
    }
}

#[test]
fn test_system_event_member_added() {
    let event = SystemEvent::member_added(
        "presence-channel".to_string(),
        "user3".to_string(),
        json(r#"{"name": "Charlie"}"#),
    );

    assert_eq!(event.event, "pusher:member_added");
    assert_eq!(event.channel, Some("presence-channel".to_string()));

    if let SystemEventData::MemberAdded { user_id, user_info } = event.data {
        assert_eq!(user_id, "user3");
        assert_eq!(user_info, json(r#"{"name": "Charlie"}"#));
    } else {
        panic!("Unexpected event data");
    }
}

#[test]
fn test_system_event_member_removed() {
    let event = SystemEvent::member_removed("presence-channel".to_string(), "user2".to_string());

    assert_eq!(event.event, "pusher:member_removed");
    assert_eq!(event.channel, Some("presence-channel".to_string()));

    if let SystemEventData::MemberRemoved { user_id } = event.data {
        assert_eq!(user_id, "user2");
    } else {
        panic!("Unexpected event data");
    }
}

#[test]
fn test_system_event_error() {
    let event = SystemEvent::error(Some(4004), "Error message".to_string());

    assert_eq!(event.event, "pusher:error");
    assert_eq!(event.channel, None);

    if let SystemEventData::Error { code, message } = event.data {
        assert_eq!(code, Some(4004));
        assert_eq!(message, "Error message");
    } else {
        panic!("Unexpected event data");
    }
}

#[test]
fn event_kinds_follow_the_name() {
    let e = Event::new("pusher:member_added".to_string(), None, Value::Null);
    assert!(e.is_system_event());
    assert!(e.is_presence_event());
    assert!(!e.is_subscription_event());

    let e = Event::new("pusher:subscription_error".to_string(), None, Value::Null);
    assert!(e.is_system_event());
    assert!(!e.is_presence_event());
    assert!(e.is_subscription_event());

    let e = Event::new("client-event".to_string(), Some("c".to_string()), json("{}"));
    assert!(!e.is_system_event());
    assert!(!e.is_presence_event());
    assert!(!e.is_subscription_event());
    assert_eq!(e.channel, Some("c".to_string()));
    assert_eq!(e.data, json("{}"));
}

#[test]
fn system_event_kinds_follow_the_name() {
    let e = SystemEvent::member_removed("p".to_string(), "u".to_string());
    assert!(e.is_presence_event());
    assert!(!e.is_subscription_event());
    let e = SystemEvent::subscription_succeeded("p".to_string(), None);
    assert!(!e.is_presence_event());
    assert!(e.is_subscription_event());
    let e = SystemEvent::error(None, "m".to_string());
    assert!(!e.is_presence_event());
    assert!(!e.is_subscription_event());
}

#[test]
fn as_system_event_only_for_pusher_events() {
    let decoded = SystemEvent::error(None, "m".to_string());
    let e = Event::new("pusher:error".to_string(), None, Value::Null);
    let r = e.as_system_event_from(Some(decoded.clone()));
    assert_eq!(r.unwrap().event, "pusher:error");
    assert!(e.as_system_event_from(None).is_none());

    let e = Event::new("my-event".to_string(), None, Value::Null);
    assert!(e.as_system_event_from(Some(decoded)).is_none());
}

#[test]
fn as_event_keeps_name_and_channel() {
    let se = SystemEvent::member_removed("presence-c".to_string(), "u1".to_string());
    let e = se.as_event_with(json(r#"{"user_id":"u1"}"#));
    assert_eq!(e.event, "pusher:member_removed");
    assert_eq!(e.channel, Some("presence-c".to_string()));
    assert_eq!(e.data, json(r#"{"user_id":"u1"}"#));
}
