use hmac::Mac;
use pusher_rs::client::{
    batch_body_text, batch_outcome, occupancy_from, occupancy_from_reply, trigger_outcome,
};
use pusher_rs::{
    BatchEvent, PusherClient, ConnectionState, Event, PusherAuth, PusherConfig, PusherError,
    SystemEvent,
};
use pusher_rs::websocket::ReconnectStep;
use serde_json::Value;

fn config() -> PusherConfig {
    PusherConfig::builder()
        .app_id("123")
        .app_key("key")
        .app_secret("secret")
        .cluster("eu")
        .build()
        .unwrap()
}

fn hmac_bytes(secret: &str, msg: &str) -> Vec<u8> {
    let mut mac = hmac::Hmac::<sha2::Sha256>::new_from_slice(secret.as_bytes()).unwrap();
    mac.update(msg.as_bytes());
    mac.finalize().into_bytes().to_vec()
}

#[test]
fn new_client_is_disconnected_and_empty() {
    let client = PusherClient::new(config()).unwrap();
    assert_eq!(client.get_connection_state(), ConnectionState::Disconnected);
    assert!(client.get_subscribed_channels().is_empty());
    match client.get_socket_id() {
        Err(PusherError::ConnectionError(m)) => {
            assert_eq!(m, "Not connected or socket ID not available")
        }
        _ => panic!("expected a connection error"),
    }
    assert_eq!(client.config().app_id, "123");
}

#[test]
fn websocket_url_from_config() {
    let client = PusherClient::new(config()).unwrap();
    assert_eq!(
        client.websocket_url().unwrap(),
        "wss://ws-eu.pusher.com/app/key?protocol=7"
    );
    let plain = PusherConfig::builder()
        .app_id("1")
        .app_key("abc")
        .app_secret("s")
        .use_tls(false)
        .host("localhost:6001")
        .build()
        .unwrap();
    let client = PusherClient::new(plain).unwrap();
    assert_eq!(
        client.websocket_url().unwrap(),
        "ws://localhost:6001/app/abc?protocol=7"
    );
}

#[test]
fn websocket_url_parse_failure_is_reported() {
    let bad = PusherConfig::builder()
        .app_id("1")
        .app_key("k")
        .app_secret("s")
        .host("bad host")
        .build()
        .unwrap();
    let client = PusherClient::new(bad).unwrap();
    assert!(matches!(client.websocket_url(), Err(PusherError::UrlParseError(_))));
}

#[test]
fn subscribe_while_disconnected_tracks_but_fails() {
    let mut client = PusherClient::new(config()).unwrap();
    match client.subscribe("test-channel") {
        Err(PusherError::ConnectionError(m)) => assert_eq!(m, "Not connected"),
        _ => panic!("expected a connection error"),
    }
    assert_eq!(client.get_subscribed_channels(), vec!["test-channel".to_string()]);
}

#[test]
fn subscribe_then_unsubscribe() {
    let mut client = PusherClient::new(config()).unwrap();
    client.connected();
    assert_eq!(client.get_connection_state(), ConnectionState::Connected);
    let msg = client.subscribe("test-channel").unwrap();
    assert_eq!(
        msg,
        r#"{"data":{"channel":"test-channel"},"event":"pusher:subscribe"}"#
    );
    assert!(client.get_subscribed_channels().contains(&"test-channel".to_string()));
    let msg = client.unsubscribe("test-channel").unwrap();
    assert_eq!(
        msg,
        r#"{"data":{"channel":"test-channel"},"event":"pusher:unsubscribe"}"#
    );
    assert!(!client.get_subscribed_channels().contains(&"test-channel".to_string()));
}

#[test]
fn subscribe_with_auth_message() {
    let mut client = PusherClient::new(config()).unwrap();
    client.connected();
    let msg = client.subscribe_with_auth("private-x", "key:sig").unwrap();
    assert_eq!(
        msg,
        r#"{"data":{"auth":"key:sig","channel":"private-x"},"event":"pusher:subscribe"}"#
    );
    let expected: Value = serde_json::from_str(&msg).unwrap();
    let written = serde_json::to_string(&expected).unwrap();
    assert_eq!(written, msg);
}

#[test]
fn subscribe_encrypted_checks_prefix_and_keeps_key() {
    let mut client = PusherClient::new(config()).unwrap();
    client.connected();
    match client.subscribe_encrypted("private-x") {
        Err(PusherError::ChannelError(m)) => {
            assert_eq!(m, "Encrypted channels must start with 'private-encrypted-'")
        }
        _ => panic!("expected a channel error"),
    }
    assert!(client.get_subscribed_channels().is_empty());
    client.subscribe_encrypted("private-encrypted-channel").unwrap();
    assert!(client
        .get_subscribed_channels()
        .contains(&"private-encrypted-channel".to_string()));

    let payload = client.encrypted_payload("private-encrypted-channel", "hello").unwrap();
    let key = hmac_bytes("secret", "private-encrypted-channel");
    assert_eq!(client.decrypt_data(&payload, &key).unwrap(), "hello");

    client.unsubscribe("private-encrypted-channel").unwrap();
    match client.encrypted_payload("private-encrypted-channel", "hello") {
        Err(PusherError::ChannelError(m)) => {
            assert_eq!(m, "Channel is not subscribed or is not encrypted")
        }
        _ => panic!("expected a channel error"),
    }
}

#[test]
fn disconnect_reports_open_link() {
    let mut client = PusherClient::new(config()).unwrap();
    assert!(!client.disconnect());
    client.connected();
    assert!(client.disconnect());
    assert_eq!(client.get_connection_state(), ConnectionState::Disconnected);
    assert!(client.subscribe("c").is_err());
    client.set_state(ConnectionState::Reconnecting);
    assert_eq!(client.get_connection_state(), ConnectionState::Reconnecting);
}

#[test]
fn bind_and_dispatch_in_order() {
    let mut client = PusherClient::new(config()).unwrap();
    let a = client.bind("test-event");
    let b = client.bind("other-event");
    let c = client.bind("test-event");
    assert_eq!((a, b, c), (0, 1, 2));
    let event = Event::new("test-event".to_string(), None, Value::Null);
    assert_eq!(client.dispatch(&event, None), vec![0, 2]);
    let event = Event::new("nobody".to_string(), None, Value::Null);
    assert!(client.dispatch(&event, None).is_empty());
}

#[test]
fn connection_established_records_socket_id() {
    let mut client = PusherClient::new(config()).unwrap();
    let handler = client.bind("pusher:connection_established");
    let event = Event::new("pusher:connection_established".to_string(), None, Value::Null);
    let system = SystemEvent::connection_established("123.456".to_string(), 120);
    assert_eq!(client.dispatch(&event, Some(system)), vec![handler]);
    assert_eq!(client.get_socket_id().unwrap(), "123.456");

    let other = Event::new("pusher:error".to_string(), None, Value::Null);
    let system = SystemEvent::connection_established("999".to_string(), 1);
    client.dispatch(&other, Some(system));
    assert_eq!(client.get_socket_id().unwrap(), "123.456");
}

#[test]
fn presence_auth_uses_configured_credentials() {
    let client = PusherClient::new(config()).unwrap();
    let direct = PusherAuth::new("key", "secret")
        .authenticate_presence_channel("1.1", "presence-r", "u", Some("{}"))
        .unwrap();
    assert_eq!(
        client.authenticate_presence_channel("1.1", "presence-r", "u", Some("{}")).unwrap(),
        direct
    );
    assert!(client.auth().authenticate_socket("1.1", "private-a").unwrap().starts_with("key:"));
}

#[test]
fn trigger_request_at_fixed_time() {
    let client = PusherClient::new(config()).unwrap();
    let req = client
        .trigger_request_at("test-channel", "my-event", r#"{"message": "Hello"}"#, 1700000000);
    assert_eq!(req.url, "https://api-eu.pusher.com/apps/123/events");
    assert_eq!(
        req.body,
        r#"{"channel":"test-channel","data":"{\"message\": \"Hello\"}","name":"my-event"}"#
    );
    let expected = PusherAuth::new("key", "secret").authenticate_request_at(
        "POST",
        "/apps/123/events",
        &req.body,
        1700000000,
    );
    assert_eq!(req.query, expected);
}

#[test]
fn trigger_request_sends_plain_text_as_a_string() {
    let client = PusherClient::new(config()).unwrap();
    let req = client.trigger_request_at("my-channel", "my-event", "Hello, Pusher!", 1);
    assert_eq!(
        req.body,
        r#"{"channel":"my-channel","data":"Hello, Pusher!","name":"my-event"}"#
    );
    let req = client.trigger_request("c", "e", "{").unwrap();
    assert_eq!(req.body, r#"{"channel":"c","data":"{","name":"e"}"#);
    assert_eq!(req.query.len(), 5);
}

#[test]
fn encrypted_payload_can_be_triggered() {
    let mut client = PusherClient::new(config()).unwrap();
    client.connected();
    client.subscribe_encrypted("private-encrypted-channel").unwrap();
    let payload = client.encrypted_payload("private-encrypted-channel", "Secret message").unwrap();
    let req = client.trigger_request("private-encrypted-channel", "my-event", &payload).unwrap();
    let body: Value = serde_json::from_str(&req.body).unwrap();
    let sent = body["data"].as_str().unwrap();
    let key = hmac_bytes("secret", "private-encrypted-channel");
    assert_eq!(client.decrypt_data(sent, &key).unwrap(), "Secret message");
}

#[test]
fn batch_request_body() {
    let client = PusherClient::new(config()).unwrap();
    let events = vec![
        BatchEvent {
            channel: "test-channel-1".to_string(),
            event: "test-event-1".to_string(),
            data: "{\"message\": \"Hello from event 1\"}".to_string(),
        },
        BatchEvent {
            channel: "test-channel-2".to_string(),
            event: "test-event-2".to_string(),
            data: "{\"message\": \"Hello from event 2\"}".to_string(),
        },
    ];
    let req = client.trigger_batch_request_at(&events, 42);
    assert_eq!(req.url, "https://api-eu.pusher.com/apps/123/batch_events");
    let expected = format!(
        "{}{}",
        r#"{"batch":[{"channel":"test-channel-1","data":"{\"message\": \"Hello from event 1\"}","name":"test-event-1"},"#,
        r#"{"channel":"test-channel-2","data":"{\"message\": \"Hello from event 2\"}","name":"test-event-2"}]}"#
    );
    assert_eq!(req.body, expected);
    assert_eq!(batch_body_text(&events), expected);
    assert_eq!(batch_body_text(&vec![]), r#"{"batch":[]}"#);
    assert!(client.trigger_batch_request(&events).is_ok());
}

#[test]
fn occupancy_request_adds_info_after_signing() {
    let client = PusherClient::new(config()).unwrap();
    let req = client.occupancy_request_at("my-channel", 7);
    assert_eq!(req.url, "https://api-eu.pusher.com/apps/123/channels/my-channel");
    assert_eq!(req.body, "{}");
    let mut expected = PusherAuth::new("key", "secret").authenticate_request_at(
        "GET",
        "/apps/123/channels/my-channel",
        "{}",
        7,
    );
    expected.push(("info".to_string(), "subscription_count".to_string()));
    assert_eq!(req.query, expected);
    assert_eq!(client.occupancy_request("my-channel").unwrap().query.len(), 6);
}

#[test]
fn occupancy_from_response_fields() {
    assert_eq!(occupancy_from(Some(true), Some(5)), 1);
    assert_eq!(occupancy_from(Some(false), Some(5)), 0);
    assert_eq!(occupancy_from(None, Some(5)), 5);
    assert_eq!(occupancy_from(None, Some(4294967297)), 1);
    assert_eq!(occupancy_from(None, None), 0);
}

#[test]
fn reply_outcomes_carry_fixed_context() {
    assert!(trigger_outcome(true, "200 OK", "{}").is_ok());
    match trigger_outcome(false, "403 Forbidden", "nope") {
        Err(PusherError::ApiError(m)) => assert_eq!(m, "Failed to trigger event: 403 Forbidden - nope"),
        _ => panic!("expected an API error"),
    }
    assert!(batch_outcome(true, "200 OK", "").is_ok());
    match batch_outcome(false, "500 Internal Server Error", "x") {
        Err(PusherError::ApiError(m)) => {
            assert_eq!(m, "Failed to trigger batch events: 500 Internal Server Error - x")
        }
        _ => panic!("expected an API error"),
    }
}

#[test]
fn occupancy_from_replies() {
    assert_eq!(occupancy_from_reply(true, "200 OK", r#"{"occupied":true}"#).unwrap(), 1);
    assert_eq!(occupancy_from_reply(true, "200 OK", r#"{"occupied":false,"subscription_count":3}"#).unwrap(), 0);
    assert_eq!(occupancy_from_reply(true, "200 OK", r#"{"subscription_count":3}"#).unwrap(), 3);
    assert_eq!(occupancy_from_reply(true, "200 OK", r#"{"subscription_count":"3"}"#).unwrap(), 0);
    assert_eq!(occupancy_from_reply(true, "200 OK", "[1]").unwrap(), 0);
    match occupancy_from_reply(false, "404 Not Found", "no") {
        Err(PusherError::ApiError(m)) => assert_eq!(m, "Failed to get channel occupancy: 404 Not Found - no"),
        _ => panic!("expected an API error"),
    }
    let parse_error = serde_json::from_str::<Value>("{").unwrap_err().to_string();
    match occupancy_from_reply(true, "200 OK", "{") {
        Err(PusherError::HttpError(m)) => {
            assert_eq!(m, format!("error decoding response body: {}", parse_error))
        }
        _ => panic!("expected an HTTP error"),
    }
}

#[test]
fn resubscribe_restores_every_channel() {
    let mut client = PusherClient::new(config()).unwrap();
    let _ = client.subscribe("a");
    let _ = client.subscribe("presence-b");
    let mut messages = client.resubscribe_messages();
    messages.sort();
    assert_eq!(
        messages,
        vec![
            r#"{"data":{"channel":"a"},"event":"pusher:subscribe"}"#.to_string(),
            r#"{"data":{"channel":"presence-b"},"event":"pusher:subscribe"}"#.to_string(),
        ]
    );
    let mut r = client.reconnector();
    for k in 0..6u32 {
        assert_eq!(r.next_attempt(), ReconnectStep::Wait(1000u64 << k));
    }
    assert_eq!(r.next_attempt(), ReconnectStep::GiveUp);
}

#[test]
fn decrypt_with_wrong_key_length() {
    let client = PusherClient::new(config()).unwrap();
    let payload = pusher_rs::encryption::encrypt_data("x", &[1u8; 32]).unwrap();
    match client.decrypt_data(&payload, &[1u8; 16]) {
        Err(PusherError::DecryptionError(m)) => assert_eq!(m, "Invalid key length"),
        _ => panic!("expected a decryption error"),
    }
    let short = base64::Engine::encode(&base64::engine::general_purpose::STANDARD, [0u8; 4]);
    match client.decrypt_data(&short, &[1u8; 5]) {
        Err(PusherError::DecryptionError(m)) => assert_eq!(m, "Invalid encrypted data"),
        _ => panic!("expected a decryption error"),
    }
}

#[test]
fn reconnector_follows_configured_backoff() {
    let cfg = PusherConfig::builder()
        .app_id("1")
        .app_key("k")
        .app_secret("s")
        .max_reconnection_attempts(2)
        .backoff_interval(std::time::Duration::from_millis(2500))
        .build()
        .unwrap();
    let client = PusherClient::new(cfg).unwrap();
    let mut r = client.reconnector();
    assert_eq!(r.next_attempt(), ReconnectStep::Wait(2500));
    assert_eq!(r.next_attempt(), ReconnectStep::Wait(5000));
    assert_eq!(r.next_attempt(), ReconnectStep::GiveUp);
}

#[test]
fn socket_signature_is_lower_hex() {
    let auth = PusherAuth::new("key", "a secret much longer than the sixty-four byte block of sha-256 hashing");
    let result = auth.authenticate_socket("1.2", "private-x").unwrap();
    let sig = result.strip_prefix("key:").unwrap();
    assert_eq!(sig.len(), 64);
    assert!(sig.chars().all(|c| c.is_ascii_digit() || ('a'..='f').contains(&c)));
}
