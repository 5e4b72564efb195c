use pusher_rs::error::{
    api_error, auth_error, channel_error, config_error, connection_error, decryption_error,
    encryption_error, event_error, presence_data_error, rate_limit_error, timeout_error,
    unknown_error,
};
use pusher_rs::PusherError;

#[test]
fn test_error_conversion() {
    let err: PusherError = "Test error".into();
    assert!(matches!(err, PusherError::UnknownError(_)));

    let err: PusherError = String::from("Test error").into();
    assert!(matches!(err, PusherError::UnknownError(_)));
}

#[test]
fn test_error_display() {
    let err = PusherError::AuthError("Invalid credentials".to_string());
    assert_eq!(err.to_string(), "Authentication error: Invalid credentials");

    let err = PusherError::ChannelError("Channel not found".to_string());
    assert_eq!(err.to_string(), "Channel error: Channel not found");
}

#[test]
fn test_helper_functions() {
    let err = auth_error("Invalid token");
    assert!(matches!(err, PusherError::AuthError(_)));

    let err = channel_error("Invalid channel name");
    assert!(matches!(err, PusherError::ChannelError(_)));

    let err = event_error("Event too large");
    assert!(matches!(err, PusherError::EventError(_)));
}

#[test]
fn conversions_keep_the_message() {
    let err: PusherError = "boom".into();
    assert_eq!(err.to_string(), "Unknown error: boom");
    let err: PusherError = String::from("bang").into();
    assert_eq!(err.to_string(), "Unknown error: bang");
}

#[test]
fn every_variant_has_its_label() {
    let cases = vec![
        (PusherError::HttpError("m".to_string()), "HTTP error: m"),
        (PusherError::WebSocketError("m".to_string()), "WebSocket error: m"),
        (PusherError::JsonError("m".to_string()), "JSON error: m"),
        (PusherError::IoError("m".to_string()), "I/O error: m"),
        (PusherError::UrlParseError("m".to_string()), "URL parse error: m"),
        (auth_error("m"), "Authentication error: m"),
        (channel_error("m"), "Channel error: m"),
        (event_error("m"), "Event error: m"),
        (connection_error("m"), "Connection error: m"),
        (config_error("m"), "Configuration error: m"),
        (rate_limit_error("m"), "Rate limit error: m"),
        (encryption_error("m"), "Encryption error: m"),
        (decryption_error("m"), "Decryption error: m"),
        (presence_data_error("m"), "Presence data error: m"),
        (api_error("m"), "API error: m"),
        (timeout_error(String::from("m")), "Timeout error: m"),
        (unknown_error("m"), "Unknown error: m"),
    ];
    for (err, text) in cases {
        assert_eq!(err.to_string(), text);
    }
}
