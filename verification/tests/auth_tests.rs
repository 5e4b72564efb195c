use base64::Engine;
use hmac::Mac;
use pusher_rs::auth::presence_data_text;
use pusher_rs::PusherAuth;
use sha2::Digest;

fn hmac_hex(secret: &str, msg: &str) -> String {
    let mut mac = hmac::Hmac::<sha2::Sha256>::new_from_slice(secret.as_bytes()).unwrap();
    mac.update(msg.as_bytes());
    hex::encode(mac.finalize().into_bytes())
}

#[test]
fn test_authenticate_socket() {
    let auth = PusherAuth::new("key", "secret");
    let result = auth.authenticate_socket("socket_id", "channel_name");
    assert!(result.is_ok());
}

#[test]
fn test_authenticate_presence_channel() {
    let auth = PusherAuth::new("key", "secret");
    let result = auth.authenticate_presence_channel(
        "socket_id",
        "presence-channel",
        "user_id",
        Some(r#"{"name":"Test User"}"#),
    );
    assert!(result.is_ok());
}

#[test]
fn socket_auth_matches_the_published_example() {
    let auth = PusherAuth::new("278d425bdf160c739803", "7ad3773142a6692b25b8");
    let result = auth.authenticate_socket("1234.1234", "private-foobar").unwrap();
    assert_eq!(
        result,
        "278d425bdf160c739803:58df8b0c36d6982b82c3ecf6b4662e34fe8c25bba48f5369f135bf843651c3a4"
    );
}

#[test]
fn socket_auth_signs_socket_and_channel() {
    let auth = PusherAuth::new("key", "secret");
    let result = auth.authenticate_socket("socket_id", "channel_name").unwrap();
    assert_eq!(
        result,
        format!("key:{}", hmac_hex("secret", "socket_id:channel_name"))
    );
}

#[test]
fn presence_auth_carries_channel_data() {
    let auth = PusherAuth::new("key", "secret");
    let result = auth
        .authenticate_presence_channel(
            "socket_id",
            "presence-channel",
            "user_id",
            Some(r#"{"name":"Test User"}"#),
        )
        .unwrap();
    let data = r#"{"user_id":"user_id","user_info":{"name":"Test User"}}"#;
    let sig = hmac_hex("secret", &format!("socket_id:presence-channel:{}", data));
    assert_eq!(result, format!("key:{}:{}", sig, data));
}

#[test]
fn presence_auth_without_user_info() {
    let auth = PusherAuth::new("key", "secret");
    let result = auth
        .authenticate_presence_channel("1.2", "presence-x", "u\"1", None)
        .unwrap();
    let data = r#"{"user_id":"u\"1"}"#;
    let sig = hmac_hex("secret", &format!("1.2:presence-x:{}", data));
    assert_eq!(result, format!("key:{}:{}", sig, data));
}

#[test]
fn presence_data_text_is_sorted_compact_json() {
    assert_eq!(presence_data_text("42", None), r#"{"user_id":"42"}"#);
    assert_eq!(
        presence_data_text("a\nb", Some(r#"{"x":1}"#)),
        r#"{"user_id":"a\nb","user_info":{"x":1}}"#
    );
}

#[test]
fn encrypted_auth_appends_shared_secret() {
    let auth = PusherAuth::new("key", "secret");
    let result = auth
        .authenticate_private_encrypted_channel("1.2", "private-encrypted-x")
        .unwrap();
    let mut hasher = sha2::Sha256::new();
    hasher.update(b"secret");
    hasher.update(b"private-encrypted-x");
    let shared = hasher.finalize().to_vec();
    let encoded = base64::engine::general_purpose::STANDARD.encode(&shared);
    let plain = auth.authenticate_socket("1.2", "private-encrypted-x").unwrap();
    assert_eq!(result, format!("{}:{}", plain, encoded));
    assert_eq!(encoded.len(), 44);
}

#[test]
fn request_signature_at_fixed_time() {
    let auth = PusherAuth::new("key", "secret");
    let body = r#"{"name":"e"}"#;
    let params = auth.authenticate_request_at("POST", "/apps/1/events", body, 1700000000);
    let body_md5 = format!("{:x}", md5::compute(body.as_bytes()));
    let to_sign = format!(
        "POST\n/apps/1/events\nauth_key=key&auth_timestamp=1700000000&auth_version=1.0&body_md5={}",
        body_md5
    );
    let expected = vec![
        ("auth_key".to_string(), "key".to_string()),
        ("auth_signature".to_string(), hmac_hex("secret", &to_sign)),
        ("auth_timestamp".to_string(), "1700000000".to_string()),
        ("auth_version".to_string(), "1.0".to_string()),
        ("body_md5".to_string(), body_md5),
    ];
    assert_eq!(params, expected);
}

#[test]
fn request_signature_now_has_every_parameter() {
    let auth = PusherAuth::new("key", "secret");
    let params = auth.authenticate_request("GET", "/apps/1/channels/c", "{}").unwrap();
    let names: Vec<&str> = params.iter().map(|(k, _)| k.as_str()).collect();
    assert_eq!(
        names,
        vec!["auth_key", "auth_signature", "auth_timestamp", "auth_version", "body_md5"]
    );
    assert_eq!(params[4].1, "99914b932bd37a50b983c5e7c90ae93b");
    assert!(params[2].1.parse::<u64>().unwrap() > 1_600_000_000);
}
