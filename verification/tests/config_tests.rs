use pusher_rs::config::{default_host_for, EnvValues, RequiredVar};
use pusher_rs::{PusherConfig, PusherConfigBuilder};
use std::time::Duration;

#[test]
fn test_default_config() {
    let config = PusherConfig::default();
    assert_eq!(config.max_reconnection_attempts, 6);
    assert_eq!(config.backoff_interval, Duration::from_secs(1));
    assert_eq!(config.activity_timeout, Duration::from_secs(120));
    assert_eq!(config.pong_timeout, Duration::from_secs(30));
}

#[test]
fn default_config_has_no_credentials_and_uses_tls() {
    let config = PusherConfig::default();
    assert_eq!(config.app_id, "");
    assert_eq!(config.app_key, "");
    assert_eq!(config.app_secret, "");
    assert_eq!(config.cluster, "");
    assert!(config.use_tls);
    assert_eq!(config.host, None);
}

#[test]
fn builder_with_credentials_fills_defaults() {
    let config = PusherConfig::builder()
        .app_id("123")
        .app_key("key")
        .app_secret("secret")
        .build()
        .unwrap();
    assert_eq!(config.app_id, "123");
    assert_eq!(config.app_key, "key");
    assert_eq!(config.app_secret, "secret");
    assert_eq!(config.cluster, "mt1");
    assert_eq!(config.host, Some("ws-mt1.pusher.com".to_string()));
    assert!(config.use_tls);
    assert_eq!(config.max_reconnection_attempts, 6);
    assert_eq!(config.backoff_interval, Duration::from_secs(1));
    assert_eq!(config.activity_timeout, Duration::from_secs(120));
    assert_eq!(config.pong_timeout, Duration::from_secs(30));
}

#[test]
fn builder_keeps_every_setting() {
    let config = PusherConfigBuilder::new()
        .app_id(String::from("9"))
        .app_key("k")
        .app_secret("s")
        .cluster("eu")
        .use_tls(false)
        .max_reconnection_attempts(3)
        .backoff_interval(Duration::from_secs(2))
        .activity_timeout(Duration::from_secs(60))
        .pong_timeout(Duration::from_secs(10))
        .build()
        .unwrap();
    assert_eq!(config.cluster, "eu");
    assert_eq!(config.host, Some("ws-eu.pusher.com".to_string()));
    assert!(!config.use_tls);
    assert_eq!(config.max_reconnection_attempts, 3);
    assert_eq!(config.backoff_interval, Duration::from_secs(2));
    assert_eq!(config.activity_timeout, Duration::from_secs(60));
    assert_eq!(config.pong_timeout, Duration::from_secs(10));
}

#[test]
fn builder_custom_host_wins_over_cluster() {
    let config = PusherConfig::builder()
        .app_id("1")
        .app_key("k")
        .app_secret("s")
        .cluster("ap1")
        .host("localhost:6001")
        .build()
        .unwrap();
    assert_eq!(config.host, Some("localhost:6001".to_string()));
}

#[test]
fn builder_reports_first_missing_credential() {
    assert_eq!(PusherConfig::builder().build().unwrap_err(), "app_id is required");
    assert_eq!(
        PusherConfig::builder().app_id("1").build().unwrap_err(),
        "app_key is required"
    );
    assert_eq!(
        PusherConfig::builder().app_id("1").app_key("k").build().unwrap_err(),
        "app_secret is required"
    );
    assert_eq!(
        PusherConfig::builder().app_key("k").app_secret("s").build().unwrap_err(),
        "app_id is required"
    );
}

#[test]
fn default_host_follows_cluster() {
    assert_eq!(default_host_for("us2"), "ws-us2.pusher.com");
    assert_eq!(default_host_for(""), "ws-.pusher.com");
}

fn env(app_id: Option<&str>, key: Option<&str>, secret: Option<&str>) -> EnvValues {
    EnvValues {
        app_id: app_id.map(String::from),
        key: key.map(String::from),
        secret: secret.map(String::from),
        cluster: None,
        host: None,
        use_tls: None,
        max_reconnection_attempts: None,
        backoff_interval: None,
        activity_timeout: None,
        pong_timeout: None,
    }
}

#[test]
fn env_values_with_credentials_only() {
    let config = PusherConfig::from_env_values(&env(Some("app_id"), Some("app_key"), Some("app_secret"))).unwrap();
    assert_eq!(config.app_id, "app_id");
    assert_eq!(config.app_key, "app_key");
    assert_eq!(config.app_secret, "app_secret");
    assert_eq!(config.cluster, "mt1");
    assert_eq!(config.host, Some("ws-mt1.pusher.com".to_string()));
    assert!(config.use_tls);
    assert_eq!(config.max_reconnection_attempts, 6);
    assert_eq!(config.backoff_interval, Duration::from_secs(1));
    assert_eq!(config.activity_timeout, Duration::from_secs(120));
    assert_eq!(config.pong_timeout, Duration::from_secs(30));
}

#[test]
fn env_values_missing_credentials() {
    assert_eq!(
        PusherConfig::from_env_values(&env(None, Some("k"), Some("s"))).unwrap_err(),
        RequiredVar::AppId
    );
    assert_eq!(
        PusherConfig::from_env_values(&env(Some("a"), None, Some("s"))).unwrap_err(),
        RequiredVar::Key
    );
    assert_eq!(
        PusherConfig::from_env_values(&env(Some("a"), Some("k"), None)).unwrap_err(),
        RequiredVar::Secret
    );
    assert_eq!(
        PusherConfig::from_env_values(&env(None, None, None)).unwrap_err(),
        RequiredVar::AppId
    );
}

#[test]
fn env_values_optional_settings() {
    let mut vars = env(Some("a"), Some("k"), Some("s"));
    vars.cluster = Some("eu".to_string());
    vars.use_tls = Some("TRUE".to_string());
    vars.max_reconnection_attempts = Some("+12".to_string());
    vars.backoff_interval = Some("5".to_string());
    vars.activity_timeout = Some("abc".to_string());
    vars.pong_timeout = Some("".to_string());
    let config = PusherConfig::from_env_values(&vars).unwrap();
    assert_eq!(config.cluster, "eu");
    assert_eq!(config.host, Some("ws-eu.pusher.com".to_string()));
    assert!(config.use_tls);
    assert_eq!(config.max_reconnection_attempts, 12);
    assert_eq!(config.backoff_interval, Duration::from_secs(5));
    assert_eq!(config.activity_timeout, Duration::from_secs(120));
    assert_eq!(config.pong_timeout, Duration::from_secs(30));
}

#[test]
fn env_values_tls_off_and_out_of_range_numbers() {
    let mut vars = env(Some("a"), Some("k"), Some("s"));
    vars.use_tls = Some("false".to_string());
    vars.host = Some("example.test".to_string());
    vars.max_reconnection_attempts = Some("4294967296".to_string());
    vars.backoff_interval = Some("-1".to_string());
    let config = PusherConfig::from_env_values(&vars).unwrap();
    assert!(!config.use_tls);
    assert_eq!(config.host, Some("example.test".to_string()));
    assert_eq!(config.max_reconnection_attempts, 6);
    assert_eq!(config.backoff_interval, Duration::from_secs(1));
}
