use ggai::goclaw::{status_of, GoClawConfig};

#[test]
fn test_goclaw_config_default() {
    let config = GoClawConfig::default();
    assert!(config.enabled);
    assert!(config.auto_start);
    assert_eq!(config.ws_url, "ws://127.0.0.1:9876/ws");
    assert_eq!(config.http_url, "http://127.0.0.1:9876");
}

#[test]
fn goclaw_default_has_timeouts_and_no_binary() {
    let config = GoClawConfig::default();
    assert!(config.auto_reconnect);
    assert_eq!(config.binary_path, None);
    assert_eq!(config.start_timeout_ms, 5000);
    assert_eq!(config.ws_connect_timeout_ms, 10000);
}

#[test]
fn goclaw_status_takes_addresses_from_config() {
    let config = GoClawConfig::default();
    let status = status_of(&config, true, false, Some("boom".to_string()));
    assert!(status.running);
    assert!(!status.connected);
    assert_eq!(status.ws_url, config.ws_url);
    assert_eq!(status.http_url, config.http_url);
    assert_eq!(status.error, Some("boom".to_string()));
}
