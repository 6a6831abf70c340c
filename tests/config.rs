use langston_studio::config::{
    config_dir_under, config_path_under, get_config_path, AppConfig, ProxyConfig, CONNECT_TIMEOUT_SECS,
    INACTIVITY_TIMEOUT_SECS, MAX_IDLE_PER_HOST, POOL_IDLE_SECS,
};
use langston_studio::inject::RELAY_TIMEOUT_MS;

#[test]
fn default_budgets_are_ordered() {
    let c = ProxyConfig::new(7600, 7501, "/tmp/app.log".to_string());
    assert_eq!(c.listen_port(), 7600);
    assert_eq!(c.upstream_port(), 7501);
    assert_eq!(c.log_sink(), "/tmp/app.log");
    assert_eq!(c.connect_timeout_secs(), CONNECT_TIMEOUT_SECS);
    assert_eq!(c.inactivity_timeout_secs(), INACTIVITY_TIMEOUT_SECS);
    assert_eq!(CONNECT_TIMEOUT_SECS, 30);
    assert!(CONNECT_TIMEOUT_SECS < INACTIVITY_TIMEOUT_SECS);
    assert!(INACTIVITY_TIMEOUT_SECS < POOL_IDLE_SECS);
    assert!(INACTIVITY_TIMEOUT_SECS * 1000 < RELAY_TIMEOUT_MS);
    assert_eq!(MAX_IDLE_PER_HOST, 10);
}

#[test]
fn other_budgets_must_keep_the_order() {
    let c = ProxyConfig::new(1, 2, String::new());
    let short = c.with_timeouts(1, 3).unwrap();
    assert_eq!(short.connect_timeout_secs(), 1);
    assert_eq!(short.inactivity_timeout_secs(), 3);
    assert_eq!(short.upstream_port(), 2);
    let c = ProxyConfig::new(1, 2, String::new());
    assert!(c.with_timeouts(0, 3).is_none());
    let c = ProxyConfig::new(1, 2, String::new());
    assert!(c.with_timeouts(5, 5).is_none());
    let c = ProxyConfig::new(1, 2, String::new());
    assert!(c.with_timeouts(5, 600).is_none());
    let c = ProxyConfig::new(1, 2, String::new());
    assert!(c.with_timeouts(5, 599).is_some());
}

#[test]
fn settings_file_lives_under_home() {
    assert_eq!(config_dir_under("/Users/ada"), "/Users/ada/Library/Application Support/Langston Studio");
    assert_eq!(
        config_path_under("/Users/ada"),
        "/Users/ada/Library/Application Support/Langston Studio/config.json"
    );
    assert_eq!(
        config_path_under("/Users/ada/"),
        "/Users/ada/Library/Application Support/Langston Studio/config.json"
    );
    assert_eq!(config_path_under(""), "Library/Application Support/Langston Studio/config.json");
}

#[test]
fn config_path_ends_in_the_settings_file() {
    if let Some(p) = get_config_path() {
        assert!(p.ends_with("Library/Application Support/Langston Studio/config.json"));
    }
}

#[test]
fn default_settings_have_no_keys() {
    let c = AppConfig::default();
    assert!(c.anthropic_api_key.is_none());
    assert!(c.openai_api_key.is_none());
}
