use dashboard_core::config::{AppStateBuilder, ConfigError, MqttConfig};
use dashboard_core::models::{IndexTemplate, MqttTemplate, ValkeyTemplate};
use dashboard_core::parse::{parse_port, parse_u64};
use dashboard_core::search::{SearchOutcome, SearchParams, total_hits_code};

#[test]
fn parse_u64_accepts_exactly_digit_strings_in_range() {
    assert_eq!(parse_u64("0"), Some(0));
    assert_eq!(parse_u64("17"), Some(17));
    assert_eq!(parse_u64("30000"), Some(30000));
    assert_eq!(parse_u64("18446744073709551615"), Some(u64::MAX));
    assert_eq!(parse_u64("18446744073709551616"), None);
    assert_eq!(parse_u64(""), None);
    assert_eq!(parse_u64("1a"), None);
    assert_eq!(parse_u64("-1"), None);
    assert_eq!(parse_u64(" 7"), None);
}

#[test]
fn parse_port_accepts_exactly_real_ports() {
    assert_eq!(parse_port("1"), Some(1));
    assert_eq!(parse_port("1883"), Some(1883));
    assert_eq!(parse_port("65535"), Some(65535));
    assert_eq!(parse_port("0"), None);
    assert_eq!(parse_port("65536"), None);
    assert_eq!(parse_port("port"), None);
}

#[test]
fn mqtt_config_from_settings_parses_and_defaults() {
    let c = MqttConfig::from_settings("broker.local".to_string(), "1883", Some("5000")).unwrap();
    assert_eq!(c.host, "broker.local");
    assert_eq!(c.port, 1883);
    assert_eq!(c.refresh_interval_ms, 5000);

    let defaulted = MqttConfig::from_settings("broker.local".to_string(), "1883", None).unwrap();
    assert_eq!(defaulted.refresh_interval_ms, 30000);

    assert!(MqttConfig::from_settings("broker.local".to_string(), "0", None).is_none());
    assert!(MqttConfig::from_settings("broker.local".to_string(), "no", None).is_none());
    assert!(MqttConfig::from_settings("broker.local".to_string(), "1883", Some("soon")).is_none());
}

#[test]
fn builder_collects_settings_into_app_settings() {
    let settings = AppStateBuilder::new()
        .app_name("RPi Dashboard")
        .postgres_url("postgres://db/one".to_string())
        .valkey_url("redis://kv/two".to_string())
        .manticore_url("http://search:9308".to_string())
        .into_settings()
        .unwrap();
    assert_eq!(settings.app_name, "RPi Dashboard");
    assert_eq!(settings.postgres_url, "postgres://db/one");
    assert_eq!(settings.valkey_url, "redis://kv/two");
    assert_eq!(settings.manticore_url, "http://search:9308");
}

#[test]
fn builder_defaults_the_app_name() {
    let settings = AppStateBuilder::new()
        .postgres_url("postgres://db".to_string())
        .valkey_url("redis://kv".to_string())
        .manticore_url("http://search".to_string())
        .into_settings()
        .unwrap();
    assert_eq!(settings.app_name, "Výchozí App");
}

#[test]
fn builder_reports_the_first_missing_setting() {
    let missing_postgres = AppStateBuilder::new()
        .valkey_url("redis://kv".to_string())
        .manticore_url("http://search".to_string())
        .into_settings();
    assert_eq!(missing_postgres.unwrap_err(), ConfigError::MissingPostgresUrl);

    let missing_valkey = AppStateBuilder::new()
        .postgres_url("postgres://db".to_string())
        .manticore_url("http://search".to_string())
        .into_settings();
    assert_eq!(missing_valkey.unwrap_err(), ConfigError::MissingValkeyUrl);

    let missing_manticore = AppStateBuilder::new()
        .postgres_url("postgres://db".to_string())
        .valkey_url("redis://kv".to_string())
        .into_settings();
    assert_eq!(missing_manticore.unwrap_err(), ConfigError::MissingManticoreUrl);
}

#[test]
fn index_template_carries_the_app_name() {
    let t = IndexTemplate::new("RPi Dashboard".to_string());
    assert_eq!(t.app_name, "RPi Dashboard");
}

#[test]
fn valkey_template_shows_value_or_not_found_notice() {
    let found = ValkeyTemplate::from_lookup(
        "dashboard:status".to_string(),
        Some("online".to_string()),
    );
    assert_eq!(found.key, "dashboard:status");
    assert_eq!(found.value, "online");

    let missing = ValkeyTemplate::from_lookup("dashboard:status".to_string(), None);
    assert_eq!(missing.value, "(Klíč nebyl v databázi nalezen)");
}

#[test]
fn mqtt_template_takes_host_and_interval_from_config() {
    let config = MqttConfig::new("broker.local".to_string(), 1883, 30000);
    let t = MqttTemplate::from_config(&config);
    assert_eq!(t.broker_host, "broker.local");
    assert_eq!(t.refresh_interval_ms, 30000);
}

#[test]
fn search_is_attempted_only_for_non_empty_queries() {
    assert!(!SearchParams { q: None }.should_search());
    assert!(!SearchParams { q: Some(String::new()) }.should_search());
    assert!(SearchParams { q: Some("tea".to_string()) }.should_search());
}

#[test]
fn search_page_echoes_the_query_or_nothing() {
    assert_eq!(SearchParams { q: Some("tea".to_string()) }.query_or_empty(), "tea");
    assert_eq!(SearchParams { q: None }.query_or_empty(), "");
}

#[test]
fn search_outcomes_map_to_their_hit_codes() {
    assert_eq!(total_hits_code(&SearchOutcome::NotSearched), -1);
    assert_eq!(total_hits_code(&SearchOutcome::Failed), -2);
    assert_eq!(total_hits_code(&SearchOutcome::Found(0)), 0);
    assert_eq!(total_hits_code(&SearchOutcome::Found(42)), 42);
}
