use statusforge::config::{
    default_confidence_threshold, default_grace_period, default_idle_category,
    default_routing_mode, default_sb_action_name, default_sb_port, default_scan_interval,
    default_spark_pin, default_widget_fade_timer, default_widget_poll_rate, default_widget_token,
    prepare_import, AppConfig, ConfigError, RoutingMode,
};

#[test]
fn sanitize_then_validate_accepts_out_of_range_ui_input() {
    let mut c = AppConfig::default();
    c.engine_settings.spark_pin = "12".into();
    c.engine_settings.widget_fade_timer = 0;
    c.engine_settings.widget_poll_rate = 0;
    c.engine_settings.scan_interval = 0;
    c.engine_settings.confidence_threshold_bits = 5.0f64.to_bits();
    c.engine_settings.ram_threshold = 900;
    c.sanitize();
    assert_eq!(c.engine_settings.spark_pin, "0000");
    assert_eq!(c.engine_settings.widget_fade_timer, 1);
    assert_eq!(c.engine_settings.widget_poll_rate, 1);
    assert_eq!(c.engine_settings.scan_interval, 2);
    assert_eq!(f64::from_bits(c.engine_settings.confidence_threshold_bits), 1.0);
    assert_eq!(c.engine_settings.ram_threshold, 100);
    assert!(c.validate().is_ok());
}

#[test]
fn sanitize_resets_non_numeric_pin() {
    let mut c = AppConfig::default();
    c.engine_settings.spark_pin = "abcd".into();
    c.sanitize();
    assert_eq!(c.engine_settings.spark_pin, "0000");
}

#[test]
fn native_routing_allows_any_number_of_clients() {
    let mut c = AppConfig::default();
    c.broadcaster.routing_mode = RoutingMode::Native;
    assert!(c.validate().is_ok(), "zero clients should pass");
    c.broadcaster.twitch_client = "abc".into();
    assert!(c.validate().is_ok(), "twitch-only should pass");
    c.broadcaster.twitch_client.clear();
    c.broadcaster.kick_client = "xyz".into();
    assert!(c.validate().is_ok(), "kick-only should pass");
}

#[test]
fn validate_reports_every_failed_check_in_order() {
    let mut c = AppConfig::default();
    c.engine_settings.scan_interval = 1;
    c.engine_settings.grace_period = 301;
    c.engine_settings.spark_pin = "12a4".into();
    c.api_keys.rawg = "r".repeat(201);
    match c.validate() {
        Err(ConfigError::Validation(m)) => assert_eq!(
            m,
            "scan_interval must be >= 2; grace_period must be <= 300; spark_pin must be 4 digits; rawg key too long"
        ),
        other => panic!("unexpected {:?}", other),
    }
}

#[test]
fn validate_rejects_out_of_range_and_nan_confidence() {
    let mut c = AppConfig::default();
    c.engine_settings.confidence_threshold_bits = (-0.5f64).to_bits();
    assert!(c.validate().is_err());
    c.engine_settings.confidence_threshold_bits = 1.5f64.to_bits();
    assert!(c.validate().is_err());
    c.engine_settings.confidence_threshold_bits = f64::NAN.to_bits();
    match c.validate() {
        Err(ConfigError::Validation(m)) => assert_eq!(m, "confidence_threshold must be between 0.0 and 1.0"),
        other => panic!("unexpected {:?}", other),
    }
    c.engine_settings.confidence_threshold_bits = (-0.0f64).to_bits();
    assert!(c.validate().is_ok());
}

#[test]
fn sanitize_keeps_nan_confidence_and_import_refuses_it() {
    let mut c = AppConfig::default();
    c.engine_settings.confidence_threshold_bits = f64::NAN.to_bits();
    c.sanitize();
    assert!(f64::from_bits(c.engine_settings.confidence_threshold_bits).is_nan());
    assert!(c.validate().is_err());
    let mut d = AppConfig::default();
    d.engine_settings.confidence_threshold_bits = f64::NAN.to_bits();
    assert_eq!(
        prepare_import(d).err(),
        Some("Config validation failed: Validation failed: confidence_threshold must be between 0.0 and 1.0".to_string())
    );
}

#[test]
fn sanitize_truncates_long_strings() {
    let mut c = AppConfig::default();
    c.engine_settings.idle_category = "x".repeat(150);
    c.api_keys.steamgrid = "k".repeat(250);
    c.api_keys.igdb_client = "c".repeat(120);
    c.sanitize();
    assert_eq!(c.engine_settings.idle_category.len(), 100);
    assert_eq!(c.api_keys.steamgrid.len(), 200);
    assert_eq!(c.api_keys.igdb_client.len(), 100);
    assert!(c.validate().is_ok());
}

#[test]
fn config_error_messages() {
    assert_eq!(ConfigError::Validation("x".into()).message(), "Validation failed: x");
    assert_eq!(ConfigError::Serialization("y".into()).message(), "Serialization failed: y");
    assert_eq!(ConfigError::Io("z".into()).message(), "IO error: z");
}

#[test]
fn prepare_import_sanitizes_before_validating() {
    let mut c = AppConfig::default();
    c.engine_settings.grace_period = 1000;
    c.engine_settings.spark_pin = "9".into();
    let out = prepare_import(c).unwrap();
    assert_eq!(out.engine_settings.grace_period, 300);
    assert_eq!(out.engine_settings.spark_pin, "0000");
}

#[test]
fn defaults_match_the_documented_values() {
    assert_eq!(default_idle_category(), "Just Chatting");
    assert_eq!(default_sb_port(), 8080);
    assert_eq!(default_scan_interval(), 5);
    assert_eq!(default_grace_period(), 15);
    assert_eq!(default_widget_poll_rate(), 3);
    assert_eq!(default_widget_fade_timer(), 15);
    assert_eq!(default_sb_action_name(), "UpdateCategory");
    assert_eq!(default_spark_pin(), "0000");
    assert_eq!(f64::from_bits(default_confidence_threshold()), 0.5);
    assert!(matches!(default_routing_mode(), RoutingMode::StreamerBot));
}

#[test]
fn widget_tokens_are_sixteen_alphanumerics_and_differ() {
    let a = default_widget_token();
    let b = default_widget_token();
    assert_eq!(a.len(), 16);
    assert!(a.chars().all(|c| c.is_ascii_alphanumeric()));
    assert_ne!(a, b);
}
