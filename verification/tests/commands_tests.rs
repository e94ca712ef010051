use statusforge::commands::{
    check_webhook_url, choose_base_dir, error_log_file_name, keychain_token_list,
    kick_sync_check, kick_validate_check, log_tail, login_client_check, memory_mebibytes,
    parse_log_level, path_within, present_tokens, secret_migration_plan, stats_refresh_due,
    twitch_validate_check, widget_token_or_unknown, BaseDirChoice, ConfigSection, LogLevel,
};

fn strs(v: &[&str]) -> Vec<String> {
    v.iter().map(|s| s.to_string()).collect()
}

fn pairs(v: &[(&str, &str)]) -> Vec<(String, String)> {
    v.iter().map(|(a, b)| (a.to_string(), b.to_string())).collect()
}

#[test]
fn base_dir_choice() {
    assert_eq!(choose_base_dir(true, Some(true)), BaseDirChoice::ResourceDir);
    assert_eq!(choose_base_dir(false, Some(true)), BaseDirChoice::ParentDir);
    assert_eq!(choose_base_dir(false, Some(false)), BaseDirChoice::ResourceDir);
    assert_eq!(choose_base_dir(false, None), BaseDirChoice::ResourceDir);
}

#[test]
fn paths_must_stay_under_the_base() {
    assert!(path_within(&strs(&["/", "app", "Config.json"]), &strs(&["/", "app"])));
    assert!(path_within(&strs(&["/", "app"]), &strs(&["/", "app"])));
    assert!(!path_within(&strs(&["/", "etc", "passwd"]), &strs(&["/", "app"])));
    assert!(!path_within(&strs(&["/", "application"]), &strs(&["/", "app"])));
    assert!(!path_within(&strs(&["/"]), &strs(&["/", "app"])));
}

#[test]
fn migration_moves_non_empty_secrets_in_order() {
    let b = pairs(&[("kick_token", "k1"), ("twitch_token", "t1"), ("twitch_refresh", ""), ("routing_mode", "native")]);
    let a = pairs(&[("steamgrid", "sg"), ("igdb_token", "it")]);
    let plan = secret_migration_plan(&b, Some(&a));
    let got: Vec<(ConfigSection, &str, &str, &str)> =
        plan.iter().map(|m| (m.section, m.json_key.as_str(), m.keychain_name.as_str(), m.value.as_str())).collect();
    assert_eq!(
        got,
        vec![
            (ConfigSection::Broadcaster, "twitch_token", "twitch_access_token", "t1"),
            (ConfigSection::Broadcaster, "kick_token", "kick_access_token", "k1"),
            (ConfigSection::ApiKeys, "igdb_token", "igdb_api_token", "it"),
            (ConfigSection::ApiKeys, "steamgrid", "steamgrid_api_key", "sg"),
        ]
    );
    assert!(secret_migration_plan(&Vec::new(), None).is_empty());
}

#[test]
fn frontend_tokens() {
    assert_eq!(keychain_token_list().len(), 12);
    let reads = vec![
        ("twitch_token".to_string(), Some("t".to_string())),
        ("kick_token".to_string(), Some("".to_string())),
        ("rawg".to_string(), None),
        ("steamgrid".to_string(), Some("s".to_string())),
    ];
    assert_eq!(present_tokens(&reads), pairs(&[("twitch_token", "t"), ("steamgrid", "s")]));
}

#[test]
fn command_checks() {
    assert_eq!(login_client_check("", true), Err("Kick client ID not configured".to_string()));
    assert_eq!(login_client_check("", false), Err("Twitch client ID not configured".to_string()));
    assert_eq!(login_client_check("id", false), Ok(()));
    assert_eq!(twitch_validate_check("", "c"), Err("No Twitch access token to validate".to_string()));
    assert_eq!(twitch_validate_check("t", ""), Err("Twitch Client ID is required to validate a token".to_string()));
    assert_eq!(twitch_validate_check("t", "c"), Ok(()));
    assert_eq!(kick_validate_check(""), Err("No Kick access token to validate".to_string()));
    assert_eq!(kick_sync_check(""), Err("No Kick access token — authenticate first".to_string()));
    assert_eq!(kick_sync_check("t"), Ok(()));
    assert_eq!(widget_token_or_unknown(None), "Unknown");
    assert_eq!(widget_token_or_unknown(Some("abc")), "abc");
}

#[test]
fn log_levels_and_webhooks() {
    assert_eq!(parse_log_level("warn"), Ok(LogLevel::Warn));
    assert_eq!(parse_log_level("debug"), Ok(LogLevel::Debug));
    assert_eq!(parse_log_level("WARN"), Err("Unknown log level: WARN".to_string()));
    assert_eq!(check_webhook_url("https://example.com/hook"), Ok(()));
    assert_eq!(check_webhook_url("http://x"), Ok(()));
    assert_eq!(check_webhook_url("ftp://x"), Err("Webhook URL must be http(s)".to_string()));
    assert_eq!(check_webhook_url("http:/x"), Err("Webhook URL must be http(s)".to_string()));
}

#[test]
fn log_tail_and_stats() {
    let lines = strs(&["a", "b", "c"]);
    assert_eq!(log_tail(&lines, 2), (strs(&["b", "c"]), 3));
    assert_eq!(log_tail(&lines, 10), (lines.clone(), 3));
    assert_eq!(log_tail(&lines, 0), (Vec::new(), 3));
    assert!(stats_refresh_due(None));
    assert!(!stats_refresh_due(Some(899)));
    assert!(stats_refresh_due(Some(900)));
    assert_eq!(memory_mebibytes(3 * 1024 * 1024 + 5), 3);
    assert_eq!(error_log_file_name(1700000000), "statusforge_errors_1700000000.log");
}
