use statusforge::config::AppConfig;
use statusforge::library::ForgeDatabase;
use statusforge::server::{
    constant_time_eq, is_tls_connection, token_accepted, unexile_request, widget_file_ok, widget_mime,
    widget_settings, widget_token_matches,
};

#[test]
fn constant_time_eq_matches_regular_equality() {
    assert!(constant_time_eq(b"same-token", b"same-token"));
    assert!(!constant_time_eq(b"same-token", b"different"));
    assert!(!constant_time_eq(b"short", b"much-longer-value"));
    assert!(constant_time_eq(b"", b""));
}

#[test]
fn token_check_prefers_header_and_requires_a_configured_token() {
    assert!(token_accepted(Some("abc"), None, "abc"));
    assert!(token_accepted(None, Some("abc"), "abc"));
    assert!(!token_accepted(Some("bad"), Some("abc"), "abc"));
    assert!(!token_accepted(None, None, "abc"));
    assert!(!token_accepted(Some(""), None, ""));
    assert!(widget_token_matches("abc", "abc"));
    assert!(!widget_token_matches("", ""));
    assert!(!widget_token_matches("abd", "abc"));
}

#[test]
fn widget_files_and_mime_types() {
    assert!(widget_file_ok("overlay.html"));
    assert!(!widget_file_ok("../Config.json"));
    assert!(!widget_file_ok("a/b.png"));
    assert!(!widget_file_ok("a\\b.png"));
    assert_eq!(widget_mime("overlay.html"), "text/html; charset=utf-8");
    assert_eq!(widget_mime("cover.JPEG"), "application/octet-stream");
    assert_eq!(widget_mime("cover.jpeg"), "image/jpeg");
    assert_eq!(widget_mime("logo.png"), "image/png");
    assert_eq!(widget_mime("app.js"), "text/javascript; charset=utf-8");
    assert_eq!(widget_mime("noext"), "application/octet-stream");
}

#[test]
fn widget_settings_fall_back_without_config() {
    assert_eq!(widget_settings(None), (3, 15, "Just Chatting".to_string()));
    let mut c = AppConfig::default();
    c.engine_settings.widget_poll_rate = 7;
    c.engine_settings.idle_category = "Art".into();
    assert_eq!(widget_settings(Some(&c)), (7, 15, "Art".to_string()));
}

#[test]
fn unexile_request_refuses_blank_names() {
    let mut db = ForgeDatabase { delisted_apps: vec!["game.exe".into()], ..Default::default() };
    assert!(!unexile_request(&mut db, "   "));
    assert_eq!(db.delisted_apps.len(), 1);
    assert!(unexile_request(&mut db, " GAME.exe "));
    assert!(db.delisted_apps.is_empty());
}

#[test]
fn tls_connections_open_with_a_handshake_record() {
    assert!(is_tls_connection(&[0x16]));
    assert!(!is_tls_connection(&[b'G']));
    assert!(!is_tls_connection(&[]));
}
