use statusforge::config::{AppConfig, RoutingMode};
use statusforge::library::{ForgeDatabase, ForgeLibraryEntry};
use statusforge::pusher::{
    library_twitch_id, parse_i64, push_next, push_outcome, push_targets, resolve_kick_id,
    twitch_game_from_lookup, PushNext, PushOutcome, PushPhase,
};

fn db_with(title: &str, twitch_id: &str, kick_id: &str) -> ForgeDatabase {
    let mut db = ForgeDatabase::default();
    db.insert_library_entry(
        title.to_string(),
        ForgeLibraryEntry {
            title: title.to_string(),
            twitch_id: twitch_id.to_string(),
            kick_id: kick_id.to_string(),
            ..Default::default()
        },
    );
    db
}

#[test]
fn twitch_id_prefers_library_and_skips_empty() {
    let db = db_with("Hades", "12345", "");
    assert_eq!(library_twitch_id(&db, "Hades"), Some("12345".to_string()));
    let db = db_with("Hades", "  ", "");
    assert_eq!(library_twitch_id(&db, "Hades"), None);
    assert_eq!(library_twitch_id(&db, "Unknown Game"), None);
}

#[test]
fn kick_id_prefers_library_then_map_case_insensitive() {
    let map = vec![
        ("Just Chatting".to_string(), "15".to_string()),
        ("Hades".to_string(), "777".to_string()),
    ];
    let db = db_with("Hades", "", "42");
    assert_eq!(resolve_kick_id(&db, &map, "Hades"), Some(42));
    let db = db_with("Hades", "", "");
    assert_eq!(resolve_kick_id(&db, &map, "hades"), Some(777));
    assert_eq!(resolve_kick_id(&db, &map, "just chatting"), Some(15));
    assert_eq!(resolve_kick_id(&db, &map, "Obscure Indie"), None);
    let db = db_with("Weird", "", "abc");
    assert_eq!(resolve_kick_id(&db, &map, "Weird"), None);
}

#[test]
fn library_ids_are_trimmed() {
    let db = db_with("Hades", " 123 ", " 77 ");
    assert_eq!(library_twitch_id(&db, "Hades"), Some("123".to_string()));
    assert_eq!(resolve_kick_id(&db, &Vec::new(), "Hades"), Some(77));
}

#[test]
fn parse_i64_follows_str_parse() {
    for s in ["0", "42", "-17", "+5", "9223372036854775807", "-9223372036854775808", "", "-", "+", "12a", " 1", "9223372036854775808", "-9223372036854775809", "007"] {
        assert_eq!(parse_i64(s), s.parse::<i64>().ok(), "input {:?}", s);
    }
}

#[test]
fn push_targets_need_native_routing_and_credentials() {
    let mut c = AppConfig::default();
    c.broadcaster.twitch_token = "t".into();
    c.broadcaster.twitch_broadcaster_id = "b".into();
    c.broadcaster.kick_token = "k".into();
    let t = push_targets(&c);
    assert!(!t.twitch && !t.kick);
    c.broadcaster.routing_mode = RoutingMode::Native;
    let t = push_targets(&c);
    assert!(t.twitch && t.kick);
    c.broadcaster.twitch_broadcaster_id.clear();
    c.broadcaster.kick_token.clear();
    let t = push_targets(&c);
    assert!(!t.twitch && !t.kick);
}

#[test]
fn push_retries_once_after_401() {
    assert_eq!(push_outcome(204), PushOutcome::Done);
    assert_eq!(push_outcome(401), PushOutcome::Unauthorized);
    assert_eq!(push_outcome(500), PushOutcome::Failed);
    assert_eq!(push_outcome(429), PushOutcome::Done);
    assert_eq!(push_next(PushPhase::First, push_outcome(429)), PushNext::Finished);
    assert_eq!(push_next(PushPhase::First, push_outcome(401)), PushNext::RefreshAndRetry);
    assert_eq!(push_next(PushPhase::Retry, push_outcome(401)), PushNext::GiveUp);
    assert_eq!(push_next(PushPhase::Retry, push_outcome(200)), PushNext::Finished);
    assert_eq!(push_next(PushPhase::First, push_outcome(404)), PushNext::GiveUp);
}

#[test]
fn twitch_lookup_skips_empty_ids() {
    assert_eq!(twitch_game_from_lookup(Some("509658")), Some("509658".to_string()));
    assert_eq!(twitch_game_from_lookup(Some("")), None);
    assert_eq!(twitch_game_from_lookup(None), None);
}
