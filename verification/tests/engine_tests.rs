use statusforge::config::AppConfig;
use statusforge::engine::{
    build_status, engine_start, engine_status, loop_settings, EngineAction, EngineLoopState,
    NativeEngineState,
};
use statusforge::library::{ForgeDatabase, ForgeLibraryEntry};
use statusforge::scanner::GameDetection;

fn game(title: &str) -> GameDetection {
    GameDetection { title: title.to_string(), process: "test.exe".to_string(), platform: "Test".to_string() }
}

#[test]
fn state_update_then_push_status_never_deadlocks() {
    let mut state = NativeEngineState::new();
    let g = game("Test Game");
    state.set_playing(&g, 1_000);
    let p = build_status(&state, None, None, None);
    assert_eq!(p.game_title, "Test Game");
    assert_eq!(p.process_name, "test.exe");
    assert!(p.is_playing);
    state.clear_playing();
    let p = build_status(&state, None, None, None);
    assert_eq!(p.game_title, "");
    assert!(!p.is_playing);
    assert_eq!(p.start_time_nanos, 0);
}

#[test]
fn a_game_is_announced_once_and_dropped_after_grace() {
    let sec = 1_000_000_000u64;
    let mut s = EngineLoopState::new();
    let g = game("Hades");
    assert!(matches!(s.step(Some(&g), 0, 15), EngineAction::NewGame(ref t) if t == "Hades"));
    assert!(matches!(s.step(Some(&g), sec, 15), EngineAction::Idle));
    assert!(matches!(s.step(None, 2 * sec, 15), EngineAction::Idle));
    assert!(matches!(s.step(None, 17 * sec, 15), EngineAction::Idle));
    assert!(matches!(s.step(None, 17 * sec + 1, 15), EngineAction::ClearGame));
    assert!(s.current_game.is_none());
    assert!(matches!(s.step(None, 40 * sec, 15), EngineAction::Idle));
}

#[test]
fn refocusing_resets_the_grace_timer() {
    let sec = 1_000_000_000u64;
    let mut s = EngineLoopState::new();
    let g = game("Hades");
    s.step(Some(&g), 0, 15);
    s.step(None, sec, 15);
    s.step(Some(&g), 10 * sec, 15);
    assert!(s.lost_focus_nanos.is_none());
    assert!(matches!(s.step(None, 20 * sec, 15), EngineAction::Idle));
    assert!(matches!(s.step(None, 30 * sec, 15), EngineAction::Idle));
    assert!(matches!(s.step(None, 36 * sec, 15), EngineAction::ClearGame));
    let other = game("Celeste");
    assert!(matches!(s.step(Some(&other), 37 * sec, 15), EngineAction::NewGame(ref t) if t == "Celeste"));
}

#[test]
fn loop_settings_fall_back_without_config() {
    let s = loop_settings(None);
    assert_eq!((s.scan_interval, s.grace_period, s.idle_category.as_str(), s.strict), (5, 15, "Just Chatting", false));
    let mut c = AppConfig::default();
    c.engine_settings.grace_period = 30;
    c.engine_settings.strict_forge_mode = true;
    let s = loop_settings(Some(&c));
    assert_eq!(s.grace_period, 30);
    assert!(s.strict);
    assert_eq!(s.scanner.ram_threshold_mb, c.engine_settings.ram_threshold);
}

#[test]
fn status_is_enriched_from_the_library_and_idle_category() {
    let mut db = ForgeDatabase::default();
    db.insert_library_entry(
        "Hades".into(),
        ForgeLibraryEntry { genre: "Roguelike".into(), cover_url: "http://h.jpg".into(), release_year: "2020".into(), ..Default::default() },
    );
    db.insert_library_entry(
        "Just Chatting".into(),
        ForgeLibraryEntry { cover_url: "http://chat.jpg".into(), ..Default::default() },
    );
    let mut c = AppConfig::default();
    c.engine_settings.widget_fade_timer = 9;
    let mut state = NativeEngineState::new();
    state.set_playing(&game(" hades "), 5);
    let p = build_status(&state, Some(&c), Some(&db), None);
    assert_eq!(p.genre, "Roguelike");
    assert_eq!(p.release_date, "2020");
    assert_eq!(p.fade_timer, 9);
    state.clear_playing();
    let p = build_status(&state, Some(&c), Some(&db), None);
    assert_eq!(p.cover_url, "http://chat.jpg");
    assert_eq!(p.genre, "");
    let p = build_status(&state, None, Some(&db), Some("Screen Recording permission is missing".to_string()));
    assert_eq!(p.cover_url, "");
    assert_eq!(p.fade_timer, 15);
    assert!(p.running);
    assert_eq!(p.permission_error.as_deref(), Some("Screen Recording permission is missing"));
    let st = engine_status(true, &p);
    assert!(st.running);
    assert_eq!(st.cover_url, "");
}

#[test]
fn engine_start_is_idempotent() {
    assert_eq!(engine_start(false), (true, "Native engine loop started".to_string()));
    assert_eq!(engine_start(true), (false, "Native engine loop already running".to_string()));
}
