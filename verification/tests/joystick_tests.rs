use statusforge::joystick::{
    attempt_outcome, category_key, chat_bot_mode, default_announce_templates,
    default_game_reply_templates, extract_chat_text, fill_template, first_attempt_step,
    game_changed, game_reply_meta, init_state, is_game_command, parse_game_meta, render_template,
    test_game, test_message, test_push_report, test_push_title, ChatBotMode, GameMeta,
    JoystickBotConfig, TokenStep,
};

fn meta(title: &str) -> GameMeta {
    GameMeta { title: title.into(), genre: "Roguelike".into(), developer: "Supergiant".into(), release_year: "2020".into() }
}

#[test]
fn defaults() {
    let c = JoystickBotConfig::default();
    assert!(!c.category_push_enabled && c.chat_announce_enabled && !c.chat_bot_enabled);
    assert_eq!(c.poll_interval_secs, 10);
    assert_eq!(c.announce_templates.len(), 5);
    assert_eq!(default_announce_templates()[0], "🎮 Now playing: {title}");
    assert_eq!(default_game_reply_templates()[3], "We're deep in {title} ({genre}) right now");
}

#[test]
fn templates_fill_every_placeholder() {
    let g = meta("Hades");
    assert_eq!(
        fill_template("On the menu now: {title}, a {genre} game by {developer} ({release_year}) {title}", &g),
        "On the menu now: Hades, a Roguelike game by Supergiant (2020) Hades"
    );
    assert_eq!(render_template(&[], &g), "Now playing: Hades");
    let ts = vec!["A {title}".to_string(), "B {title}".to_string()];
    let r = render_template(&ts, &g);
    assert!(r == "A Hades" || r == "B Hades");
}

#[test]
fn template_edits_drop_blank_lines() {
    let mut c = JoystickBotConfig::default();
    c.set_announce_templates(vec!["  ".into(), "Hi {title}".into(), "".into(), "\t\n".into(), "Yo".into()]);
    assert_eq!(c.announce_templates, vec!["Hi {title}".to_string(), "Yo".to_string()]);
    c.set_game_reply_templates(vec![" ".into()]);
    assert!(c.game_reply_templates.is_empty());
    assert_eq!(c.announce_templates.len(), 2);
}

#[test]
fn toggles_and_poll_interval() {
    let mut c = JoystickBotConfig::default();
    assert!(c.toggle_category_push());
    assert!(!c.toggle_chat_announce());
    assert!(c.toggle_chat_bot());
    assert!(!c.toggle_chat_bot());
    c.poll_interval_secs = 1;
    assert_eq!(c.poll_interval(), 3);
    c.poll_interval_secs = 500;
    assert_eq!(c.poll_interval(), 120);
    c.poll_interval_secs = 30;
    assert_eq!(c.poll_interval(), 30);
}

#[test]
fn status_answers_become_games() {
    assert_eq!(parse_game_meta(false, Some("Hades"), None, None, None), None);
    let g = parse_game_meta(true, Some("  Hades "), Some("Roguelike"), None, Some("2020")).unwrap();
    assert_eq!(g, GameMeta { title: "Hades".into(), genre: "Roguelike".into(), developer: "".into(), release_year: "2020".into() });
    let g = parse_game_meta(true, Some("   "), None, None, None).unwrap();
    assert_eq!(g.title, "Just Chatting");
    let g = parse_game_meta(true, None, None, None, None).unwrap();
    assert_eq!(g.title, "Just Chatting");
}

#[test]
fn polling_announces_a_change_once() {
    let mut s = init_state(JoystickBotConfig::default(), Some("tok".into()), None, None);
    assert_eq!(s.username, "");
    let a = s.poll_update(true, Some(meta("Hades")));
    assert!(a.changed && a.announce && a.push_category.is_none());
    assert!(s.main_app_reachable);
    let a = s.poll_update(true, Some(meta("Hades")));
    assert!(!a.changed && !a.announce);
    s.config.category_push_enabled = true;
    let a = s.poll_update(false, Some(meta("Celeste")));
    assert_eq!(a.push_category, Some("Celeste".to_string()));
    let a = s.poll_update(false, None);
    assert!(a.changed && !a.announce && a.push_category.is_none());
    s.disconnect();
    let a = s.poll_update(true, Some(meta("Hades")));
    assert!(a.changed && !a.announce && a.push_category.is_none());
    assert!(!game_changed(&Some(meta("X")), &Some(meta("X"))));
    assert!(game_changed(&None, &Some(meta("X"))));
}

#[test]
fn chat_commands() {
    assert!(is_game_command("  !GAME "));
    assert!(!is_game_command("!games"));
    assert_eq!(extract_chat_text(Some("a"), Some("b"), Some("c")), Some("a".to_string()));
    assert_eq!(extract_chat_text(None, Some("b"), Some("c")), Some("b".to_string()));
    assert_eq!(extract_chat_text(None, None, Some("c")), Some("c".to_string()));
    assert_eq!(extract_chat_text(None, None, None), None);
    assert_eq!(game_reply_meta(&None).title, "nothing right now");
    assert_eq!(game_reply_meta(&Some(meta("Hades"))), meta("Hades"));
    assert_eq!(chat_bot_mode(false, true), ChatBotMode::Disabled);
    assert_eq!(chat_bot_mode(true, true), ChatBotMode::Run);
    assert_eq!(chat_bot_mode(true, false), ChatBotMode::NoToken);
}

#[test]
fn category_key_prefers_existing_keys() {
    let keys = |v: &[&str]| v.iter().map(|s| s.to_string()).collect::<Vec<_>>();
    assert_eq!(category_key(&keys(&["title", "game_name", "game"])), "game");
    assert_eq!(category_key(&keys(&["genre"])), "genre");
    assert_eq!(category_key(&keys(&["title"])), "category");
    assert_eq!(category_key(&keys(&["genre", "category"])), "category");
}

#[test]
fn token_retry_steps() {
    assert_eq!(first_attempt_step(401), TokenStep::Refresh);
    assert_eq!(first_attempt_step(204), TokenStep::Done);
    assert_eq!(first_attempt_step(500), TokenStep::Failed);
    assert_eq!(attempt_outcome(200, "200 OK", true), Ok(()));
    assert_eq!(attempt_outcome(404, "404 Not Found", false), Err("request failed: 404 Not Found".to_string()));
    assert_eq!(
        attempt_outcome(401, "401 Unauthorized", true),
        Err("still failing after refresh: 401 Unauthorized".to_string())
    );
}

#[test]
fn test_push_pieces() {
    assert_eq!(test_push_title(Some("  ".into())), "Test Category");
    assert_eq!(test_push_title(None), "Test Category");
    assert_eq!(test_push_title(Some(" Hades ".into())), " Hades ");
    let g = test_game("X".into());
    assert_eq!((g.genre.as_str(), g.developer.as_str(), g.release_year.as_str()), ("Test Genre", "Test Developer", "2024"));
    assert_eq!(test_message("hi"), "[Test] hi");
    assert_eq!(
        test_push_report(&Ok(())),
        "Category push: skipped (not supported by Joystick.tv yet)\nChat message: OK"
    );
    assert_eq!(
        test_push_report(&Err("boom".into())),
        "Category push: skipped (not supported by Joystick.tv yet)\nChat message: FAILED — boom"
    );
}
