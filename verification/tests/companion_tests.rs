use statusforge::blipy::{self, BlipyConfig};
use statusforge::host::{hostname_or_unknown, local_hostname};
use statusforge::spark::{self, detect_known_game, heartbeat_target, manual_push_result, GameInfo, SparkConfig};

#[test]
fn blipy_pin_must_be_four_digits() {
    let mut c = BlipyConfig::default();
    assert_eq!(c.pin, "0000");
    assert_eq!(c.set_pin("12a4".into()), Err("PIN must be exactly 4 digits".to_string()));
    assert_eq!(c.set_pin("123".into()), Err("PIN must be exactly 4 digits".to_string()));
    assert_eq!(c.set_pin("١٢٣٤".into()), Err("PIN must be exactly 4 digits".to_string()));
    assert_eq!(c.pin, "0000");
    assert_eq!(c.set_pin("4321".into()), Ok("PIN updated".to_string()));
    assert_eq!(c.pin, "4321");
}

#[test]
fn blipy_settings() {
    let mut c = BlipyConfig::default();
    assert_eq!(c.set_pairing_key("k".repeat(129)), Err("Pairing key too long (max 128 chars)".to_string()));
    assert_eq!(c.set_pairing_key("k".repeat(128)), Ok("Pairing key updated".to_string()));
    assert_eq!(c.set_scan_interval(0), "Scan interval set to 1s");
    assert_eq!(c.set_scan_interval(600), "Scan interval set to 60s");
    assert_eq!(c.scan_interval_secs, 60);
    assert!(!c.toggle_auto_push());
    c.scan_interval_secs = 0;
    assert_eq!(c.scan_interval(), 1);
}

#[test]
fn blipy_hub_goes_stale_after_thirty_seconds() {
    let mut s = blipy::init_state(BlipyConfig::default());
    assert!(!s.hostname.is_empty());
    assert_eq!(s.manual_push_message(0), "Pushed (no Hub discovered yet)");
    assert!(!s.on_announce("Other", "hub", 1_000));
    assert!(!s.on_announce("StatusForge_Hub", "", 1_000));
    assert!(s.hub.is_none());
    assert!(s.on_announce("StatusForge_Hub", "Desk", 1_000));
    assert!(!s.on_announce("StatusForge_Hub", "Desk", 2_000));
    assert_eq!(s.live_hub(31_999), Some("Desk".to_string()));
    assert_eq!(s.live_hub(32_000), None);
    assert_eq!(s.manual_push_message(10_000), "Pushed to Desk");
    assert!(s.on_announce("StatusForge_Hub", "Laptop", 3_000));
    s.record_scan(Some(("Hades".into(), "hades.exe".into())), 77);
    let g = s.current_game.clone().unwrap();
    assert!(g.is_playing && g.title == "Hades" && s.last_scan == 77);
    s.record_scan(None, 78);
    assert!(s.current_game.is_none());
}

#[test]
fn spark_settings_and_messages() {
    let mut c = SparkConfig::default();
    assert_eq!((c.pin.as_str(), c.hub_port, c.scan_interval_secs, c.auto_push), ("0000", 53735, 5, true));
    assert_eq!(c.set_pin("x".into()), "PIN updated");
    assert_eq!(c.set_hub_port(1234), "Hub port set to 1234");
    assert_eq!(c.set_scan_interval(0), "Scan interval set to 0s");
    assert!(!c.toggle_auto_push());
    assert_eq!(heartbeat_target(53735), "255.255.255.255:53735");
    assert_eq!(manual_push_result(Ok(())), Ok("Pushed to StatusForge".to_string()));
    assert_eq!(manual_push_result(Err("no route".into())), Err("Push failed: no route".to_string()));
    let mut s = spark::init_state();
    s.record_scan(Some(GameInfo { process: "hades.exe".into() }), true);
    assert!(s.connected);
}

#[test]
fn spark_reports_nothing_while_auto_push_is_off() {
    let mut s = spark::init_state();
    s.config.auto_push = true;
    s.record_scan(Some(GameInfo { process: "hades.exe".into() }), true);
    let r = s.tick_report();
    assert!(r.connected);
    assert_eq!(r.current_game.unwrap().process, "hades.exe");
    s.config.auto_push = false;
    let r = s.tick_report();
    assert!(!r.connected);
    assert!(r.current_game.is_none());
}

#[test]
fn spark_detects_known_games_by_process_name() {
    let names = |v: &[&str]| v.iter().map(|s| s.to_string()).collect::<Vec<_>>();
    assert!(detect_known_game(&names(&["svchost.exe", "notepad"])).is_none());
    let g = detect_known_game(&names(&["svchost.exe", "EldenRing.EXE", "hades.exe"])).unwrap();
    assert_eq!(g.process, "eldenring.exe");
    let g = detect_known_game(&names(&["hades"])).unwrap();
    assert_eq!(g.process, "hades");
    let g = detect_known_game(&names(&["Celeste.exe.exe"])).unwrap();
    assert_eq!(g.process, "celeste.exe.exe");
    assert!(detect_known_game(&names(&["hades2.exe"])).is_none());
}

#[test]
fn hostname_falls_back() {
    assert_eq!(hostname_or_unknown(None), "Unknown-PC");
    assert_eq!(hostname_or_unknown(Some("PC".into())), "PC");
}

#[test]
fn local_hostname_holds_no_nul() {
    let name = local_hostname();
    assert!(!name.contains('\0'));
}
