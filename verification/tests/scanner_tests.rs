use statusforge::scanner::{
    confidence, evaluate, extract_game_name_from_path, ActiveWindow, ForgeKnowledge,
    ProcessSnapshot, ScannerConfig,
};

fn knowledge() -> ForgeKnowledge {
    ForgeKnowledge {
        listed_apps: vec![("vip.exe".to_string(), "VIP Game".to_string())],
        delisted_apps: vec!["hidden.exe".to_string()],
        strict_mode: false,
        config: ScannerConfig::default(),
    }
}

fn window(title: &str, fullscreen: bool) -> ActiveWindow {
    ActiveWindow { pid: 42, title: title.to_string(), is_fullscreen: fullscreen }
}

fn process(name: &str, path: &str, mb: u64) -> ProcessSnapshot {
    ProcessSnapshot { name: name.to_string(), exe_path: path.to_string(), memory_bytes: mb * 1024 * 1024 }
}

fn detect(kw: &ForgeKnowledge, w: &ActiveWindow, p: &ProcessSnapshot, files: &[&str], steam: Option<u32>) -> Option<(String, String, String)> {
    let files: Vec<String> = files.iter().map(|s| s.to_string()).collect();
    evaluate(kw, w, p, &files, steam).map(|d| (d.title, d.process, d.platform))
}

#[test]
fn listed_apps_win_and_strict_mode_stops_the_rest() {
    let kw = knowledge();
    let got = detect(&kw, &window("", false), &process("VIP.EXE", "c:/windows/vip.exe", 1), &[], None);
    assert_eq!(got, Some(("VIP Game".into(), "vip.exe".into(), "The Forge".into())));
    let mut strict = knowledge();
    strict.strict_mode = true;
    let got = detect(&strict, &window("Big Game", true), &process("big.exe", "d:/games/big.exe", 4000), &["UnityPlayer.dll"], None);
    assert_eq!(got, None);
    let got = detect(&kw, &ActiveWindow { pid: 0, title: "x".into(), is_fullscreen: true }, &process("vip.exe", "", 1), &[], None);
    assert_eq!(got, None);
}

#[test]
fn hard_kills() {
    let kw = knowledge();
    let w = window("Game", true);
    assert_eq!(detect(&kw, &w, &process("hidden.exe", "d:/g/hidden.exe", 4000), &["unityplayer.dll"], None), None);
    assert_eq!(detect(&kw, &w, &process("Chrome.exe", "d:/g/chrome.exe", 4000), &[], None), None);
    assert_eq!(detect(&kw, &w, &process("game.exe", "C:\\Windows\\game.exe", 4000), &[], None), None);
    assert_eq!(detect(&kw, &window("Stream - Google Chrome", true), &process("game.exe", "d:/g/game.exe", 4000), &[], None), None);
    assert_eq!(detect(&kw, &window("Speedrun - YouTube", true), &process("game.exe", "d:/g/game.exe", 4000), &["unityplayer.dll"], None), None);
    assert_eq!(detect(&kw, &w, &process("game.exe", "d:/g/game.exe", 10), &[], None), None);
    let mut bypass = knowledge();
    bypass.config.process_filter_bypass = true;
    assert!(detect(&bypass, &w, &process("hidden.exe", "d:/g/hidden.exe", 4000), &["unityplayer.dll"], None).is_some());
}

#[test]
fn steam_ticket_and_confidence() {
    let kw = knowledge();
    let got = detect(&kw, &window("", false), &process("hades.exe", "d:/steamapps/common/hades/hades.exe", 500), &[], Some(1145360));
    assert_eq!(got, Some(("hades".into(), "hades.exe".into(), "Steam Registry".into())));
    let got = detect(&kw, &window("Celeste", true), &process("celeste.exe", "d:/g/celeste.exe", 500), &[], None);
    assert_eq!(got, Some(("Celeste".into(), "celeste.exe".into(), "Standalone/DRM-Free".into())));
    let got = detect(&kw, &window("", true), &process("tool.exe", "d:/g/tool.exe", 80), &[], None);
    assert_eq!(got, None);
    assert_eq!(f64::from_bits(confidence(true, true, true, true)), 0.4 + 0.3 + 0.2 + 0.1);
    assert_eq!(f64::from_bits(confidence(false, true, true, false)), 0.0 + 0.3 + 0.2);
    assert_eq!(f64::from_bits(confidence(true, false, false, true)), 0.4 + 0.1);
}

#[test]
fn game_names_from_paths() {
    assert_eq!(
        extract_game_name_from_path("C:\\Program Files\\Steam\\steamapps\\common\\Hollow_Knight\\hollow_knight.exe"),
        "Hollow Knight"
    );
    assert_eq!(extract_game_name_from_path("/home/u/games/Celeste/bin/x64/Celeste.bin.x86_64"), "Celeste");
    assert_eq!(extract_game_name_from_path("game.exe"), "game.exe");
    assert_eq!(extract_game_name_from_path("D:/Games/Super_Meat_Boy/Binaries/Win64/SMB.exe"), "Super Meat Boy");
    assert_eq!(extract_game_name_from_path("C:/steamapps/COMMON"), "steamapps");
    assert_eq!(extract_game_name_from_path("/bin/ /x.exe"), " ");
}
