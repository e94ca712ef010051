use statusforge::library::{
    exile_app, find_library_key, merge_entry, register_detection, take_scan_entry, unexile,
    upsert_library_entry, FieldValue, ForgeDatabase, ForgeLibraryEntry,
};

fn text(s: &str) -> FieldValue {
    FieldValue::Text(s.to_string())
}

#[test]
fn merge_fills_only_empty_fields() {
    let existing = ForgeLibraryEntry {
        title: "Celeste".to_string(),
        developer: "User Set Dev".to_string(),
        cover_url: String::new(),
        ..Default::default()
    };
    let fetched = ForgeLibraryEntry {
        developer: "RAWG Dev".to_string(),
        cover_url: "http://sgdb/cover.jpg".to_string(),
        release_year: "2018".to_string(),
        ..Default::default()
    };
    let merged = merge_entry(existing, &fetched);
    assert_eq!(merged.developer, "User Set Dev");
    assert_eq!(merged.cover_url, "http://sgdb/cover.jpg");
    assert_eq!(merged.release_year, "2018");
    assert_eq!(merged.title, "Celeste");
}

#[test]
fn merge_never_fills_a_locked_field_even_when_empty() {
    let existing = ForgeLibraryEntry {
        title: "Celeste".to_string(),
        cover_url: String::new(),
        locked_fields: vec!["cover_url".to_string()],
        ..Default::default()
    };
    let fetched = ForgeLibraryEntry {
        cover_url: "http://sgdb/cover.jpg".to_string(),
        developer: "RAWG Dev".to_string(),
        ..Default::default()
    };
    let merged = merge_entry(existing, &fetched);
    assert_eq!(merged.cover_url, "");
    assert_eq!(merged.developer, "RAWG Dev");
}

#[test]
fn merge_twice_equals_merge_once() {
    let existing = ForgeLibraryEntry { title: "Hades".into(), genre: "Roguelike".into(), ..Default::default() };
    let fetched = ForgeLibraryEntry {
        genre: "Action".into(),
        developer: "Supergiant".into(),
        title: "ignored".into(),
        ..Default::default()
    };
    let once = merge_entry(existing, &fetched);
    let twice = merge_entry(once.clone(), &fetched);
    assert_eq!(once.genre, "Roguelike");
    assert_eq!(once.developer, "Supergiant");
    assert_eq!(once.title, "Hades");
    assert_eq!(twice.genre, once.genre);
    assert_eq!(twice.developer, once.developer);
    assert_eq!(twice.title, once.title);
}

#[test]
fn list_maps_custom_fields_and_preserves_existing() {
    let mut db = ForgeDatabase::default();
    db.insert_library_entry(
        "Celeste".to_string(),
        ForgeLibraryEntry {
            title: "Celeste".to_string(),
            cover_url: "http://x/cover.jpg".to_string(),
            ..Default::default()
        },
    );
    let body = vec![
        ("title".to_string(), text("Celeste")),
        ("custom_release_year".to_string(), text("2018")),
        ("custom_developer".to_string(), text("Maddy Makes Games")),
        ("custom_publisher".to_string(), text("Maddy Makes Games")),
        ("genre".to_string(), text("PLATFORMER")),
        ("not_a_real_field".to_string(), text("ignored")),
    ];
    let title = upsert_library_entry(&mut db, &body).unwrap();
    let e = db.library_entry(&title).unwrap();
    assert_eq!(e.release_year, "2018");
    assert_eq!(e.developer, "Maddy Makes Games");
    assert_eq!(e.publisher, "Maddy Makes Games");
    assert_eq!(e.genre, "PLATFORMER");
    assert_eq!(e.cover_url, "http://x/cover.jpg");

    let bad = vec![("genre".to_string(), text("X"))];
    assert!(upsert_library_entry(&mut db, &bad).is_err());
}

#[test]
fn upsert_errors_and_locks() {
    let mut db = ForgeDatabase::default();
    let blank = vec![("title".to_string(), text("   "))];
    assert_eq!(upsert_library_entry(&mut db, &blank), Err("title required".to_string()));
    let wrong = vec![("title".to_string(), text("Hades")), ("genre".to_string(), FieldValue::Other)];
    assert_eq!(upsert_library_entry(&mut db, &wrong), Err("invalid entry fields".to_string()));

    let body = vec![("title".to_string(), text(" Hades ")), ("cover_url".to_string(), text(""))];
    assert_eq!(upsert_library_entry(&mut db, &body), Ok("Hades".to_string()));
    let e = db.library_entry("Hades").unwrap().clone();
    assert_eq!(e.locked_fields, vec!["cover_url".to_string()]);
    // a later scan cannot refill the locked, empty cover
    let fetched = ForgeLibraryEntry { cover_url: "http://c.jpg".into(), genre: "Action".into(), ..Default::default() };
    let merged = merge_entry(e, &fetched);
    assert_eq!(merged.cover_url, "");
    assert_eq!(merged.genre, "Action");
}

#[test]
fn refused_upsert_leaves_the_library_as_it_was() {
    let mut db = ForgeDatabase::default();
    db.insert_library_entry(
        "Hades".into(),
        ForgeLibraryEntry { title: "Hades".into(), genre: "Roguelike".into(), ..Default::default() },
    );
    let wrong = vec![("title".to_string(), text("hades")), ("genre".to_string(), FieldValue::Other)];
    assert_eq!(upsert_library_entry(&mut db, &wrong), Err("invalid entry fields".to_string()));
    assert_eq!(db.library_entry("Hades").unwrap().genre, "Roguelike");
    assert_eq!(db.library.len(), 1);
}

#[test]
fn upsert_lands_on_the_same_game_ignoring_case_and_spaces() {
    let mut db = ForgeDatabase::default();
    db.insert_library_entry(
        "Hollow Knight".into(),
        ForgeLibraryEntry { title: "Hollow Knight".into(), genre: "Metroidvania".into(), ..Default::default() },
    );
    assert_eq!(find_library_key(&db, "  hollow KNIGHT "), Some("Hollow Knight".to_string()));
    assert_eq!(find_library_key(&db, "Hollow Knight"), Some("Hollow Knight".to_string()));
    assert_eq!(find_library_key(&db, "Silksong"), None);
    let body = vec![("title".to_string(), text("hollow knight")), ("developer".to_string(), text("Team Cherry"))];
    assert_eq!(upsert_library_entry(&mut db, &body), Ok("hollow knight".to_string()));
    assert!(db.library_entry("Hollow Knight").is_none());
    let e = db.library_entry("hollow knight").unwrap();
    assert_eq!(e.genre, "Metroidvania");
    assert_eq!(e.developer, "Team Cherry");
}

#[test]
fn unexile_removes_case_insensitive() {
    let mut db = ForgeDatabase {
        delisted_apps: vec!["celeste.exe".to_string(), "other.exe".to_string()],
        ..Default::default()
    };
    unexile(&mut db, "Celeste.EXE");
    assert_eq!(db.delisted_apps, vec!["other.exe".to_string()]);
}

#[test]
fn unexile_ignores_case_of_stored_names() {
    let mut db = ForgeDatabase {
        delisted_apps: vec!["Celeste.exe".to_string(), "other.exe".to_string(), "CELESTE.EXE".to_string()],
        ..Default::default()
    };
    unexile(&mut db, "celeste.exe");
    assert_eq!(db.delisted_apps, vec!["other.exe".to_string()]);
}

#[test]
fn exile_drops_from_library_and_delists_once() {
    let mut db = ForgeDatabase::default();
    db.insert_library_entry("Hades".into(), ForgeLibraryEntry { title: "Hades".into(), ..Default::default() });
    assert_eq!(exile_app(&mut db, "  "), Err("No game title provided".to_string()));
    assert_eq!(exile_app(&mut db, " Hades "), Ok("Exiled \"Hades\"".to_string()));
    assert!(db.library_entry("Hades").is_none());
    assert_eq!(db.delisted_apps, vec!["hades".to_string()]);
    assert_eq!(exile_app(&mut db, "HADES"), Ok("Exiled \"HADES\"".to_string()));
    assert_eq!(db.delisted_apps, vec!["hades".to_string()]);
}

#[test]
fn register_detection_adds_a_bare_entry_once() {
    let mut db = ForgeDatabase::default();
    assert_eq!(register_detection(&mut db, "Hades", "hades.exe"), (true, true));
    let e = db.library_entry("Hades").unwrap();
    assert_eq!(e.executables, "hades.exe");
    assert_eq!(register_detection(&mut db, "Hades", "other.exe"), (false, true));
    assert_eq!(db.library_entry("Hades").unwrap().executables, "hades.exe");
}

#[test]
fn read_after_write_and_remove() {
    let mut db = ForgeDatabase::new();
    db.insert_library_entry("A".into(), ForgeLibraryEntry { genre: "g1".into(), ..Default::default() });
    db.insert_library_entry("B".into(), ForgeLibraryEntry { genre: "g2".into(), ..Default::default() });
    db.insert_library_entry("A".into(), ForgeLibraryEntry { genre: "g3".into(), ..Default::default() });
    assert_eq!(db.library_entry("A").unwrap().genre, "g3");
    assert_eq!(db.library_entry("B").unwrap().genre, "g2");
    assert_eq!(db.remove_library_entry("A").unwrap().genre, "g3");
    assert!(db.library_entry("A").is_none());
    assert!(db.remove_library_entry("A").is_none());
    db.insert_listed_app("game.exe".into(), "Game".into());
    assert_eq!(db.listed_title("game.exe"), Some(&"Game".to_string()));
}

#[test]
fn take_scan_entry_takes_the_matching_entry() {
    let mut db = ForgeDatabase::default();
    db.insert_library_entry(
        "Celeste".into(),
        ForgeLibraryEntry { title: "Celeste".into(), genre: "Platformer".into(), ..Default::default() },
    );
    assert!(take_scan_entry(&mut db, "   ").is_none());
    let (t, e) = take_scan_entry(&mut db, " celeste ").unwrap();
    assert_eq!(t, "celeste");
    assert_eq!(e.title, "celeste");
    assert_eq!(e.genre, "Platformer");
    assert!(db.library_entry("Celeste").is_none());
    let (t2, e2) = take_scan_entry(&mut db, "New Game").unwrap();
    assert_eq!(t2, "New Game");
    assert_eq!(e2.genre, "");
}

#[test]
fn unexile_undoes_exile() {
    let mut db = ForgeDatabase {
        delisted_apps: vec!["other.exe".to_string()],
        ..Default::default()
    };
    assert_eq!(exile_app(&mut db, " Hades "), Ok("Exiled \"Hades\"".to_string()));
    assert_eq!(db.delisted_apps, vec!["other.exe".to_string(), "hades".to_string()]);
    unexile(&mut db, "Hades");
    assert_eq!(db.delisted_apps, vec!["other.exe".to_string()]);
}
