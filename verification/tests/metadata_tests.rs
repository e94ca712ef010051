use statusforge::config::{ApiKeys, BroadcasterConfig};
use statusforge::library::ForgeLibraryEntry;
use statusforge::metadata::{
    combine_scan, gog_entry, gog_release_year, gog_search_url, igdb_cover_url, igdb_entry,
    igdb_search_body, igdb_token_from, igdb_token_url, kick_id_from, rawg_entry, rawg_search_url,
    scan_plan, sgdb_grids_url, sgdb_logos_url, sgdb_search_url, steam_details_check,
    steam_details_url, steam_entry, steam_release_year, steam_search_url, twitch_id_from,
    IgdbCompany, SgdbArt, SourceResults,
};

fn no_results() -> SourceResults {
    SourceResults { rawg: None, igdb: None, steam: None, gog: None, sgdb: None, twitch_id: None, kick_id: None }
}

#[test]
fn request_urls_are_percent_encoded() {
    assert_eq!(
        rawg_search_url("k&y", "Half-Life 2: Episode_One~"),
        "https://api.rawg.io/api/games?key=k%26y&search=Half-Life%202%3A%20Episode_One~&page_size=1"
    );
    assert_eq!(steam_search_url("Café"), "https://store.steampowered.com/api/storesearch/?term=Caf%C3%A9&l=english&cc=US");
    assert_eq!(gog_search_url("The Witcher 3"), "https://catalog.gog.com/v1/catalog?limit=1&query=like:The%20Witcher%203");
    assert_eq!(sgdb_search_url("a/b"), "https://www.steamgriddb.com/api/v2/search/autocomplete/a%2Fb");
    assert_eq!(
        igdb_token_url("id 1", "s+cret"),
        "https://id.twitch.tv/oauth2/token?client_id=id%201&client_secret=s%2Bcret&grant_type=client_credentials"
    );
    assert_eq!(steam_details_url(504230), "https://store.steampowered.com/api/appdetails?appids=504230");
    assert_eq!(sgdb_grids_url(7), "https://www.steamgriddb.com/api/v2/grids/game/7?dimensions=600x900");
    assert_eq!(sgdb_logos_url(0), "https://www.steamgriddb.com/api/v2/logos/game/0");
    assert_eq!(igdb_cover_url("co1abc"), "https://images.igdb.com/igdb/image/upload/t_cover_big/co1abc.jpg");
}

#[test]
fn igdb_body_strips_quotes_and_backslashes() {
    assert_eq!(
        igdb_search_body("Say \"Hi\" \\o/"),
        "search \"Say Hi o/\"; fields name,genres.name,involved_companies.company.name,involved_companies.developer,involved_companies.publisher,first_release_date,cover.image_id; limit 1;"
    );
}

#[test]
fn rawg_year_is_the_first_four_characters() {
    let e = rawg_entry("2018-01-25", "Platformer", "Maddy", "Matt", "http://img", Some(12));
    assert_eq!(e.release_year, "2018");
    assert_eq!(e.rawg_id, "12");
    assert_eq!(e.cover_url, "http://img");
    assert_eq!(e.title, "");
    let e = rawg_entry("20", "", "", "", "", None);
    assert_eq!(e.release_year, "20");
    assert_eq!(e.rawg_id, "");
}

#[test]
fn igdb_takes_first_named_developer_and_publisher() {
    let companies = vec![
        IgdbCompany { name: "".into(), developer: true, publisher: true },
        IgdbCompany { name: "Pub Co".into(), developer: false, publisher: true },
        IgdbCompany { name: "Dev Co".into(), developer: true, publisher: false },
        IgdbCompany { name: "Second Dev".into(), developer: true, publisher: true },
    ];
    let e = igdb_entry("RPG", &companies, Some(1516838400), Some("co1"), Some(99));
    assert_eq!(e.developer, "Dev Co");
    assert_eq!(e.publisher, "Pub Co");
    assert_eq!(e.release_year, "2018");
    assert_eq!(e.cover_url, "https://images.igdb.com/igdb/image/upload/t_cover_big/co1.jpg");
    assert_eq!(e.igdb_id, "99");
    let e = igdb_entry("", &Vec::new(), Some(-100_000_000), None, None);
    assert_eq!(e.release_year, (1970 + (-100_000_000i64) / 31_556_952).to_string());
    assert_eq!(e.release_year, "1967");
    assert_eq!(e.cover_url, "");
}

#[test]
fn steam_year_needs_a_four_digit_last_token() {
    assert_eq!(steam_release_year(Some("25 Jan, 2018")), "2018");
    assert_eq!(steam_release_year(Some("Coming soon")), "");
    assert_eq!(steam_release_year(Some("2020")), "2020");
    assert_eq!(steam_release_year(Some("Q3 20201")), "");
    assert_eq!(steam_release_year(None), "");
    let e = steam_entry("Indie", Some("25 Jan, 2018"), "Dev", "Pub", "http://h", 504230);
    assert_eq!(e.steam_id, "504230");
    assert_eq!(e.release_year, "2018");
    assert_eq!(steam_details_check(42, true), Ok(()));
    assert_eq!(steam_details_check(42, false), Err("Steam appdetails returned success=false for 42".to_string()));
}

#[test]
fn gog_year_is_the_first_four_bytes() {
    assert_eq!(gog_release_year(Some("2015.05.19")), "2015");
    assert_eq!(gog_release_year(Some("201")), "");
    assert_eq!(gog_release_year(None), "");
    let e = gog_entry("RPG", Some("2015.05.19"), "CD PROJEKT RED", "CDP", "http://v", "1207664663");
    assert_eq!(e.gog_id, "1207664663");
    assert_eq!(e.developer, "CD PROJEKT RED");
}

#[test]
fn lookup_answers() {
    assert_eq!(twitch_id_from("509658"), Ok("509658".to_string()));
    assert_eq!(twitch_id_from(""), Err("no Twitch game found for this title".to_string()));
    assert_eq!(kick_id_from(Some(15)), Ok("15".to_string()));
    assert_eq!(kick_id_from(None), Err("no Kick category found for this title".to_string()));
    assert_eq!(igdb_token_from(Some("tok")), Ok("tok".to_string()));
    assert_eq!(igdb_token_from(Some("")), Err("no IGDB app token in response".to_string()));
    assert_eq!(igdb_token_from(None), Err("no IGDB app token in response".to_string()));
}

#[test]
fn scan_plan_follows_the_keys() {
    let mut keys = ApiKeys::default();
    let mut b = BroadcasterConfig::default();
    let p = scan_plan(&keys, &b);
    assert!(!p.rawg && !p.igdb && !p.igdb_app_token && !p.sgdb && !p.twitch && !p.kick);
    keys.rawg = "r".into();
    keys.igdb_client = "c".into();
    keys.igdb_secret = "s".into();
    keys.steamgrid = "g".into();
    b.twitch_client = "tc".into();
    b.kick_token = "kt".into();
    let p = scan_plan(&keys, &b);
    assert!(p.rawg && p.igdb && p.igdb_app_token && p.sgdb && !p.twitch && p.kick);
    keys.igdb_token = "t".into();
    b.twitch_token = "tt".into();
    let p = scan_plan(&keys, &b);
    assert!(p.igdb && !p.igdb_app_token && p.twitch);
}

#[test]
fn combine_prefers_earlier_sources_and_sgdb_cover() {
    let existing = ForgeLibraryEntry {
        title: "Celeste".into(),
        developer: "User Dev".into(),
        locked_fields: vec!["genre".into()],
        ..Default::default()
    };
    let mut r = no_results();
    r.rawg = Some(rawg_entry("2018-01-25", "Platformer", "RAWG Dev", "RAWG Pub", "http://rawg.jpg", Some(1)));
    r.steam = Some(steam_entry("Indie", Some("25 Jan, 2018"), "Steam Dev", "Steam Pub", "http://steam.jpg", 504230));
    r.sgdb = Some(SgdbArt { id: "55".into(), cover: "http://sgdb.jpg".into(), logo: "http://logo.png".into() });
    r.twitch_id = Some("509658".into());
    r.kick_id = Some("15".into());
    let out = combine_scan(existing, &r);
    assert_eq!(out.title, "Celeste");
    assert_eq!(out.developer, "User Dev");
    assert_eq!(out.genre, "");
    assert_eq!(out.publisher, "RAWG Pub");
    assert_eq!(out.release_year, "2018");
    assert_eq!(out.cover_url, "http://sgdb.jpg");
    assert_eq!(out.logo_url, "http://logo.png");
    assert_eq!(out.rawg_id, "1");
    assert_eq!(out.steam_id, "504230");
    assert_eq!(out.sgdb_id, "55");
    assert_eq!(out.twitch_id, "509658");
    assert_eq!(out.kick_id, "15");
    assert_eq!(out.locked_fields, vec!["genre".to_string()]);
}

#[test]
fn combine_keeps_earlier_cover_when_sgdb_has_none() {
    let mut r = no_results();
    r.gog = Some(gog_entry("", None, "", "", "http://gog.jpg", "9"));
    r.sgdb = Some(SgdbArt { id: "1".into(), cover: "".into(), logo: "".into() });
    let out = combine_scan(ForgeLibraryEntry::default(), &r);
    assert_eq!(out.cover_url, "http://gog.jpg");
    assert_eq!(out.sgdb_id, "1");
    assert_eq!(out.gog_id, "9");
}
