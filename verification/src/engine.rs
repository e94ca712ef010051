//! The native detection engine's decisions: what each scan result does to
//! the engine state, which settings a scan tick uses, and the status payload
//! the overlays consume.
use vstd::prelude::*;

use crate::config::{AppConfig, EngineStatus};
use crate::library::{
    find_library_key, library_key_for, ForgeDatabase, ForgeLibraryEntry,
};
use crate::scanner::{GameDetection, ScannerConfig, scanner_config_is_default};
use crate::text::{chars_eq, chars_of, to_owned_string};

verus! {

/// What the engine reports while playing: the detection, its process, and
/// when it started (nanoseconds since the Unix epoch; 0 when idle).
#[derive(Debug, Clone)]
pub struct NativeEngineState {
    pub current_game: Option<GameDetection>,
    pub current_process: String,
    pub is_playing: bool,
    pub start_time_nanos: u64,
}

/// The detection loop's own memory: the title it last announced and when
/// that game lost focus (nanoseconds since the Unix epoch).
#[derive(Debug, Clone)]
pub struct EngineLoopState {
    pub current_game: Option<String>,
    pub lost_focus_nanos: Option<u64>,
}

/// What the loop must do after a scan.
#[derive(Debug, Clone)]
pub enum EngineAction {
    /// Nothing changed.
    Idle,
    /// A new game: mark it playing, announce it, push its category, and
    /// record it in the library.
    NewGame(String),
    /// The game stayed away past the grace period: clear it and push the
    /// idle category.
    ClearGame,
}

/// A freshly started engine: idle.
pub open spec fn engine_is_idle(s: NativeEngineState) -> bool {
    &&& s.current_game is None
    &&& s.current_process@.len() == 0
    &&& !s.is_playing
    &&& s.start_time_nanos == 0
}

impl NativeEngineState {
    /// An idle engine.
    pub fn new() -> (r: Self)
        ensures
            engine_is_idle(r),
    {
        NativeEngineState {
            current_game: None,
            current_process: String::new(),
            is_playing: false,
            start_time_nanos: 0,
        }
    }

    /// Marks `game` as detected and playing since `now_nanos`.
    pub fn set_playing(&mut self, game: &GameDetection, now_nanos: u64)
        ensures
            final(self).current_game matches Some(g) && g.title@ == game.title@ && g.process@
                == game.process@ && g.platform@ == game.platform@,
            final(self).current_process@ == game.process@,
            final(self).is_playing,
            final(self).start_time_nanos == now_nanos,
    {
        self.current_game = Some(GameDetection {
            title: game.title.clone(),
            process: game.process.clone(),
            platform: game.platform.clone(),
        });
        self.current_process = game.process.clone();
        self.is_playing = true;
        self.start_time_nanos = now_nanos;
    }

    /// Clears the playing state (game closed or grace period over).
    pub fn clear_playing(&mut self)
        ensures
            engine_is_idle(*final(self)),
    {
        self.current_game = None;
        self.current_process = String::new();
        self.is_playing = false;
        self.start_time_nanos = 0;
    }
}

/// How long the game has been away at `now` (zero if the clock went back).
pub open spec fn time_away(lost: u64, now: u64) -> int {
    if now >= lost {
        now - lost
    } else {
        0
    }
}

/// One scan's effect on the loop state: a detection resets the focus timer
/// and is announced when its title differs from the current one; no
/// detection starts the timer (if a game is current) and drops the game
/// once it has been away strictly longer than the grace period.
pub open spec fn step_spec(
    cur: Option<Seq<char>>,
    lost: Option<u64>,
    detected: Option<Seq<char>>,
    now: u64,
    grace_secs: u64,
) -> (Option<Seq<char>>, Option<u64>, Option<Option<Seq<char>>>) {
    match detected {
        Some(t) => if cur == Some(t) {
            (cur, None, None)
        } else {
            (Some(t), None, Some(Some(t)))
        },
        None => if cur is None {
            (cur, lost, None)
        } else {
            let l = match lost {
                Some(x) => x,
                None => now,
            };
            if time_away(l, now) > grace_secs as int * 1_000_000_000 {
                (None, None, Some(None))
            } else {
                (cur, Some(l), None)
            }
        },
    }
}

/// The view of the loop's current title.
pub open spec fn cur_view(s: EngineLoopState) -> Option<Seq<char>> {
    match s.current_game {
        Some(t) => Some(t@),
        None => None,
    }
}

/// The view of an action: `None` for idle, `Some(Some(t))` for a new game,
/// `Some(None)` for clearing.
pub open spec fn action_view(a: EngineAction) -> Option<Option<Seq<char>>> {
    match a {
        EngineAction::Idle => None,
        EngineAction::NewGame(t) => Some(Some(t@)),
        EngineAction::ClearGame => Some(None),
    }
}

/// The title of an optional detection.
pub open spec fn detected_title(d: Option<&GameDetection>) -> Option<Seq<char>> {
    match d {
        Some(g) => Some(g.title@),
        None => None,
    }
}

impl EngineLoopState {
    /// A loop that has announced nothing yet.
    pub fn new() -> (r: Self)
        ensures
            r.current_game is None,
            r.lost_focus_nanos is None,
    {
        EngineLoopState { current_game: None, lost_focus_nanos: None }
    }

    /// Applies one scan result (at `now_nanos`, with the configured grace
    /// period) and says what the loop must do.
    pub fn step(&mut self, detected: Option<&GameDetection>, now_nanos: u64, grace_period_secs: u64) -> (r: EngineAction)
        ensures
            ({
                let (c, l, a) = step_spec(
                    cur_view(*old(self)),
                    old(self).lost_focus_nanos,
                    detected_title(detected),
                    now_nanos,
                    grace_period_secs,
                );
                &&& cur_view(*final(self)) == c
                &&& final(self).lost_focus_nanos == l
                &&& action_view(r) == a
            }),
    {
        match detected {
            Some(game) => {
                self.lost_focus_nanos = None;
                let same = match &self.current_game {
                    Some(t) => chars_eq(chars_of(t.as_str()).as_slice(), chars_of(game.title.as_str()).as_slice()),
                    None => false,
                };
                if same {
                    EngineAction::Idle
                } else {
                    self.current_game = Some(game.title.clone());
                    EngineAction::NewGame(game.title.clone())
                }
            },
            None => {
                if self.current_game.is_none() {
                    return EngineAction::Idle;
                }
                let lost = match self.lost_focus_nanos {
                    Some(x) => x,
                    None => now_nanos,
                };
                let away: u64 = if now_nanos >= lost {
                    now_nanos - lost
                } else {
                    0
                };
                if (away as u128) > (grace_period_secs as u128) * 1_000_000_000 {
                    self.current_game = None;
                    self.lost_focus_nanos = None;
                    EngineAction::ClearGame
                } else {
                    self.lost_focus_nanos = Some(lost);
                    EngineAction::Idle
                }
            },
        }
    }
}

/// The settings one scan tick uses: scan interval, grace period, idle
/// category, strict mode and the scanner configuration. Without a readable
/// config: 5 s, 15 s, `"Just Chatting"`, not strict, default scanner.
pub struct LoopSettings {
    pub scan_interval: u64,
    pub grace_period: u64,
    pub idle_category: String,
    pub strict: bool,
    pub scanner: ScannerConfig,
}

/// `s` is the scanner configuration the engine settings of `c` describe.
pub open spec fn scanner_config_of(c: AppConfig, s: ScannerConfig) -> bool {
    let e = c.engine_settings;
    &&& s.ram_threshold_mb == e.ram_threshold
    &&& s.confidence_threshold_bits == e.confidence_threshold_bits
    &&& s.emulator_detection == e.emulator_detection
    &&& s.process_filter_bypass == e.process_filter_bypass
    &&& s.trap_chromium == e.trap_chromium
    &&& s.trap_cmdline == e.trap_cmdline
    &&& s.trap_ui_framework == e.trap_ui_framework
    &&& s.trap_geometry == e.trap_geometry
    &&& s.score_engine_dna == e.score_engine_dna
    &&& s.score_fullscreen == e.score_fullscreen
    &&& s.score_window_title == e.score_window_title
    &&& s.score_ram == e.score_ram
}

/// The settings for one scan tick, from the config reloaded for it.
pub fn loop_settings(config: Option<&AppConfig>) -> (r: LoopSettings)
    ensures
        config matches Some(c) ==> r.scan_interval == c.engine_settings.scan_interval
            && r.grace_period == c.engine_settings.grace_period && r.idle_category@
            == c.engine_settings.idle_category@ && r.strict == c.engine_settings.strict_forge_mode
            && scanner_config_of(*c, r.scanner),
        config is None ==> r.scan_interval == 5 && r.grace_period == 15 && r.idle_category@
            == "Just Chatting"@ && !r.strict && scanner_config_is_default(r.scanner),
{
    match config {
        Some(c) => {
            let e = &c.engine_settings;
            LoopSettings {
                scan_interval: e.scan_interval,
                grace_period: e.grace_period,
                idle_category: e.idle_category.clone(),
                strict: e.strict_forge_mode,
                scanner: ScannerConfig {
                    ram_threshold_mb: e.ram_threshold,
                    confidence_threshold_bits: e.confidence_threshold_bits,
                    emulator_detection: e.emulator_detection,
                    process_filter_bypass: e.process_filter_bypass,
                    trap_chromium: e.trap_chromium,
                    trap_cmdline: e.trap_cmdline,
                    trap_ui_framework: e.trap_ui_framework,
                    trap_geometry: e.trap_geometry,
                    score_engine_dna: e.score_engine_dna,
                    score_fullscreen: e.score_fullscreen,
                    score_window_title: e.score_window_title,
                    score_ram: e.score_ram,
                },
            }
        },
        None => LoopSettings {
            scan_interval: 5,
            grace_period: 15,
            idle_category: to_owned_string("Just Chatting"),
            strict: false,
            scanner: ScannerConfig::default(),
        },
    }
}

/// The overlay status payload.
pub struct StatusPayload {
    /// Always `true`: the payload comes from a running app.
    pub running: bool,
    pub game_title: String,
    pub process_name: String,
    pub is_playing: bool,
    pub start_time_nanos: u64,
    pub genre: String,
    pub developer: String,
    pub publisher: String,
    pub release_date: String,
    pub cover_url: String,
    pub logo_url: String,
    pub fade_timer: u64,
    /// The platform's notice that window or process reads are not
    /// permitted, if any.
    pub permission_error: Option<String>,
}

/// The title whose library entry enriches the status: the current game, or
/// while idle the idle category (so a custom cover for it shows too).
pub open spec fn lookup_title(game_title: Seq<char>, config: Option<AppConfig>) -> Option<Seq<char>> {
    if game_title.len() > 0 {
        Some(game_title)
    } else {
        match config {
            Some(c) => Some(c.engine_settings.idle_category@),
            None => None,
        }
    }
}

/// The library entry that enriches the status, if any.
pub open spec fn status_entry(game_title: Seq<char>, config: Option<AppConfig>, db: Option<ForgeDatabase>) -> Option<ForgeLibraryEntry> {
    match (lookup_title(game_title, config), db) {
        (Some(t), Some(d)) => match library_key_for(d.library@, t) {
            Some(k) => Some(d.library_view()[k]),
            None => None,
        },
        _ => None,
    }
}

/// The status payload of the engine state, enriched from the library.
pub open spec fn status_matches(
    engine: NativeEngineState,
    config: Option<AppConfig>,
    db: Option<ForgeDatabase>,
    permission_error: Option<String>,
    p: StatusPayload,
) -> bool {
    let title = match engine.current_game {
        Some(g) => g.title@,
        None => Seq::empty(),
    };
    &&& p.running
    &&& p.permission_error == permission_error
    &&& p.game_title@ == title
    &&& p.process_name@ == engine.current_process@
    &&& p.is_playing == engine.is_playing
    &&& p.start_time_nanos == engine.start_time_nanos
    &&& p.fade_timer == match config {
        Some(c) => c.engine_settings.widget_fade_timer,
        None => 15,
    }
    &&& match status_entry(title, config, db) {
        Some(e) => {
            &&& p.genre@ == e.genre@
            &&& p.developer@ == e.developer@
            &&& p.publisher@ == e.publisher@
            &&& p.release_date@ == e.release_year@
            &&& p.cover_url@ == e.cover_url@
            &&& p.logo_url@ == e.logo_url@
        },
        None => {
            &&& p.genre@.len() == 0
            &&& p.developer@.len() == 0
            &&& p.publisher@.len() == 0
            &&& p.release_date@.len() == 0
            &&& p.cover_url@.len() == 0
            &&& p.logo_url@.len() == 0
        },
    }
}

/// The status shows the library's own details of what is on screen: while
/// a game stored under its exact title is playing, each detail (genre,
/// developer, publisher, release year as release date, cover, logo) is that
/// entry's same-named field; while idle, those of the idle category's entry;
/// and with no library at all every detail is empty. The game, process,
/// start time and playing flag are the engine's, and `running` is set.
pub proof fn law_status_shows_the_entry_of_what_is_on_screen(
    engine: NativeEngineState,
    config: Option<AppConfig>,
    db: Option<ForgeDatabase>,
    permission_error: Option<String>,
    p: StatusPayload,
)
    requires
        status_matches(engine, config, db, permission_error, p),
    ensures
        p.running,
        p.process_name@ == engine.current_process@,
        p.is_playing == engine.is_playing,
        p.start_time_nanos == engine.start_time_nanos,
        engine.current_game matches Some(g) ==> p.game_title@ == g.title@,
        engine.current_game is None ==> p.game_title@.len() == 0,
        (engine.current_game is Some && engine.current_game->0.title@.len() > 0 && db is Some
            && db->0.library_view().dom().contains(engine.current_game->0.title@)) ==> {
            &&& p.genre@ == db->0.library_view()[engine.current_game->0.title@].genre@
            &&& p.developer@ == db->0.library_view()[engine.current_game->0.title@].developer@
            &&& p.publisher@ == db->0.library_view()[engine.current_game->0.title@].publisher@
            &&& p.release_date@ == db->0.library_view()[engine.current_game->0.title@].release_year@
            &&& p.cover_url@ == db->0.library_view()[engine.current_game->0.title@].cover_url@
            &&& p.logo_url@ == db->0.library_view()[engine.current_game->0.title@].logo_url@
        },
        (engine.current_game is None && config is Some && db is Some
            && db->0.library_view().dom().contains(config->0.engine_settings.idle_category@)) ==> {
            &&& p.genre@ == db->0.library_view()[config->0.engine_settings.idle_category@].genre@
            &&& p.developer@ == db->0.library_view()[config->0.engine_settings.idle_category@].developer@
            &&& p.publisher@ == db->0.library_view()[config->0.engine_settings.idle_category@].publisher@
            &&& p.release_date@ == db->0.library_view()[config->0.engine_settings.idle_category@].release_year@
            &&& p.cover_url@ == db->0.library_view()[config->0.engine_settings.idle_category@].cover_url@
            &&& p.logo_url@ == db->0.library_view()[config->0.engine_settings.idle_category@].logo_url@
        },
        db is None ==> p.genre@.len() == 0 && p.developer@.len() == 0 && p.publisher@.len() == 0
            && p.release_date@.len() == 0 && p.cover_url@.len() == 0 && p.logo_url@.len() == 0,
{
}

/// The view of an optional reference.
pub open spec fn opt_ref<T>(o: Option<&T>) -> Option<T> {
    match o {
        Some(x) => Some(*x),
        None => None,
    }
}

/// Builds the status payload the overlays consume: the engine's game,
/// enriched with the library entry for it (or, while idle, for the idle
/// category). `permission_error` is the platform's notice that window or
/// process reads are not permitted, carried through as it is.
pub fn build_status(
    engine: &NativeEngineState,
    config: Option<&AppConfig>,
    db: Option<&ForgeDatabase>,
    permission_error: Option<String>,
) -> (r: StatusPayload)
    requires
        db matches Some(d) ==> d.wf(),
    ensures
        status_matches(*engine, opt_ref(config), opt_ref(db), permission_error, r),
{
    let game_title = match &engine.current_game {
        Some(g) => g.title.clone(),
        None => String::new(),
    };
    let fade_timer = match config {
        Some(c) => c.engine_settings.widget_fade_timer,
        None => 15,
    };
    let lookup: Option<String> = if !game_title.as_str().is_empty() {
        Some(game_title.clone())
    } else {
        match config {
            Some(c) => Some(c.engine_settings.idle_category.clone()),
            None => None,
        }
    };
    let mut genre = String::new();
    let mut developer = String::new();
    let mut publisher = String::new();
    let mut release_date = String::new();
    let mut cover_url = String::new();
    let mut logo_url = String::new();
    if let (Some(t), Some(d)) = (&lookup, db) {
        if let Some(key) = find_library_key(d, t.as_str()) {
            proof {
                crate::library::lemma_library_key_in_dom(d.library@, t@);
            }
            if let Some(e) = d.library_entry(key.as_str()) {
                genre = e.genre.clone();
                developer = e.developer.clone();
                publisher = e.publisher.clone();
                release_date = e.release_year.clone();
                cover_url = e.cover_url.clone();
                logo_url = e.logo_url.clone();
            }
        }
    }
    StatusPayload {
        running: true,
        game_title,
        process_name: engine.current_process.clone(),
        is_playing: engine.is_playing,
        start_time_nanos: engine.start_time_nanos,
        genre,
        developer,
        publisher,
        release_date,
        cover_url,
        logo_url,
        fade_timer,
        permission_error,
    }
}

/// Starting the engine loop: a loop already running is left alone.
pub fn engine_start(already_running: bool) -> (r: (bool, String))
    ensures
        r.0 == !already_running,
        already_running ==> r.1@ == "Native engine loop already running"@,
        !already_running ==> r.1@ == "Native engine loop started"@,
{
    if already_running {
        (false, to_owned_string("Native engine loop already running"))
    } else {
        (true, to_owned_string("Native engine loop started"))
    }
}

/// The engine status the frontend shows, from the status payload: whether
/// the loop runs, the game and its library details (no overlay token).
pub fn engine_status(running: bool, p: &StatusPayload) -> (r: EngineStatus)
    ensures
        r.running == running,
        r.game_title@ == p.game_title@,
        r.process_name@ == p.process_name@,
        r.is_playing == p.is_playing,
        r.genre@ == p.genre@,
        r.developer@ == p.developer@,
        r.publisher@ == p.publisher@,
        r.release_date@ == p.release_date@,
        r.cover_url@ == p.cover_url@,
        r.widget_token@.len() == 0,
{
    EngineStatus {
        running,
        game_title: p.game_title.clone(),
        process_name: p.process_name.clone(),
        is_playing: p.is_playing,
        genre: p.genre.clone(),
        developer: p.developer.clone(),
        publisher: p.publisher.clone(),
        release_date: p.release_date.clone(),
        cover_url: p.cover_url.clone(),
        widget_token: String::new(),
    }
}

// ───────────────────────────── laws ─────────────────────────────

/// A game is announced once: a second scan that detects the same title
/// (at any later time) changes nothing and asks for nothing.
pub proof fn law_detection_announced_once(
    cur: Option<Seq<char>>,
    lost: Option<u64>,
    title: Seq<char>,
    now1: u64,
    now2: u64,
    grace: u64,
)
    ensures
        ({
            let (c1, l1, a1) = step_spec(cur, lost, Some(title), now1, grace);
            let (c2, l2, a2) = step_spec(c1, l1, Some(title), now2, grace);
            &&& c1 == Some(title)
            &&& a1 == (if cur == Some(title) {
                None
            } else {
                Some(Some(title))
            })
            &&& a2 is None
            &&& c2 == c1
        }),
{
}

/// A game that loses focus is kept for the whole grace period: while it
/// has been away no longer than that, a scan without a detection keeps it
/// and asks for nothing.
pub proof fn law_game_kept_within_grace(cur: Seq<char>, lost: u64, now: u64, grace: u64)
    requires
        time_away(lost, now) <= grace as int * 1_000_000_000,
    ensures
        ({
            let (c, l, a) = step_spec(Some(cur), Some(lost), None, now, grace);
            &&& c == Some(cur)
            &&& l == Some(lost)
            &&& a is None
        }),
{
}

/// The game is dropped, and the idle category pushed, once it has been away
/// longer than the grace period.
pub proof fn law_game_cleared_after_grace(cur: Seq<char>, lost: u64, now: u64, grace: u64)
    requires
        time_away(lost, now) > grace as int * 1_000_000_000,
    ensures
        step_spec(Some(cur), Some(lost), None, now, grace) == (
            None::<Seq<char>>,
            None::<u64>,
            Some(None::<Seq<char>>),
        ),
{
}

} // verus!
