//! Game detection: the staged "waterfall" that decides whether the
//! foreground process is a game, from what the OS reports about it.
//!
//! Stages, in order: the Forge (listed apps win at once), strict mode, hard
//! kills (the user's ignore list, system processes, system paths), browser
//! and chat window titles, the RAM floor, the Steam golden ticket, and
//! finally confidence scoring.
use vstd::prelude::*;

use crate::assoc::{assoc_get, assoc_view, keys_unique};
use crate::float_bits::{bits_ge, f64_ge, F64_HALF};
use crate::library::{contains_string, string_views};
use crate::text::{
    chars_contains, chars_eq, chars_of, chars_replace, contains, first_index_of,
    lemma_first_index_of, lemma_first_prefix, replace, string_from_chars, to_lowercase,
    to_lowercase_spec, trim, trim_chars,
};

verus! {

/// A detected game session.
#[derive(Debug, Clone)]
pub struct GameDetection {
    pub title: String,
    pub process: String,
    pub platform: String,
}

/// Scanner configuration (mirrors the engine settings). The confidence
/// threshold is a binary64 value carried as its bit pattern.
#[derive(Debug, Clone)]
pub struct ScannerConfig {
    pub ram_threshold_mb: u64,
    pub confidence_threshold_bits: u64,
    pub emulator_detection: bool,
    pub process_filter_bypass: bool,
    pub trap_chromium: bool,
    pub trap_cmdline: bool,
    pub trap_ui_framework: bool,
    pub trap_geometry: bool,
    pub score_engine_dna: bool,
    pub score_fullscreen: bool,
    pub score_window_title: bool,
    pub score_ram: bool,
}

/// Knowledge synced from the Forge database: processes mapped to titles,
/// processes to ignore, and whether only listed processes count.
#[derive(Debug, Clone)]
pub struct ForgeKnowledge {
    pub listed_apps: Vec<(String, String)>,
    pub delisted_apps: Vec<String>,
    pub strict_mode: bool,
    pub config: ScannerConfig,
}

/// The foreground window as the OS reports it.
#[derive(Debug, Clone)]
pub struct ActiveWindow {
    pub pid: u32,
    pub title: String,
    pub is_fullscreen: bool,
}

/// The foreground window's process as the OS reports it (name and path as
/// given, not yet lower-cased).
#[derive(Debug, Clone)]
pub struct ProcessSnapshot {
    pub name: String,
    pub exe_path: String,
    pub memory_bytes: u64,
}

/// The defaults: RAM floor 80 MB, confidence 0.5, every trap and score on,
/// emulator detection on, process filter active.
pub open spec fn scanner_config_is_default(c: ScannerConfig) -> bool {
    &&& c.ram_threshold_mb == 80
    &&& c.confidence_threshold_bits == F64_HALF
    &&& c.emulator_detection
    &&& !c.process_filter_bypass
    &&& c.trap_chromium
    &&& c.trap_cmdline
    &&& c.trap_ui_framework
    &&& c.trap_geometry
    &&& c.score_engine_dna
    &&& c.score_fullscreen
    &&& c.score_window_title
    &&& c.score_ram
}

impl Default for ScannerConfig {
    fn default() -> (r: Self)
        ensures
            scanner_config_is_default(r),
    {
        ScannerConfig {
            ram_threshold_mb: 80,
            confidence_threshold_bits: F64_HALF,
            emulator_detection: true,
            process_filter_bypass: false,
            trap_chromium: true,
            trap_cmdline: true,
            trap_ui_framework: true,
            trap_geometry: true,
            score_engine_dna: true,
            score_fullscreen: true,
            score_window_title: true,
            score_ram: true,
        }
    }
}

/// Processes that are never games.
pub open spec fn system_exiles() -> Seq<Seq<char>> {
    seq![
        "explorer.exe"@, "chrome.exe"@, "msedge.exe"@, "firefox.exe"@, "discord.exe"@,
        "obs64.exe"@, "obs32.exe"@, "taskmgr.exe"@, "spotify.exe"@, "code.exe"@, "cmd.exe"@,
        "powershell.exe"@, "steam.exe"@, "epicgameslauncher.exe"@,
    ]
}

/// Path fragments of system locations.
pub open spec fn banned_paths() -> Seq<Seq<char>> {
    seq!["c:\\windows"@, "system32"@, "/usr/bin"@, "/usr/sbin"@, "/sbin"@]
}

/// Window-title fragments of browsers, chat apps and YouTube.
pub open spec fn killed_title_fragments() -> Seq<Seq<char>> {
    seq![" - google chrome"@, " - discord"@, " - firefox"@, " - edge"@, " - youtube"@]
}

/// Files that betray a game engine next to the executable.
pub open spec fn engine_signatures() -> Seq<Seq<char>> {
    seq![
        "unityplayer.dll"@, "project.godot"@, "data.pck"@, "data.win"@, "lwjgl.dll"@,
        "love.dll"@, "game.love"@, "c3runtime.js"@, "bink2w64.dll"@, "steam_api64.dll"@,
        "fmodstudio.dll"@,
    ]
}

/// Some fragment of `frags` occurs in `s`.
pub open spec fn contains_any(s: Seq<char>, frags: Seq<Seq<char>>) -> bool {
    exists|i: int| 0 <= i < frags.len() && contains(s, #[trigger] frags[i])
}

/// Some engine signature occurs in some of the (lower-cased) file names.
pub open spec fn has_engine_dna_spec(files: Seq<Seq<char>>) -> bool {
    exists|i: int| 0 <= i < files.len() && contains_any(#[trigger] files[i], engine_signatures())
}

/// Whole megabytes of memory.
pub open spec fn memory_mb(bytes: u64) -> int {
    bytes as int / 1048576int
}

/// The confidence score as the binary64 sum `0.0 (+0.4) (+0.3) (+0.2)
/// (+0.1)`, in that order, over the signals that fired (DNA, fullscreen,
/// title, RAM) — the exact values that floating-point addition yields.
pub open spec fn confidence_bits(dna: bool, fullscreen: bool, title: bool, ram: bool) -> u64 {
    if !dna && !fullscreen && !title && !ram {
        0
    } else if !dna && !fullscreen && !title && ram {
        0x3fb999999999999a
    } else if !dna && !fullscreen && title && !ram {
        0x3fc999999999999a
    } else if !dna && !fullscreen && title && ram {
        0x3fd3333333333334
    } else if !dna && fullscreen && !title && !ram {
        0x3fd3333333333333
    } else if !dna && fullscreen && !title && ram {
        0x3fd999999999999a
    } else if !dna && fullscreen && title && !ram {
        0x3fe0000000000000
    } else if !dna && fullscreen && title && ram {
        0x3fe3333333333333
    } else if dna && !fullscreen && !title && !ram {
        0x3fd999999999999a
    } else if dna && !fullscreen && !title && ram {
        0x3fe0000000000000
    } else if dna && !fullscreen && title && !ram {
        0x3fe3333333333334
    } else if dna && !fullscreen && title && ram {
        0x3fe6666666666667
    } else if dna && fullscreen && !title && !ram {
        0x3fe6666666666666
    } else if dna && fullscreen && !title && ram {
        0x3fe9999999999999
    } else if dna && fullscreen && title && !ram {
        0x3feccccccccccccc
    } else {
        0x3fefffffffffffff
    }
}

/// The title reported for a process: the window title, or the process name
/// without `.exe` when the window has none.
pub open spec fn display_title(window_title: Seq<char>, exe: Seq<char>) -> Seq<char> {
    if window_title.len() > 0 {
        window_title
    } else {
        replace(exe, ".exe"@, Seq::empty())
    }
}

/// The waterfall's verdict, as (title, process, platform) views.
///
/// `exe`/`path` are the lower-cased process name and path, `files` the
/// lower-cased names next to the executable, and `steam_app_id` Steam's
/// running app id where the platform exposes it.
pub open spec fn evaluate_spec(
    kw: ForgeKnowledge,
    pid: u32,
    window_title: Seq<char>,
    fullscreen: bool,
    exe: Seq<char>,
    path: Seq<char>,
    mem_bytes: u64,
    files: Seq<Seq<char>>,
    steam_app_id: Option<u32>,
) -> Option<(Seq<char>, Seq<char>, Seq<char>)> {
    let cfg = kw.config;
    let title_lower = to_lowercase_spec(window_title);
    if pid == 0 {
        None
    } else if assoc_view(kw.listed_apps@).dom().contains(exe) {
        Some((assoc_view(kw.listed_apps@)[exe]@, exe, "The Forge"@))
    } else if kw.strict_mode {
        None
    } else if !cfg.process_filter_bypass && (string_views(kw.delisted_apps@).contains(exe)
        || system_exiles().contains(exe) || contains_any(path, banned_paths())) {
        None
    } else if contains_any(title_lower, killed_title_fragments()) {
        None
    } else if memory_mb(mem_bytes) < cfg.ram_threshold_mb {
        None
    } else if contains(path, "steamapps"@) && (steam_app_id matches Some(id) && id > 0) {
        Some((display_title(window_title, exe), exe, "Steam Registry"@))
    } else {
        let score = confidence_bits(
            cfg.score_engine_dna && has_engine_dna_spec(files),
            cfg.score_fullscreen && fullscreen,
            cfg.score_window_title && window_title.len() > 0 && title_lower != exe,
            cfg.score_ram && memory_mb(mem_bytes) > cfg.ram_threshold_mb,
        );
        if f64_ge(score, cfg.confidence_threshold_bits) {
            Some((display_title(window_title, exe), exe, "Standalone/DRM-Free"@))
        } else {
            None
        }
    }
}

/// What a detection reports as the game's title: the Forge's own title for
/// a listed app; otherwise the window's title whenever the window has one,
/// and only for an untitled window the process name without `.exe`. The
/// process reported is always the lower-cased process name.
pub proof fn law_detected_title_is_the_window_title(
    kw: ForgeKnowledge,
    pid: u32,
    window_title: Seq<char>,
    fullscreen: bool,
    exe: Seq<char>,
    path: Seq<char>,
    mem_bytes: u64,
    files: Seq<Seq<char>>,
    steam_app_id: Option<u32>,
)
    ensures
        evaluate_spec(kw, pid, window_title, fullscreen, exe, path, mem_bytes, files, steam_app_id)
            matches Some(d) ==> {
            &&& d.1 == exe
            &&& d.2 != "The Forge"@ && window_title.len() > 0 ==> d.0 == window_title
            &&& d.2 != "The Forge"@ && window_title.len() == 0 ==> d.0 == replace(exe, ".exe"@, Seq::empty())
            &&& d.2 == "The Forge"@ ==> assoc_view(kw.listed_apps@).dom().contains(exe)
                && d.0 == assoc_view(kw.listed_apps@)[exe]@
        },
        evaluate_spec(kw, pid, window_title, fullscreen, exe, path, mem_bytes, files, steam_app_id)
            matches Some(d) && d.2 == "Steam Registry"@ ==> (contains(path, "steamapps"@)
            && (steam_app_id matches Some(id) && id > 0)),
{
    reveal_strlit("The Forge");
    reveal_strlit("Steam Registry");
    reveal_strlit("Standalone/DRM-Free");
    assert("The Forge"@.len() == 9);
    assert("Steam Registry"@.len() == 14);
    assert("Standalone/DRM-Free"@.len() == 19);
    assert("The Forge"@ != "Steam Registry"@);
    assert("The Forge"@ != "Standalone/DRM-Free"@);
    assert("Steam Registry"@ != "Standalone/DRM-Free"@);
}

/// The verdict views of an optional detection.
pub open spec fn detection_view(d: Option<GameDetection>) -> Option<(Seq<char>, Seq<char>, Seq<char>)> {
    match d {
        Some(g) => Some((g.title@, g.process@, g.platform@)),
        None => None,
    }
}

/// The lower-cased names of `files`.
pub open spec fn lowered(files: Seq<String>) -> Seq<Seq<char>> {
    files.map_values(|f: String| to_lowercase_spec(f@))
}

/// Some string of `frags` occurs in `s`.
fn contains_any_exec(s: &Vec<char>, frags: &Vec<&str>) -> (r: bool)
    ensures
        r == contains_any(s@, frags@.map_values(|f: &str| f@)),
{
    let ghost fv = frags@.map_values(|f: &str| f@);
    let mut i: usize = 0;
    while i < frags.len()
        invariant
            i <= frags@.len(),
            fv == frags@.map_values(|f: &str| f@),
            forall|j: int| 0 <= j < i ==> !contains(s@, #[trigger] fv[j]),
        decreases frags@.len() - i,
    {
        let f = chars_of(frags[i]);
        if chars_contains(s.as_slice(), f.as_slice()) {
            assert(fv[i as int] == f@);
            return true;
        }
        i += 1;
    }
    false
}

/// The system-exile list.
fn system_exile_list() -> (r: Vec<&'static str>)
    ensures
        r@.map_values(|f: &str| f@) == system_exiles(),
{
    let v = vec![
        "explorer.exe", "chrome.exe", "msedge.exe", "firefox.exe", "discord.exe", "obs64.exe",
        "obs32.exe", "taskmgr.exe", "spotify.exe", "code.exe", "cmd.exe", "powershell.exe",
        "steam.exe", "epicgameslauncher.exe",
    ];
    assert(v@.map_values(|f: &str| f@) =~= system_exiles());
    v
}

/// The banned-path list.
fn banned_path_list() -> (r: Vec<&'static str>)
    ensures
        r@.map_values(|f: &str| f@) == banned_paths(),
{
    let v = vec!["c:\\windows", "system32", "/usr/bin", "/usr/sbin", "/sbin"];
    assert(v@.map_values(|f: &str| f@) =~= banned_paths());
    v
}

/// The killed title fragments.
fn killed_title_list() -> (r: Vec<&'static str>)
    ensures
        r@.map_values(|f: &str| f@) == killed_title_fragments(),
{
    let v = vec![" - google chrome", " - discord", " - firefox", " - edge", " - youtube"];
    assert(v@.map_values(|f: &str| f@) =~= killed_title_fragments());
    v
}

/// The engine signatures.
fn engine_signature_list() -> (r: Vec<&'static str>)
    ensures
        r@.map_values(|f: &str| f@) == engine_signatures(),
{
    let v = vec![
        "unityplayer.dll", "project.godot", "data.pck", "data.win", "lwjgl.dll", "love.dll",
        "game.love", "c3runtime.js", "bink2w64.dll", "steam_api64.dll", "fmodstudio.dll",
    ];
    assert(v@.map_values(|f: &str| f@) =~= engine_signatures());
    v
}

/// Whether `exe` is one of the system exiles.
fn is_system_exile(exe: &Vec<char>) -> (r: bool)
    ensures
        r == system_exiles().contains(exe@),
{
    let list = system_exile_list();
    let ghost fv = list@.map_values(|f: &str| f@);
    let mut i: usize = 0;
    while i < list.len()
        invariant
            i <= list@.len(),
            fv == list@.map_values(|f: &str| f@),
            fv == system_exiles(),
            forall|j: int| 0 <= j < i ==> #[trigger] fv[j] != exe@,
        decreases list@.len() - i,
    {
        let f = chars_of(list[i]);
        if chars_eq(f.as_slice(), exe.as_slice()) {
            assert(fv[i as int] == exe@);
            return true;
        }
        i += 1;
    }
    false
}

/// Whether any of the (lower-cased) file names betrays a game engine.
pub fn has_engine_dna(files_lower: &Vec<Vec<char>>) -> (r: bool)
    ensures
        r == has_engine_dna_spec(files_lower@.map_values(|f: Vec<char>| f@)),
{
    let sigs = engine_signature_list();
    let ghost fl = files_lower@.map_values(|f: Vec<char>| f@);
    let mut i: usize = 0;
    while i < files_lower.len()
        invariant
            i <= files_lower@.len(),
            fl == files_lower@.map_values(|f: Vec<char>| f@),
            sigs@.map_values(|f: &str| f@) == engine_signatures(),
            forall|j: int| 0 <= j < i ==> !contains_any(#[trigger] fl[j], engine_signatures()),
        decreases files_lower@.len() - i,
    {
        if contains_any_exec(&files_lower[i], &sigs) {
            assert(fl[i as int] == files_lower@[i as int]@);
            return true;
        }
        i += 1;
    }
    false
}

/// `s.replace(".exe", "")`.
fn strip_exe(exe: &Vec<char>) -> (r: Vec<char>)
    ensures
        r@ == replace(exe@, ".exe"@, Seq::empty()),
{
    let pat = chars_of(".exe");
    let empty: Vec<char> = Vec::new();
    proof {
        reveal_strlit(".exe");
    }
    assert(empty@ =~= Seq::<char>::empty());
    chars_replace(exe.as_slice(), pat.as_slice(), empty.as_slice())
}

/// The title reported for a process.
fn display_title_exec(window_title: &String, exe: &Vec<char>) -> (r: String)
    ensures
        r@ == display_title(window_title@, exe@),
{
    if window_title.as_str().is_empty() {
        string_from_chars(strip_exe(exe).as_slice())
    } else {
        window_title.clone()
    }
}

/// A detection record.
fn detection(title: String, exe: &Vec<char>, platform: &str) -> (r: GameDetection)
    ensures
        r.title@ == title@,
        r.process@ == exe@,
        r.platform@ == platform@,
{
    GameDetection {
        title,
        process: string_from_chars(exe.as_slice()),
        platform: crate::text::to_owned_string(platform),
    }
}

/// The confidence score of the signals that fired (see `confidence_bits`).
pub fn confidence(dna: bool, fullscreen: bool, title: bool, ram: bool) -> (r: u64)
    ensures
        r == confidence_bits(dna, fullscreen, title, ram),
{
    if !dna && !fullscreen && !title && !ram {
        0
    } else if !dna && !fullscreen && !title && ram {
        0x3fb999999999999a
    } else if !dna && !fullscreen && title && !ram {
        0x3fc999999999999a
    } else if !dna && !fullscreen && title && ram {
        0x3fd3333333333334
    } else if !dna && fullscreen && !title && !ram {
        0x3fd3333333333333
    } else if !dna && fullscreen && !title && ram {
        0x3fd999999999999a
    } else if !dna && fullscreen && title && !ram {
        0x3fe0000000000000
    } else if !dna && fullscreen && title && ram {
        0x3fe3333333333333
    } else if dna && !fullscreen && !title && !ram {
        0x3fd999999999999a
    } else if dna && !fullscreen && !title && ram {
        0x3fe0000000000000
    } else if dna && !fullscreen && title && !ram {
        0x3fe3333333333334
    } else if dna && !fullscreen && title && ram {
        0x3fe6666666666667
    } else if dna && fullscreen && !title && !ram {
        0x3fe6666666666666
    } else if dna && fullscreen && !title && ram {
        0x3fe9999999999999
    } else if dna && fullscreen && title && !ram {
        0x3feccccccccccccc
    } else {
        0x3fefffffffffffff
    }
}

/// Lower-cases each file name.
fn lower_all(files: &Vec<String>) -> (r: Vec<Vec<char>>)
    ensures
        r@.map_values(|f: Vec<char>| f@) == lowered(files@),
{
    let mut out: Vec<Vec<char>> = Vec::new();
    let mut i: usize = 0;
    while i < files.len()
        invariant
            i <= files@.len(),
            out@.map_values(|f: Vec<char>| f@) == lowered(files@.take(i as int)),
        decreases files@.len() - i,
    {
        let l = to_lowercase(files[i].as_str());
        let ghost before = out@;
        out.push(chars_of(l.as_str()));
        proof {
            let a = out@.map_values(|f: Vec<char>| f@);
            let b = lowered(files@.take(i + 1));
            let c = before.map_values(|f: Vec<char>| f@);
            assert(c == lowered(files@.take(i as int)));
            assert(c.len() == i);
            assert(before.len() == i);
            assert(out@.len() == i + 1);
            assert(a.len() == b.len());
            assert forall|j: int| 0 <= j < a.len() implies a[j] == b[j] by {
                if j < i {
                    assert(out@[j] == before[j]);
                    assert(files@.take(i + 1)[j] == files@.take(i as int)[j]);
                    assert(a[j] == c[j]);
                    assert(c[j] == lowered(files@.take(i as int))[j]);
                } else {
                    assert(files@.take(i + 1)[j] == files@[i as int]);
                }
            }
            assert(a =~= b);
        }
        i += 1;
    }
    assert(files@.take(files@.len() as int) =~= files@);
    out
}

/// Runs the detection waterfall on what the OS reported: the foreground
/// window, its process, the file names next to its executable, and Steam's
/// running app id (where the platform exposes one).
pub fn evaluate(
    kw: &ForgeKnowledge,
    window: &ActiveWindow,
    process: &ProcessSnapshot,
    exe_dir_files: &Vec<String>,
    steam_app_id: Option<u32>,
) -> (r: Option<GameDetection>)
    requires
        keys_unique(kw.listed_apps@),
    ensures
        detection_view(r) == evaluate_spec(
            *kw,
            window.pid,
            window.title@,
            window.is_fullscreen,
            to_lowercase_spec(process.name@),
            to_lowercase_spec(process.exe_path@),
            process.memory_bytes,
            lowered(exe_dir_files@),
            steam_app_id,
        ),
{
    if window.pid == 0 {
        return None;
    }
    let exe_s = to_lowercase(process.name.as_str());
    let exe = chars_of(exe_s.as_str());
    let path_s = to_lowercase(process.exe_path.as_str());
    let path = chars_of(path_s.as_str());
    let cfg = &kw.config;

    // Stage 1: the Forge.
    if let Some(title) = assoc_get(&kw.listed_apps, exe_s.as_str()) {
        return Some(detection(title.clone(), &exe, "The Forge"));
    }
    // Strict forge-only mode.
    if kw.strict_mode {
        return None;
    }
    // Stage 2: hard kills.
    if !cfg.process_filter_bypass {
        if contains_string(&kw.delisted_apps, exe_s.as_str()) {
            return None;
        }
        if is_system_exile(&exe) {
            return None;
        }
        if contains_any_exec(&path, &banned_path_list()) {
            return None;
        }
    }
    let title_lower_s = to_lowercase(window.title.as_str());
    let title_lower = chars_of(title_lower_s.as_str());
    if contains_any_exec(&title_lower, &killed_title_list()) {
        return None;
    }
    // Stage 3: the RAM floor.
    let mem_mb = process.memory_bytes / (1024 * 1024);
    if mem_mb < cfg.ram_threshold_mb {
        return None;
    }
    // Stage 4: the Steam golden ticket.
    let steamapps = chars_of("steamapps");
    if chars_contains(path.as_slice(), steamapps.as_slice()) {
        if let Some(id) = steam_app_id {
            if id > 0 {
                return Some(detection(display_title_exec(&window.title, &exe), &exe, "Steam Registry"));
            }
        }
    }
    // Stage 5: confidence scoring.
    let files = lower_all(exe_dir_files);
    let dna = cfg.score_engine_dna && has_engine_dna(&files);
    let fs = cfg.score_fullscreen && window.is_fullscreen;
    let titled = cfg.score_window_title && !window.title.as_str().is_empty() && !chars_eq(
        title_lower.as_slice(),
        exe.as_slice(),
    );
    let ram = cfg.score_ram && mem_mb > cfg.ram_threshold_mb;
    let score = confidence(dna, fs, titled, ram);
    if bits_ge(score, cfg.confidence_threshold_bits) {
        Some(detection(display_title_exec(&window.title, &exe), &exe, "Standalone/DRM-Free"))
    } else {
        None
    }
}

/// The detection waterfall: what it knows from the Forge database, and the
/// verdict on each look at the foreground window.
#[derive(Debug, Clone)]
pub struct ForgeWaterfall {
    pub knowledge: Option<ForgeKnowledge>,
}

impl ForgeWaterfall {
    /// A waterfall that knows nothing yet (and so detects nothing).
    pub fn new() -> (r: Self)
        ensures
            r.knowledge is None,
    {
        ForgeWaterfall { knowledge: None }
    }

    /// Replaces what the waterfall knows: the listed and ignored processes,
    /// strict mode and the scanner settings.
    pub fn update_forge_knowledge(
        &mut self,
        listed: Vec<(String, String)>,
        delisted: Vec<String>,
        strict_mode: bool,
        config: ScannerConfig,
    )
        ensures
            final(self).knowledge == Some(
                ForgeKnowledge { listed_apps: listed, delisted_apps: delisted, strict_mode, config },
            ),
    {
        self.knowledge = Some(
            ForgeKnowledge { listed_apps: listed, delisted_apps: delisted, strict_mode, config },
        );
    }

    /// The verdict on the foreground window: nothing before any knowledge,
    /// without a foreground window, or when its process could not be read;
    /// otherwise the waterfall's verdict (see `evaluate`).
    pub fn scout_active_session(
        &self,
        window: Option<&ActiveWindow>,
        process: Option<&ProcessSnapshot>,
        exe_dir_files: &Vec<String>,
        steam_app_id: Option<u32>,
    ) -> (r: Option<GameDetection>)
        requires
            self.knowledge matches Some(k) ==> keys_unique(k.listed_apps@),
        ensures
            (self.knowledge is None || window is None || process is None) ==> r is None,
            self.knowledge matches Some(k) ==> (window matches Some(w) ==> (process matches Some(
                p,
            ) ==> detection_view(r) == evaluate_spec(
                k,
                w.pid,
                w.title@,
                w.is_fullscreen,
                to_lowercase_spec(p.name@),
                to_lowercase_spec(p.exe_path@),
                p.memory_bytes,
                lowered(exe_dir_files@),
                steam_app_id,
            ))),
    {
        match (&self.knowledge, window, process) {
            (Some(k), Some(w), Some(p)) => evaluate(k, w, p, exe_dir_files, steam_app_id),
            _ => None,
        }
    }
}

// ───────────────────────────── names from paths ─────────────────────────────

/// Backslashes read as forward slashes.
pub open spec fn slashes_normalized(s: Seq<char>) -> Seq<char> {
    s.map_values(|c: char| if c == '\\' { '/' } else { c })
}

/// `str::split('/')`: the pieces between slashes (one more than there are
/// slashes; empty pieces included).
pub open spec fn split_parts(s: Seq<char>) -> Seq<Seq<char>>
    decreases s.len(),
{
    if s.len() == 0 {
        seq![Seq::empty()]
    } else {
        let p = split_parts(s.drop_last());
        if s.last() == '/' {
            p.push(Seq::empty())
        } else {
            p.update(p.len() - 1, p.last().push(s.last()))
        }
    }
}

/// There is always at least one piece.
proof fn lemma_split_parts_len(s: Seq<char>)
    ensures
        split_parts(s).len() >= 1,
    decreases s.len(),
{
    if s.len() > 0 {
        lemma_split_parts_len(s.drop_last());
    }
}

/// Folder names that never name a game.
pub open spec fn path_ignored_parts() -> Seq<Seq<char>> {
    seq![
        "binaries"@, "win64"@, "win32"@, "shipping"@, "x64"@, "x86"@, "bin"@, "release"@,
        "windowsnoeditor"@,
    ]
}

/// A path piece that can name the game.
pub open spec fn is_name_part(part: Seq<char>) -> bool {
    !path_ignored_parts().contains(to_lowercase_spec(part)) && trim(part).len() > 0
}

/// The last piece before position `k` that can name the game.
pub open spec fn last_name_part(parts: Seq<Seq<char>>, k: int) -> Option<int>
    decreases k,
{
    if k <= 0 {
        None
    } else if is_name_part(parts[k - 1]) {
        Some(k - 1)
    } else {
        last_name_part(parts, k - 1)
    }
}

/// Underscores read as spaces.
pub open spec fn underscores_spaced(s: Seq<char>) -> Seq<char> {
    replace(s, seq!['_'], seq![' '])
}

/// The game name without a Steam `common` folder: the last folder that is
/// not a build folder, else the piece before the file name.
pub open spec fn folder_game_name(parts: Seq<Seq<char>>) -> Seq<char> {
    match last_name_part(parts, parts.len() - 1) {
        Some(j) => underscores_spaced(parts[j]),
        None => parts[if parts.len() >= 2 {
            parts.len() - 2
        } else {
            0
        }],
    }
}

/// A readable game name from an executable's path: the folder after
/// Steam's `common`, else the nearest folder that is not a build folder;
/// underscores become spaces.
pub open spec fn game_name_spec(path: Seq<char>) -> Seq<char> {
    let parts = split_parts(slashes_normalized(path));
    let lower = parts.map_values(|p: Seq<char>| to_lowercase_spec(p));
    match first_index_of(lower, "common"@) {
        Some(i) => if i + 1 < parts.len() {
            underscores_spaced(parts[i + 1])
        } else {
            folder_game_name(parts)
        },
        None => folder_game_name(parts),
    }
}

/// The pieces of a path split on `/` and `\`.
fn path_parts(path: &str) -> (r: Vec<Vec<char>>)
    ensures
        r@.map_values(|v: Vec<char>| v@) == split_parts(slashes_normalized(path@)),
{
    let cs = chars_of(path);
    let ghost norm = slashes_normalized(path@);
    let mut parts: Vec<Vec<char>> = Vec::new();
    parts.push(Vec::new());
    let mut i: usize = 0;
    proof {
        assert(norm.take(0) =~= Seq::<char>::empty());
        assert(parts@.map_values(|v: Vec<char>| v@) =~= split_parts(norm.take(0)));
    }
    while i < cs.len()
        invariant
            cs@ == path@,
            norm == slashes_normalized(path@),
            i <= cs@.len(),
            parts@.len() >= 1,
            parts@.map_values(|v: Vec<char>| v@) == split_parts(norm.take(i as int)),
        decreases cs@.len() - i,
    {
        let c = if cs[i] == '\\' {
            '/'
        } else {
            cs[i]
        };
        let ghost before = parts@.map_values(|v: Vec<char>| v@);
        proof {
            assert(norm.take(i + 1).drop_last() =~= norm.take(i as int));
            assert(norm.take(i + 1).last() == c);
        }
        if c == '/' {
            parts.push(Vec::new());
            proof {
                assert(parts@.map_values(|v: Vec<char>| v@) =~= before.push(Seq::empty()));
            }
        } else {
            let mut last = parts.pop().unwrap();
            last.push(c);
            parts.push(last);
            proof {
                assert(parts@.map_values(|v: Vec<char>| v@) =~= before.update(
                    before.len() - 1,
                    before.last().push(c),
                ));
            }
        }
        i += 1;
    }
    proof {
        assert(norm.take(cs@.len() as int) =~= norm);
    }
    parts
}

fn is_ignored_folder(lower: &Vec<char>) -> (r: bool)
    ensures
        r == path_ignored_parts().contains(lower@),
{
    let names = vec![
        "binaries", "win64", "win32", "shipping", "x64", "x86", "bin", "release",
        "windowsnoeditor",
    ];
    assert(names@.map_values(|s: &str| s@) =~= path_ignored_parts());
    let mut k: usize = 0;
    while k < names.len()
        invariant
            names@.map_values(|s: &str| s@) == path_ignored_parts(),
            k <= names@.len(),
            forall|m: int| 0 <= m < k ==> path_ignored_parts()[m] != lower@,
        decreases names@.len() - k,
    {
        if chars_eq(chars_of(names[k]).as_slice(), lower.as_slice()) {
            proof {
                assert(path_ignored_parts()[k as int] == lower@);
            }
            return true;
        }
        k += 1;
    }
    false
}

/// A readable game name from an executable's path (see `game_name_spec`).
pub fn extract_game_name_from_path(exe_path: &str) -> (r: String)
    ensures
        r@ == game_name_spec(exe_path@),
{
    let parts = path_parts(exe_path);
    let ghost pv = parts@.map_values(|v: Vec<char>| v@);
    proof {
        lemma_split_parts_len(slashes_normalized(exe_path@));
    }
    let n = parts.len();
    let mut lowers: Vec<Vec<char>> = Vec::new();
    let mut i: usize = 0;
    while i < n
        invariant
            n == parts@.len(),
            pv == parts@.map_values(|v: Vec<char>| v@),
            i <= n,
            lowers@.len() == i,
            forall|k: int| 0 <= k < i ==> #[trigger] lowers@[k]@ == to_lowercase_spec(pv[k]),
        decreases n - i,
    {
        let l = to_lowercase(string_from_chars(parts[i].as_slice()).as_str());
        lowers.push(chars_of(l.as_str()));
        i += 1;
    }
    let ghost lv = pv.map_values(|p: Seq<char>| to_lowercase_spec(p));
    let common = chars_of("common");
    let mut found: Option<usize> = None;
    let mut j: usize = 0;
    while j < n
        invariant
            n == parts@.len() == lowers@.len(),
            pv == parts@.map_values(|v: Vec<char>| v@),
            lv == pv.map_values(|p: Seq<char>| to_lowercase_spec(p)),
            forall|k: int| 0 <= k < n ==> #[trigger] lowers@[k]@ == to_lowercase_spec(pv[k]),
            common@ == "common"@,
            j <= n,
            found is None ==> first_index_of(lv.take(j as int), "common"@) is None,
            found matches Some(k) ==> first_index_of(lv, "common"@) == Some(k as int),
        decreases n - j,
    {
        proof {
            assert(lv.take(j + 1).drop_last() =~= lv.take(j as int));
            assert(lv[j as int] == lowers@[j as int]@);
        }
        if found.is_none() && chars_eq(lowers[j].as_slice(), common.as_slice()) {
            found = Some(j);
            proof {
                assert(first_index_of(lv.take(j + 1), "common"@) == Some(j as int));
                lemma_first_prefix(lv, j + 1, "common"@);
            }
        }
        j += 1;
    }
    proof {
        assert(lv.take(n as int) =~= lv);
        lemma_first_index_of(lv, "common"@);
    }
    let us = ['_'];
    let sp = [' '];
    assert(us@ =~= seq!['_']);
    assert(sp@ =~= seq![' ']);
    proof {
        assert(pv == split_parts(slashes_normalized(exe_path@)));
        assert(lv =~= split_parts(slashes_normalized(exe_path@)).map_values(
            |p: Seq<char>| to_lowercase_spec(p),
        ));
    }
    if let Some(k) = found {
        if k < n - 1 {
            let s = chars_replace(parts[k + 1].as_slice(), &us, &sp);
            proof {
                assert(parts@[k + 1]@ == pv[k + 1]);
            }
            return string_from_chars(s.as_slice());
        }
    }
    proof {
        if found is None {
            assert(first_index_of(lv, "common"@) is None);
        }
        assert(game_name_spec(exe_path@) == folder_game_name(pv));
    }
    let mut m: usize = n - 1;
    while m > 0
        invariant
            n == parts@.len() == lowers@.len(),
            n >= 1,
            pv == parts@.map_values(|v: Vec<char>| v@),
            forall|k: int| 0 <= k < n ==> #[trigger] lowers@[k]@ == to_lowercase_spec(pv[k]),
            m <= n - 1,
            last_name_part(pv, n - 1) == last_name_part(pv, m as int),
            us@ == seq!['_'],
            sp@ == seq![' '],
            pv == split_parts(slashes_normalized(exe_path@)),
            game_name_spec(exe_path@) == folder_game_name(pv),
        decreases m,
    {
        let idx = m - 1;
        let t = trim_chars(parts[idx].as_slice());
        proof {
            assert(parts@[idx as int]@ == pv[idx as int]);
        }
        if !is_ignored_folder(&lowers[idx]) && t.len() > 0 {
            let s = chars_replace(parts[idx].as_slice(), &us, &sp);
            proof {
                assert(is_name_part(pv[idx as int]));
                assert(last_name_part(pv, m as int) == Some(idx as int));
            }
            return string_from_chars(s.as_slice());
        }
        m = idx;
    }
    let last_but_one = if n >= 2 {
        n - 2
    } else {
        0
    };
    string_from_chars(parts[last_but_one].as_slice())
}

} // verus!
