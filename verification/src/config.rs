//! Typed configuration (`Config.json`): defaults, validation and
//! sanitisation.
use vstd::prelude::*;

use crate::float_bits::{
    bits_clamp, bits_is_nan, bits_lt, f64_clamp, f64_lt, is_nan, order_key, F64_HALF, F64_ONE, F64_ZERO,
};
use crate::rng::random_below;
use crate::text::{
    all_ascii_digits, chars_of, is_ascii_digit, is_char_boundary, str_byte_len,
    string_from_chars, to_owned_string, truncate, truncate_string, utf8_len,
};

verus! {

/// Top-level configuration container.
#[derive(Debug, Clone)]
pub struct AppConfig {
    pub api_keys: ApiKeys,
    pub engine_settings: EngineSettings,
    pub broadcaster: BroadcasterConfig,
}

/// API keys for external services (an empty string means "not set").
#[derive(Debug, Clone)]
pub struct ApiKeys {
    pub steamgrid: String,
    pub rawg: String,
    pub igdb_client: String,
    pub igdb_secret: String,
    pub igdb_token: String,
}

/// Engine/runtime settings.
///
/// `confidence_threshold_bits` is the binary64 confidence threshold carried
/// as its bit pattern (see `float_bits`).
#[derive(Debug, Clone)]
pub struct EngineSettings {
    pub idle_category: String,
    pub sb_port: u16,
    pub scan_interval: u64,
    pub grace_period: u64,
    pub widget_poll_rate: u64,
    pub safe_mode: bool,
    pub auto_push: bool,
    pub widget_fade_timer: u64,
    pub strict_forge_mode: bool,
    pub sb_action_name: String,
    pub widget_token: String,
    pub spark_pin: String,
    /// Optional user-set pairing key mixed into the heartbeat HMAC secret.
    pub spark_pairing_key: String,
    pub emulator_detection: bool,
    pub ram_threshold: u64,
    pub process_filter_bypass: bool,
    pub confidence_threshold_bits: u64,
    pub trap_chromium: bool,
    pub trap_cmdline: bool,
    pub trap_ui_framework: bool,
    pub trap_geometry: bool,
    pub score_engine_dna: bool,
    pub score_fullscreen: bool,
    pub score_window_title: bool,
    pub score_ram: bool,
}

/// Broadcaster/platform configuration (an empty string means "not set").
#[derive(Debug, Clone)]
pub struct BroadcasterConfig {
    pub routing_mode: RoutingMode,
    pub twitch_client: String,
    pub twitch_secret: String,
    pub twitch_token: String,
    pub twitch_refresh: String,
    pub twitch_broadcaster_id: String,
    pub kick_client: String,
    pub kick_secret: String,
    pub kick_channel_id: String,
    pub kick_token: String,
    pub kick_refresh: String,
}

/// Where category changes are sent.
#[derive(Debug, Clone, Copy, PartialEq, Eq, Structural)]
pub enum RoutingMode {
    StreamerBot,
    Native,
}

/// Engine status returned to the frontend.
#[derive(Debug, Clone)]
pub struct EngineStatus {
    pub running: bool,
    pub game_title: String,
    pub process_name: String,
    pub is_playing: bool,
    pub genre: String,
    pub developer: String,
    pub publisher: String,
    pub release_date: String,
    pub cover_url: String,
    pub widget_token: String,
}

/// Payload of the config export command.
#[derive(Debug, Clone)]
pub struct ExportConfigPayload {
    pub path: Option<String>,
}

/// Payload of the config import command.
#[derive(Debug, Clone)]
pub struct ImportConfigPayload {
    pub config: AppConfig,
    pub path: Option<String>,
}

/// Why a configuration was refused.
#[derive(Debug)]
pub enum ConfigError {
    /// The `; `-joined list of failed checks.
    Validation(String),
    /// Reading or writing JSON failed (message of the serializer).
    Serialization(String),
    /// A file operation failed (message of the OS error).
    Io(String),
}

// ───────────────────────────── defaults ─────────────────────────────

/// `"Just Chatting"`.
pub fn default_idle_category() -> (r: String)
    ensures
        r@ == "Just Chatting"@,
{
    to_owned_string("Just Chatting")
}

/// Streamer.bot port.
pub fn default_sb_port() -> (r: u16)
    ensures
        r == 8080,
{
    8080
}

/// Seconds between scans.
pub fn default_scan_interval() -> (r: u64)
    ensures
        r == 5,
{
    5
}

/// Seconds a game may lose focus before it is dropped.
pub fn default_grace_period() -> (r: u64)
    ensures
        r == 15,
{
    15
}

/// Seconds between widget polls.
pub fn default_widget_poll_rate() -> (r: u64)
    ensures
        r == 3,
{
    3
}

/// Seconds before a widget fades.
pub fn default_widget_fade_timer() -> (r: u64)
    ensures
        r == 15,
{
    15
}

/// `"UpdateCategory"`.
pub fn default_sb_action_name() -> (r: String)
    ensures
        r@ == "UpdateCategory"@,
{
    to_owned_string("UpdateCategory")
}

/// The character set widget tokens are drawn from, in its fixed order:
/// `A`–`Z`, then `a`–`z`, then `0`–`9`.
pub open spec fn token_charset_char(i: int) -> char {
    if i < 26 {
        (0x41 + i) as char
    } else if i < 52 {
        (0x61 + (i - 26)) as char
    } else {
        (0x30 + (i - 52)) as char
    }
}

/// An ASCII letter or digit.
pub open spec fn is_ascii_alphanumeric(c: char) -> bool {
    ||| 0x41 <= (c as u32) <= 0x5A
    ||| 0x61 <= (c as u32) <= 0x7A
    ||| 0x30 <= (c as u32) <= 0x39
}

/// Character `i` (`0 <= i < 62`) of the token character set.
fn token_char(i: usize) -> (c: char)
    requires
        i < 62,
    ensures
        c == token_charset_char(i as int),
        is_ascii_alphanumeric(c),
{
    let b: u8 = if i < 26 {
        (0x41 + i) as u8
    } else if i < 52 {
        (0x61 + (i - 26)) as u8
    } else {
        (0x30 + (i - 52)) as u8
    };
    b as char
}

/// A fresh random widget token: 16 characters, each drawn at random from
/// the 62 ASCII letters and digits.
pub fn default_widget_token() -> (r: String)
    ensures
        r@.len() == 16,
        forall|i: int| 0 <= i < 16 ==> is_ascii_alphanumeric(#[trigger] r@[i]),
{
    let mut v: Vec<char> = Vec::new();
    let mut k: usize = 0;
    while k < 16
        invariant
            k <= 16,
            v@.len() == k,
            forall|i: int| 0 <= i < k ==> is_ascii_alphanumeric(#[trigger] v@[i]),
        decreases 16 - k,
    {
        let idx = random_below(62);
        v.push(token_char(idx));
        k += 1;
    }
    string_from_chars(v.as_slice())
}

/// `"0000"`.
pub fn default_spark_pin() -> (r: String)
    ensures
        r@ == "0000"@,
{
    to_owned_string("0000")
}

/// Emulator detection is on by default.
pub fn default_emulator_detection() -> (r: bool)
    ensures
        r,
{
    true
}

/// RAM floor (MB) below which a process is not a game.
pub fn default_ram_threshold() -> (r: u64)
    ensures
        r == 80,
{
    80
}

/// The confidence threshold `0.5`, as binary64 bits.
pub fn default_confidence_threshold() -> (r: u64)
    ensures
        r == F64_HALF,
{
    F64_HALF
}

/// Chromium/Electron trap on by default.
pub fn default_trap_chromium() -> (r: bool)
    ensures
        r,
{
    true
}

/// Command-line trap on by default.
pub fn default_trap_cmdline() -> (r: bool)
    ensures
        r,
{
    true
}

/// UI-framework trap on by default.
pub fn default_trap_ui_framework() -> (r: bool)
    ensures
        r,
{
    true
}

/// Window-geometry trap on by default.
pub fn default_trap_geometry() -> (r: bool)
    ensures
        r,
{
    true
}

/// Engine-DNA score on by default.
pub fn default_score_engine_dna() -> (r: bool)
    ensures
        r,
{
    true
}

/// Fullscreen score on by default.
pub fn default_score_fullscreen() -> (r: bool)
    ensures
        r,
{
    true
}

/// Window-title score on by default.
pub fn default_score_window_title() -> (r: bool)
    ensures
        r,
{
    true
}

/// RAM score on by default.
pub fn default_score_ram() -> (r: bool)
    ensures
        r,
{
    true
}

/// Streamer.bot routing by default.
pub fn default_routing_mode() -> (r: RoutingMode)
    ensures
        r == RoutingMode::StreamerBot,
{
    RoutingMode::StreamerBot
}

/// All fields of `k` are empty.
pub open spec fn api_keys_empty(k: ApiKeys) -> bool {
    &&& k.steamgrid@.len() == 0
    &&& k.rawg@.len() == 0
    &&& k.igdb_client@.len() == 0
    &&& k.igdb_secret@.len() == 0
    &&& k.igdb_token@.len() == 0
}

/// Streamer.bot routing and every credential empty.
pub open spec fn broadcaster_is_default(b: BroadcasterConfig) -> bool {
    &&& b.routing_mode == RoutingMode::StreamerBot
    &&& b.twitch_client@.len() == 0
    &&& b.twitch_secret@.len() == 0
    &&& b.twitch_token@.len() == 0
    &&& b.twitch_refresh@.len() == 0
    &&& b.twitch_broadcaster_id@.len() == 0
    &&& b.kick_client@.len() == 0
    &&& b.kick_secret@.len() == 0
    &&& b.kick_channel_id@.len() == 0
    &&& b.kick_token@.len() == 0
    &&& b.kick_refresh@.len() == 0
}

/// Every engine setting at its default, the widget token aside (a fresh
/// random 16-character token).
pub open spec fn engine_settings_is_default(e: EngineSettings) -> bool {
    &&& e.idle_category@ == "Just Chatting"@
    &&& e.sb_port == 8080
    &&& e.scan_interval == 5
    &&& e.grace_period == 15
    &&& e.widget_poll_rate == 3
    &&& !e.safe_mode
    &&& !e.auto_push
    &&& e.widget_fade_timer == 15
    &&& !e.strict_forge_mode
    &&& e.sb_action_name@ == "UpdateCategory"@
    &&& e.widget_token@.len() == 16
    &&& (forall|i: int| 0 <= i < 16 ==> is_ascii_alphanumeric(#[trigger] e.widget_token@[i]))
    &&& e.spark_pin@ == "0000"@
    &&& e.spark_pairing_key@.len() == 0
    &&& e.emulator_detection
    &&& e.ram_threshold == 80
    &&& !e.process_filter_bypass
    &&& e.confidence_threshold_bits == F64_HALF
    &&& e.trap_chromium
    &&& e.trap_cmdline
    &&& e.trap_ui_framework
    &&& e.trap_geometry
    &&& e.score_engine_dna
    &&& e.score_fullscreen
    &&& e.score_window_title
    &&& e.score_ram
}

impl Default for ApiKeys {
    fn default() -> (r: Self)
        ensures
            api_keys_empty(r),
    {
        ApiKeys {
            steamgrid: String::new(),
            rawg: String::new(),
            igdb_client: String::new(),
            igdb_secret: String::new(),
            igdb_token: String::new(),
        }
    }
}

impl Default for BroadcasterConfig {
    fn default() -> (r: Self)
        ensures
            broadcaster_is_default(r),
    {
        BroadcasterConfig {
            routing_mode: default_routing_mode(),
            twitch_client: String::new(),
            twitch_secret: String::new(),
            twitch_token: String::new(),
            twitch_refresh: String::new(),
            twitch_broadcaster_id: String::new(),
            kick_client: String::new(),
            kick_secret: String::new(),
            kick_channel_id: String::new(),
            kick_token: String::new(),
            kick_refresh: String::new(),
        }
    }
}

impl Default for EngineSettings {
    fn default() -> (r: Self)
        ensures
            engine_settings_is_default(r),
    {
        EngineSettings {
            idle_category: default_idle_category(),
            sb_port: default_sb_port(),
            scan_interval: default_scan_interval(),
            grace_period: default_grace_period(),
            widget_poll_rate: default_widget_poll_rate(),
            safe_mode: false,
            auto_push: false,
            widget_fade_timer: default_widget_fade_timer(),
            strict_forge_mode: false,
            sb_action_name: default_sb_action_name(),
            widget_token: default_widget_token(),
            spark_pin: default_spark_pin(),
            spark_pairing_key: String::new(),
            emulator_detection: default_emulator_detection(),
            ram_threshold: default_ram_threshold(),
            process_filter_bypass: false,
            confidence_threshold_bits: default_confidence_threshold(),
            trap_chromium: default_trap_chromium(),
            trap_cmdline: default_trap_cmdline(),
            trap_ui_framework: default_trap_ui_framework(),
            trap_geometry: default_trap_geometry(),
            score_engine_dna: default_score_engine_dna(),
            score_fullscreen: default_score_fullscreen(),
            score_window_title: default_score_window_title(),
            score_ram: default_score_ram(),
        }
    }
}

impl Default for AppConfig {
    fn default() -> (r: Self)
        ensures
            api_keys_empty(r.api_keys),
            engine_settings_is_default(r.engine_settings),
            broadcaster_is_default(r.broadcaster),
    {
        AppConfig {
            api_keys: ApiKeys::default(),
            engine_settings: EngineSettings::default(),
            broadcaster: BroadcasterConfig::default(),
        }
    }
}

// ───────────────────────────── validation ─────────────────────────────

/// `parts` joined with `sep` between consecutive parts.
pub open spec fn join(parts: Seq<Seq<char>>, sep: Seq<char>) -> Seq<char>
    decreases parts.len(),
{
    if parts.len() == 0 {
        Seq::empty()
    } else if parts.len() == 1 {
        parts[0]
    } else {
        join(parts.drop_last(), sep) + sep + parts.last()
    }
}

/// `msg` as a one-element list when `failed`, else the empty list.
pub open spec fn check(failed: bool, msg: Seq<char>) -> Seq<Seq<char>> {
    if failed {
        seq![msg]
    } else {
        Seq::empty()
    }
}

/// A 4-byte PIN made only of ASCII digits.
pub open spec fn pin_is_valid(pin: Seq<char>) -> bool {
    utf8_len(pin) == 4 && all_ascii_digits(pin)
}

/// A binary64 threshold that is a number in `[0.0, 1.0]` (NaN is not).
pub open spec fn threshold_in_unit_range(b: u64) -> bool {
    !is_nan(b) && !f64_lt(b, F64_ZERO) && !f64_lt(F64_ONE, b)
}

/// The threshold `sanitize` keeps: `f64::clamp` into `[0.0, 1.0]`, which
/// leaves a NaN as it is (validation then refuses it).
pub open spec fn sanitized_threshold(b: u64) -> u64 {
    f64_clamp(b, F64_ZERO, F64_ONE)
}

/// The failed engine-setting checks of `e`, in report order.
pub open spec fn engine_setting_errors(e: EngineSettings) -> Seq<Seq<char>> {
    check(e.scan_interval < 2, "scan_interval must be >= 2"@)
    + check(e.grace_period > 300, "grace_period must be <= 300"@)
    + check(e.widget_poll_rate == 0, "widget_poll_rate must be > 0"@)
    + check(e.widget_fade_timer == 0, "widget_fade_timer must be > 0"@)
    + check(
        !threshold_in_unit_range(e.confidence_threshold_bits),
        "confidence_threshold must be between 0.0 and 1.0"@,
    )
    + check(e.ram_threshold > 100, "ram_threshold must be <= 100"@)
    + check(utf8_len(e.idle_category@) > 100, "idle_category too long (max 100 chars)"@)
    + check(utf8_len(e.sb_action_name@) > 100, "sb_action_name too long (max 100 chars)"@)
    + check(!pin_is_valid(e.spark_pin@), "spark_pin must be 4 digits"@)
}

/// The failed API-key checks of `k`, in report order.
pub open spec fn api_key_errors(k: ApiKeys) -> Seq<Seq<char>> {
    check(utf8_len(k.steamgrid@) > 200, "steamgrid key too long"@)
    + check(utf8_len(k.rawg@) > 200, "rawg key too long"@)
    + check(utf8_len(k.igdb_client@) > 100, "igdb_client too long"@)
    + check(utf8_len(k.igdb_secret@) > 200, "igdb_secret too long"@)
}

/// The failed checks of `c`, in the order they are reported. (There is no
/// "at least one platform client" rule: removing the last integration must
/// stay savable.)
pub open spec fn validation_errors(c: AppConfig) -> Seq<Seq<char>> {
    engine_setting_errors(c.engine_settings) + api_key_errors(c.api_keys)
}

/// The character views of a list of string slices.
pub open spec fn str_views(v: Seq<&str>) -> Seq<Seq<char>> {
    v.map_values(|s: &str| s@)
}

/// Whether `pin` is four bytes of ASCII digits.
pub fn spark_pin_is_valid(pin: &str) -> (r: bool)
    ensures
        r == pin_is_valid(pin@),
{
    if str_byte_len(pin) != 4 {
        return false;
    }
    let v = chars_of(pin);
    let mut i: usize = 0;
    while i < v.len()
        invariant
            v@ == pin@,
            i <= v@.len(),
            forall|j: int| 0 <= j < i ==> is_ascii_digit(#[trigger] v@[j]),
        decreases v@.len() - i,
    {
        let u = v[i] as u32;
        if !(0x30 <= u && u <= 0x39) {
            return false;
        }
        i += 1;
    }
    true
}

/// Appends `msg` when `failed`.
fn push_if(v: &mut Vec<&'static str>, failed: bool, msg: &'static str)
    ensures
        str_views(final(v)@) == str_views(old(v)@) + check(failed, msg@),
{
    let ghost before = v@;
    if failed {
        v.push(msg);
        assert(str_views(v@) =~= str_views(before) + check(failed, msg@));
    } else {
        assert(str_views(v@) =~= str_views(before) + check(failed, msg@));
    }
}

/// The failed engine-setting checks, in report order.
fn engine_setting_failures(e: &EngineSettings) -> (r: Vec<&'static str>)
    ensures
        str_views(r@) == engine_setting_errors(*e),
{
    let mut v: Vec<&'static str> = Vec::new();
    assert(str_views(v@) =~= Seq::<Seq<char>>::empty());
    push_if(&mut v, e.scan_interval < 2, "scan_interval must be >= 2");
    push_if(&mut v, e.grace_period > 300, "grace_period must be <= 300");
    push_if(&mut v, e.widget_poll_rate == 0, "widget_poll_rate must be > 0");
    push_if(&mut v, e.widget_fade_timer == 0, "widget_fade_timer must be > 0");
    let conf_bad = bits_is_nan(e.confidence_threshold_bits) || bits_lt(
        e.confidence_threshold_bits,
        F64_ZERO,
    ) || bits_lt(F64_ONE, e.confidence_threshold_bits);
    push_if(&mut v, conf_bad, "confidence_threshold must be between 0.0 and 1.0");
    push_if(&mut v, e.ram_threshold > 100, "ram_threshold must be <= 100");
    let idle_long = str_byte_len(e.idle_category.as_str()) > 100;
    push_if(&mut v, idle_long, "idle_category too long (max 100 chars)");
    let sb_long = str_byte_len(e.sb_action_name.as_str()) > 100;
    push_if(&mut v, sb_long, "sb_action_name too long (max 100 chars)");
    let pin_bad = !spark_pin_is_valid(e.spark_pin.as_str());
    push_if(&mut v, pin_bad, "spark_pin must be 4 digits");
    v
}

/// Appends the failed API-key checks, in report order.
fn api_key_failures(k: &ApiKeys, v: &mut Vec<&'static str>)
    ensures
        str_views(final(v)@) == str_views(old(v)@) + api_key_errors(*k),
{
    let ghost before = str_views(v@);
    let sg_long = str_byte_len(k.steamgrid.as_str()) > 200;
    push_if(v, sg_long, "steamgrid key too long");
    let rawg_long = str_byte_len(k.rawg.as_str()) > 200;
    push_if(v, rawg_long, "rawg key too long");
    let ic_long = str_byte_len(k.igdb_client.as_str()) > 100;
    push_if(v, ic_long, "igdb_client too long");
    let is_long = str_byte_len(k.igdb_secret.as_str()) > 200;
    push_if(v, is_long, "igdb_secret too long");
    assert(str_views(v@) =~= before + api_key_errors(*k));
}

/// `parts` joined with `sep`.
pub fn join_strs(parts: &Vec<&'static str>, sep: &str) -> (r: String)
    ensures
        r@ == join(str_views(parts@), sep@),
{
    let sepv = chars_of(sep);
    let mut out: Vec<char> = Vec::new();
    let mut i: usize = 0;
    while i < parts.len()
        invariant
            i <= parts@.len(),
            sepv@ == sep@,
            out@ == join(str_views(parts@).take(i as int), sep@),
        decreases parts@.len() - i,
    {
        let ghost prev = out@;
        let p = chars_of(parts[i]);
        if i > 0 {
            let mut j: usize = 0;
            while j < sepv.len()
                invariant
                    j <= sepv@.len(),
                    out@ == prev + sepv@.take(j as int),
                decreases sepv@.len() - j,
            {
                out.push(sepv[j]);
                j += 1;
                assert(out@ =~= prev + sepv@.take(j as int));
            }
            assert(sepv@.take(sepv@.len() as int) =~= sepv@);
        }
        let ghost mid = out@;
        let mut j: usize = 0;
        while j < p.len()
            invariant
                j <= p@.len(),
                out@ == mid + p@.take(j as int),
            decreases p@.len() - j,
        {
            out.push(p[j]);
            j += 1;
            assert(out@ =~= mid + p@.take(j as int));
        }
        proof {
            assert(p@.take(p@.len() as int) =~= p@);
            let all = str_views(parts@);
            assert(all.take(i + 1).drop_last() =~= all.take(i as int));
            assert(all.take(i + 1).last() == parts@[i as int]@);
            if i == 0 {
                assert(out@ =~= join(all.take(1), sep@));
            } else {
                assert(out@ =~= join(all.take(i as int), sep@) + sep@ + parts@[i as int]@);
            }
        }
        i += 1;
    }
    assert(str_views(parts@).take(parts@.len() as int) =~= str_views(parts@));
    string_from_chars(out.as_slice())
}

/// `Ord::clamp(x, lo, hi)` for `lo <= hi`.
pub open spec fn clamp_u64(x: u64, lo: u64, hi: u64) -> u64 {
    if x < lo {
        lo
    } else if x > hi {
        hi
    } else {
        x
    }
}

/// `Ord::clamp(x, lo, hi)` for `lo <= hi`.
pub fn clamp(x: u64, lo: u64, hi: u64) -> (r: u64)
    requires
        lo <= hi,
    ensures
        r == clamp_u64(x, lo, hi),
{
    if x < lo {
        lo
    } else if x > hi {
        hi
    } else {
        x
    }
}

/// Every string that `sanitize` truncates is cut on a character boundary
/// (`String::truncate` panics otherwise).
pub open spec fn sanitize_cuts_on_boundaries(c: AppConfig) -> bool {
    &&& is_char_boundary(c.engine_settings.idle_category@, 100)
    &&& is_char_boundary(c.engine_settings.sb_action_name@, 100)
    &&& is_char_boundary(c.api_keys.steamgrid@, 200)
    &&& is_char_boundary(c.api_keys.rawg@, 200)
    &&& is_char_boundary(c.api_keys.igdb_client@, 100)
    &&& is_char_boundary(c.api_keys.igdb_secret@, 200)
    &&& is_char_boundary(c.api_keys.igdb_token@, 200)
}

/// `ne` is `oe` after sanitisation: numbers clamped into range (a NaN
/// threshold stays NaN), long
/// strings truncated, an invalid PIN reset to `"0000"`, the rest unchanged.
pub open spec fn engine_settings_sanitized_from(oe: EngineSettings, ne: EngineSettings) -> bool {
    &&& ne.scan_interval == clamp_u64(oe.scan_interval, 2, 300)
    &&& ne.grace_period == clamp_u64(oe.grace_period, 0, 300)
    &&& ne.widget_poll_rate == clamp_u64(oe.widget_poll_rate, 1, 60)
    &&& ne.widget_fade_timer == clamp_u64(oe.widget_fade_timer, 1, 300)
    &&& ne.confidence_threshold_bits == sanitized_threshold(oe.confidence_threshold_bits)
    &&& ne.ram_threshold == clamp_u64(oe.ram_threshold, 0, 100)
    &&& ne.idle_category@ == truncate(oe.idle_category@, 100)
    &&& ne.sb_action_name@ == truncate(oe.sb_action_name@, 100)
    &&& ne.spark_pin@ == (if pin_is_valid(oe.spark_pin@) {
        oe.spark_pin@
    } else {
        "0000"@
    })
    &&& ne.sb_port == oe.sb_port
    &&& ne.safe_mode == oe.safe_mode
    &&& ne.auto_push == oe.auto_push
    &&& ne.strict_forge_mode == oe.strict_forge_mode
    &&& ne.widget_token == oe.widget_token
    &&& ne.spark_pairing_key == oe.spark_pairing_key
    &&& ne.emulator_detection == oe.emulator_detection
    &&& ne.process_filter_bypass == oe.process_filter_bypass
    &&& ne.trap_chromium == oe.trap_chromium
    &&& ne.trap_cmdline == oe.trap_cmdline
    &&& ne.trap_ui_framework == oe.trap_ui_framework
    &&& ne.trap_geometry == oe.trap_geometry
    &&& ne.score_engine_dna == oe.score_engine_dna
    &&& ne.score_fullscreen == oe.score_fullscreen
    &&& ne.score_window_title == oe.score_window_title
    &&& ne.score_ram == oe.score_ram
}

/// `nk` is `ok` with every key truncated to its maximum length.
pub open spec fn api_keys_sanitized_from(ok: ApiKeys, nk: ApiKeys) -> bool {
    &&& nk.steamgrid@ == truncate(ok.steamgrid@, 200)
    &&& nk.rawg@ == truncate(ok.rawg@, 200)
    &&& nk.igdb_client@ == truncate(ok.igdb_client@, 100)
    &&& nk.igdb_secret@ == truncate(ok.igdb_secret@, 200)
    &&& nk.igdb_token@ == truncate(ok.igdb_token@, 200)
}

/// `n` is `o` after `sanitize`.
pub open spec fn is_sanitized_from(o: AppConfig, n: AppConfig) -> bool {
    &&& engine_settings_sanitized_from(o.engine_settings, n.engine_settings)
    &&& api_keys_sanitized_from(o.api_keys, n.api_keys)
    &&& n.broadcaster == o.broadcaster
}

impl EngineSettings {
    /// Clamps the numeric settings into range (a NaN threshold stays NaN).
    fn clamp_numbers(&mut self)
        ensures
            final(self).scan_interval == clamp_u64(old(self).scan_interval, 2, 300),
            final(self).grace_period == clamp_u64(old(self).grace_period, 0, 300),
            final(self).widget_poll_rate == clamp_u64(old(self).widget_poll_rate, 1, 60),
            final(self).widget_fade_timer == clamp_u64(old(self).widget_fade_timer, 1, 300),
            final(self).confidence_threshold_bits == sanitized_threshold(
                old(self).confidence_threshold_bits,
            ),
            final(self).ram_threshold == clamp_u64(old(self).ram_threshold, 0, 100),
            final(self).idle_category == old(self).idle_category,
            final(self).sb_action_name == old(self).sb_action_name,
            final(self).spark_pin == old(self).spark_pin,
            final(self).sb_port == old(self).sb_port,
            final(self).safe_mode == old(self).safe_mode,
            final(self).auto_push == old(self).auto_push,
            final(self).strict_forge_mode == old(self).strict_forge_mode,
            final(self).widget_token == old(self).widget_token,
            final(self).spark_pairing_key == old(self).spark_pairing_key,
            final(self).emulator_detection == old(self).emulator_detection,
            final(self).process_filter_bypass == old(self).process_filter_bypass,
            final(self).trap_chromium == old(self).trap_chromium,
            final(self).trap_cmdline == old(self).trap_cmdline,
            final(self).trap_ui_framework == old(self).trap_ui_framework,
            final(self).trap_geometry == old(self).trap_geometry,
            final(self).score_engine_dna == old(self).score_engine_dna,
            final(self).score_fullscreen == old(self).score_fullscreen,
            final(self).score_window_title == old(self).score_window_title,
            final(self).score_ram == old(self).score_ram,
    {
        self.scan_interval = clamp(self.scan_interval, 2, 300);
        self.grace_period = clamp(self.grace_period, 0, 300);
        self.widget_poll_rate = clamp(self.widget_poll_rate, 1, 60);
        self.widget_fade_timer = clamp(self.widget_fade_timer, 1, 300);
        self.confidence_threshold_bits = bits_clamp(self.confidence_threshold_bits, F64_ZERO, F64_ONE);
        self.ram_threshold = clamp(self.ram_threshold, 0, 100);
    }

    /// Sanitises every engine setting.
    fn sanitize(&mut self)
        requires
            is_char_boundary(old(self).idle_category@, 100),
            is_char_boundary(old(self).sb_action_name@, 100),
        ensures
            engine_settings_sanitized_from(*old(self), *final(self)),
    {
        self.clamp_numbers();
        self.idle_category = truncate_string(&self.idle_category, 100);
        self.sb_action_name = truncate_string(&self.sb_action_name, 100);
        if !spark_pin_is_valid(self.spark_pin.as_str()) {
            self.spark_pin = default_spark_pin();
        }
    }
}

impl ApiKeys {
    /// Truncates every key to its maximum length.
    fn sanitize(&mut self)
        requires
            is_char_boundary(old(self).steamgrid@, 200),
            is_char_boundary(old(self).rawg@, 200),
            is_char_boundary(old(self).igdb_client@, 100),
            is_char_boundary(old(self).igdb_secret@, 200),
            is_char_boundary(old(self).igdb_token@, 200),
        ensures
            api_keys_sanitized_from(*old(self), *final(self)),
    {
        self.steamgrid = truncate_string(&self.steamgrid, 200);
        self.rawg = truncate_string(&self.rawg, 200);
        self.igdb_client = truncate_string(&self.igdb_client, 100);
        self.igdb_secret = truncate_string(&self.igdb_secret, 200);
        self.igdb_token = truncate_string(&self.igdb_token, 200);
    }
}

impl AppConfig {
    /// Repairs values the UI can transiently produce: clamps numbers into
    /// range, truncates over-long strings and resets an invalid PIN.
    pub fn sanitize(&mut self)
        requires
            sanitize_cuts_on_boundaries(*old(self)),
        ensures
            is_sanitized_from(*old(self), *final(self)),
    {
        self.engine_settings.sanitize();
        self.api_keys.sanitize();
    }
}

impl AppConfig {
    /// Checks every field, reporting all failed checks at once.
    pub fn validate(&self) -> (r: Result<(), ConfigError>)
        ensures
            validation_errors(*self).len() == 0 ==> r is Ok,
            validation_errors(*self).len() > 0 ==> (r matches Err(ConfigError::Validation(msg))
                && msg@ == join(validation_errors(*self), "; "@)),
    {
        let mut failures = engine_setting_failures(&self.engine_settings);
        api_key_failures(&self.api_keys, &mut failures);
        if failures.len() == 0 {
            Ok(())
        } else {
            Err(ConfigError::Validation(join_strs(&failures, "; ")))
        }
    }
}

/// A string cut at a character boundary is at most that many bytes long.
proof fn lemma_truncate_fits(s: Seq<char>, n: nat)
    requires
        is_char_boundary(s, n),
    ensures
        utf8_len(truncate(s, n)) <= n,
{
}

/// What still fails validation after `sanitize`: only a NaN threshold,
/// which clamping keeps.
proof fn lemma_sanitized_errors(o: AppConfig, n: AppConfig)
    requires
        sanitize_cuts_on_boundaries(o),
        is_sanitized_from(o, n),
    ensures
        validation_errors(n) == check(
            is_nan(o.engine_settings.confidence_threshold_bits),
            "confidence_threshold must be between 0.0 and 1.0"@,
        ),
{
    reveal_strlit("0000");
    let (oe, ok) = (o.engine_settings, o.api_keys);
    lemma_truncate_fits(oe.idle_category@, 100);
    lemma_truncate_fits(oe.sb_action_name@, 100);
    lemma_truncate_fits(ok.steamgrid@, 200);
    lemma_truncate_fits(ok.rawg@, 200);
    lemma_truncate_fits(ok.igdb_client@, 100);
    lemma_truncate_fits(ok.igdb_secret@, 200);
    let z = "0000"@;
    assert(utf8_len(z) == 4) by {
        reveal_with_fuel(utf8_len, 5);
    }
    assert(pin_is_valid(z));
    assert(pin_is_valid(n.engine_settings.spark_pin@));
    assert(!f64_lt(n.engine_settings.confidence_threshold_bits, F64_ZERO));
    assert(!f64_lt(F64_ONE, n.engine_settings.confidence_threshold_bits));
    assert(is_nan(n.engine_settings.confidence_threshold_bits) == is_nan(oe.confidence_threshold_bits));
    assert(engine_setting_errors(n.engine_settings) =~= check(
        is_nan(oe.confidence_threshold_bits),
        "confidence_threshold must be between 0.0 and 1.0"@,
    ));
    assert(api_key_errors(n.api_keys) =~= Seq::<Seq<char>>::empty());
    assert(validation_errors(n) =~= check(
        is_nan(oe.confidence_threshold_bits),
        "confidence_threshold must be between 0.0 and 1.0"@,
    ));
}

/// Whatever `sanitize` leaves passes `validate`, unless the confidence
/// threshold is NaN: the numbers are in range, the strings within their
/// limits and the PIN valid. (Transient UI values, such as a half-typed PIN
/// or a cleared number field, are repaired rather than failing a save; a
/// NaN threshold is no such value, is kept by clamping, and is refused.)
pub proof fn law_sanitized_config_is_valid(o: AppConfig, n: AppConfig)
    requires
        sanitize_cuts_on_boundaries(o),
        is_sanitized_from(o, n),
        !is_nan(o.engine_settings.confidence_threshold_bits),
    ensures
        validation_errors(n).len() == 0,
{
    lemma_sanitized_errors(o, n);
}

/// Sanitising is idempotent: what `sanitize` leaves is already sanitised,
/// so sanitising it again changes nothing.
pub proof fn law_sanitize_is_idempotent(o: AppConfig, n: AppConfig)
    requires
        sanitize_cuts_on_boundaries(o),
        is_sanitized_from(o, n),
    ensures
        is_sanitized_from(n, n),
{
    lemma_sanitized_errors(o, n);
    let (oe, ok) = (o.engine_settings, o.api_keys);
    lemma_truncate_fits(oe.idle_category@, 100);
    lemma_truncate_fits(oe.sb_action_name@, 100);
    lemma_truncate_fits(ok.steamgrid@, 200);
    lemma_truncate_fits(ok.rawg@, 200);
    lemma_truncate_fits(ok.igdb_client@, 100);
    lemma_truncate_fits(ok.igdb_secret@, 200);
    lemma_truncate_fits(ok.igdb_token@, 200);
    assert(order_key(F64_ONE) > 0);
    assert(validation_errors(n).len() <= 1);
    assert(engine_setting_errors(n.engine_settings).len() <= 1);
}

/// Validation never depends on the broadcaster section: removing the last
/// platform integration (or adding one) cannot make a configuration
/// unsavable.
pub proof fn law_validation_ignores_broadcaster(a: AppConfig, b: AppConfig)
    requires
        a.engine_settings == b.engine_settings,
        a.api_keys == b.api_keys,
    ensures
        validation_errors(a) == validation_errors(b),
{
}

/// `msg` is among the reported failures when `failed` holds.
proof fn lemma_check_reports(failed: bool, msg: Seq<char>)
    ensures
        failed ==> check(failed, msg).contains(msg),
        !failed ==> check(failed, msg).len() == 0,
{
    if failed {
        assert(check(failed, msg)[0] == msg);
    }
}

/// A list holds what a part of it holds.
proof fn lemma_concat_contains(a: Seq<Seq<char>>, b: Seq<Seq<char>>, x: Seq<char>)
    ensures
        a.contains(x) ==> (a + b).contains(x),
        b.contains(x) ==> (a + b).contains(x),
{
    if a.contains(x) {
        let i = choose|i: int| 0 <= i < a.len() && a[i] == x;
        assert((a + b)[i] == x);
    }
    if b.contains(x) {
        let i = choose|i: int| 0 <= i < b.len() && b[i] == x;
        assert((a + b)[a.len() + i] == x);
    }
}

/// Every setting out of its range is reported by validation, each with its
/// own message, whatever the other settings hold.
#[verifier::rlimit(80)]
#[verifier::spinoff_prover]
pub proof fn law_out_of_range_settings_are_reported(c: AppConfig)
    ensures
        c.engine_settings.scan_interval < 2 ==> validation_errors(c).contains("scan_interval must be >= 2"@),
        c.engine_settings.grace_period > 300 ==> validation_errors(c).contains("grace_period must be <= 300"@),
        c.engine_settings.widget_poll_rate == 0 ==> validation_errors(c).contains(
            "widget_poll_rate must be > 0"@,
        ),
        c.engine_settings.widget_fade_timer == 0 ==> validation_errors(c).contains(
            "widget_fade_timer must be > 0"@,
        ),
        (is_nan(c.engine_settings.confidence_threshold_bits) || f64_lt(
            c.engine_settings.confidence_threshold_bits,
            F64_ZERO,
        ) || f64_lt(F64_ONE, c.engine_settings.confidence_threshold_bits)) ==> validation_errors(c).contains(
            "confidence_threshold must be between 0.0 and 1.0"@,
        ),
        c.engine_settings.ram_threshold > 100 ==> validation_errors(c).contains("ram_threshold must be <= 100"@),
        utf8_len(c.engine_settings.idle_category@) > 100 ==> validation_errors(c).contains(
            "idle_category too long (max 100 chars)"@,
        ),
        utf8_len(c.engine_settings.sb_action_name@) > 100 ==> validation_errors(c).contains(
            "sb_action_name too long (max 100 chars)"@,
        ),
        !(utf8_len(c.engine_settings.spark_pin@) == 4 && all_ascii_digits(c.engine_settings.spark_pin@))
            ==> validation_errors(c).contains("spark_pin must be 4 digits"@),
        utf8_len(c.api_keys.steamgrid@) > 200 ==> validation_errors(c).contains("steamgrid key too long"@),
        utf8_len(c.api_keys.rawg@) > 200 ==> validation_errors(c).contains("rawg key too long"@),
        utf8_len(c.api_keys.igdb_client@) > 100 ==> validation_errors(c).contains("igdb_client too long"@),
        utf8_len(c.api_keys.igdb_secret@) > 200 ==> validation_errors(c).contains("igdb_secret too long"@),
{
    let e = c.engine_settings;
    let k = c.api_keys;
    let e1 = check(e.scan_interval < 2, "scan_interval must be >= 2"@);
    let e2 = e1 + check(e.grace_period > 300, "grace_period must be <= 300"@);
    let e3 = e2 + check(e.widget_poll_rate == 0, "widget_poll_rate must be > 0"@);
    let e4 = e3 + check(e.widget_fade_timer == 0, "widget_fade_timer must be > 0"@);
    let e5 = e4 + check(!threshold_in_unit_range(e.confidence_threshold_bits), "confidence_threshold must be between 0.0 and 1.0"@);
    let e6 = e5 + check(e.ram_threshold > 100, "ram_threshold must be <= 100"@);
    let e7 = e6 + check(utf8_len(e.idle_category@) > 100, "idle_category too long (max 100 chars)"@);
    let e8 = e7 + check(utf8_len(e.sb_action_name@) > 100, "sb_action_name too long (max 100 chars)"@);
    let e9 = e8 + check(!pin_is_valid(e.spark_pin@), "spark_pin must be 4 digits"@);
    assert(engine_setting_errors(e) == e9);
    let k1 = check(utf8_len(k.steamgrid@) > 200, "steamgrid key too long"@);
    let k2 = k1 + check(utf8_len(k.rawg@) > 200, "rawg key too long"@);
    let k3 = k2 + check(utf8_len(k.igdb_client@) > 100, "igdb_client too long"@);
    let k4 = k3 + check(utf8_len(k.igdb_secret@) > 200, "igdb_secret too long"@);
    assert(api_key_errors(k) == k4);
    assert(validation_errors(c) == e9 + k4);
    if e.scan_interval < 2 {
        assert(validation_errors(c).contains("scan_interval must be >= 2"@)) by {
            lemma_check_reports(e.scan_interval < 2, "scan_interval must be >= 2"@);
            lemma_concat_contains(e1, check(e.grace_period > 300, "grace_period must be <= 300"@), "scan_interval must be >= 2"@);
            lemma_concat_contains(e2, check(e.widget_poll_rate == 0, "widget_poll_rate must be > 0"@), "scan_interval must be >= 2"@);
            lemma_concat_contains(e3, check(e.widget_fade_timer == 0, "widget_fade_timer must be > 0"@), "scan_interval must be >= 2"@);
            lemma_concat_contains(e4, check(!threshold_in_unit_range(e.confidence_threshold_bits), "confidence_threshold must be between 0.0 and 1.0"@), "scan_interval must be >= 2"@);
            lemma_concat_contains(e5, check(e.ram_threshold > 100, "ram_threshold must be <= 100"@), "scan_interval must be >= 2"@);
            lemma_concat_contains(e6, check(utf8_len(e.idle_category@) > 100, "idle_category too long (max 100 chars)"@), "scan_interval must be >= 2"@);
            lemma_concat_contains(e7, check(utf8_len(e.sb_action_name@) > 100, "sb_action_name too long (max 100 chars)"@), "scan_interval must be >= 2"@);
            lemma_concat_contains(e8, check(!pin_is_valid(e.spark_pin@), "spark_pin must be 4 digits"@), "scan_interval must be >= 2"@);
            lemma_concat_contains(e9, k4, "scan_interval must be >= 2"@);
        }
    }
    if e.grace_period > 300 {
        assert(validation_errors(c).contains("grace_period must be <= 300"@)) by {
            lemma_check_reports(e.grace_period > 300, "grace_period must be <= 300"@);
            lemma_concat_contains(e1, check(e.grace_period > 300, "grace_period must be <= 300"@), "grace_period must be <= 300"@);
            lemma_concat_contains(e2, check(e.widget_poll_rate == 0, "widget_poll_rate must be > 0"@), "grace_period must be <= 300"@);
            lemma_concat_contains(e3, check(e.widget_fade_timer == 0, "widget_fade_timer must be > 0"@), "grace_period must be <= 300"@);
            lemma_concat_contains(e4, check(!threshold_in_unit_range(e.confidence_threshold_bits), "confidence_threshold must be between 0.0 and 1.0"@), "grace_period must be <= 300"@);
            lemma_concat_contains(e5, check(e.ram_threshold > 100, "ram_threshold must be <= 100"@), "grace_period must be <= 300"@);
            lemma_concat_contains(e6, check(utf8_len(e.idle_category@) > 100, "idle_category too long (max 100 chars)"@), "grace_period must be <= 300"@);
            lemma_concat_contains(e7, check(utf8_len(e.sb_action_name@) > 100, "sb_action_name too long (max 100 chars)"@), "grace_period must be <= 300"@);
            lemma_concat_contains(e8, check(!pin_is_valid(e.spark_pin@), "spark_pin must be 4 digits"@), "grace_period must be <= 300"@);
            lemma_concat_contains(e9, k4, "grace_period must be <= 300"@);
        }
    }
    if e.widget_poll_rate == 0 {
        assert(validation_errors(c).contains("widget_poll_rate must be > 0"@)) by {
            lemma_check_reports(e.widget_poll_rate == 0, "widget_poll_rate must be > 0"@);
            lemma_concat_contains(e2, check(e.widget_poll_rate == 0, "widget_poll_rate must be > 0"@), "widget_poll_rate must be > 0"@);
            lemma_concat_contains(e3, check(e.widget_fade_timer == 0, "widget_fade_timer must be > 0"@), "widget_poll_rate must be > 0"@);
            lemma_concat_contains(e4, check(!threshold_in_unit_range(e.confidence_threshold_bits), "confidence_threshold must be between 0.0 and 1.0"@), "widget_poll_rate must be > 0"@);
            lemma_concat_contains(e5, check(e.ram_threshold > 100, "ram_threshold must be <= 100"@), "widget_poll_rate must be > 0"@);
            lemma_concat_contains(e6, check(utf8_len(e.idle_category@) > 100, "idle_category too long (max 100 chars)"@), "widget_poll_rate must be > 0"@);
            lemma_concat_contains(e7, check(utf8_len(e.sb_action_name@) > 100, "sb_action_name too long (max 100 chars)"@), "widget_poll_rate must be > 0"@);
            lemma_concat_contains(e8, check(!pin_is_valid(e.spark_pin@), "spark_pin must be 4 digits"@), "widget_poll_rate must be > 0"@);
            lemma_concat_contains(e9, k4, "widget_poll_rate must be > 0"@);
        }
    }
    if e.widget_fade_timer == 0 {
        assert(validation_errors(c).contains("widget_fade_timer must be > 0"@)) by {
            lemma_check_reports(e.widget_fade_timer == 0, "widget_fade_timer must be > 0"@);
            lemma_concat_contains(e3, check(e.widget_fade_timer == 0, "widget_fade_timer must be > 0"@), "widget_fade_timer must be > 0"@);
            lemma_concat_contains(e4, check(!threshold_in_unit_range(e.confidence_threshold_bits), "confidence_threshold must be between 0.0 and 1.0"@), "widget_fade_timer must be > 0"@);
            lemma_concat_contains(e5, check(e.ram_threshold > 100, "ram_threshold must be <= 100"@), "widget_fade_timer must be > 0"@);
            lemma_concat_contains(e6, check(utf8_len(e.idle_category@) > 100, "idle_category too long (max 100 chars)"@), "widget_fade_timer must be > 0"@);
            lemma_concat_contains(e7, check(utf8_len(e.sb_action_name@) > 100, "sb_action_name too long (max 100 chars)"@), "widget_fade_timer must be > 0"@);
            lemma_concat_contains(e8, check(!pin_is_valid(e.spark_pin@), "spark_pin must be 4 digits"@), "widget_fade_timer must be > 0"@);
            lemma_concat_contains(e9, k4, "widget_fade_timer must be > 0"@);
        }
    }
    if !threshold_in_unit_range(e.confidence_threshold_bits) {
        assert(validation_errors(c).contains("confidence_threshold must be between 0.0 and 1.0"@)) by {
            lemma_check_reports(!threshold_in_unit_range(e.confidence_threshold_bits), "confidence_threshold must be between 0.0 and 1.0"@);
            lemma_concat_contains(e4, check(!threshold_in_unit_range(e.confidence_threshold_bits), "confidence_threshold must be between 0.0 and 1.0"@), "confidence_threshold must be between 0.0 and 1.0"@);
            lemma_concat_contains(e5, check(e.ram_threshold > 100, "ram_threshold must be <= 100"@), "confidence_threshold must be between 0.0 and 1.0"@);
            lemma_concat_contains(e6, check(utf8_len(e.idle_category@) > 100, "idle_category too long (max 100 chars)"@), "confidence_threshold must be between 0.0 and 1.0"@);
            lemma_concat_contains(e7, check(utf8_len(e.sb_action_name@) > 100, "sb_action_name too long (max 100 chars)"@), "confidence_threshold must be between 0.0 and 1.0"@);
            lemma_concat_contains(e8, check(!pin_is_valid(e.spark_pin@), "spark_pin must be 4 digits"@), "confidence_threshold must be between 0.0 and 1.0"@);
            lemma_concat_contains(e9, k4, "confidence_threshold must be between 0.0 and 1.0"@);
        }
    }
    if e.ram_threshold > 100 {
        assert(validation_errors(c).contains("ram_threshold must be <= 100"@)) by {
            lemma_check_reports(e.ram_threshold > 100, "ram_threshold must be <= 100"@);
            lemma_concat_contains(e5, check(e.ram_threshold > 100, "ram_threshold must be <= 100"@), "ram_threshold must be <= 100"@);
            lemma_concat_contains(e6, check(utf8_len(e.idle_category@) > 100, "idle_category too long (max 100 chars)"@), "ram_threshold must be <= 100"@);
            lemma_concat_contains(e7, check(utf8_len(e.sb_action_name@) > 100, "sb_action_name too long (max 100 chars)"@), "ram_threshold must be <= 100"@);
            lemma_concat_contains(e8, check(!pin_is_valid(e.spark_pin@), "spark_pin must be 4 digits"@), "ram_threshold must be <= 100"@);
            lemma_concat_contains(e9, k4, "ram_threshold must be <= 100"@);
        }
    }
    if utf8_len(e.idle_category@) > 100 {
        assert(validation_errors(c).contains("idle_category too long (max 100 chars)"@)) by {
            lemma_check_reports(utf8_len(e.idle_category@) > 100, "idle_category too long (max 100 chars)"@);
            lemma_concat_contains(e6, check(utf8_len(e.idle_category@) > 100, "idle_category too long (max 100 chars)"@), "idle_category too long (max 100 chars)"@);
            lemma_concat_contains(e7, check(utf8_len(e.sb_action_name@) > 100, "sb_action_name too long (max 100 chars)"@), "idle_category too long (max 100 chars)"@);
            lemma_concat_contains(e8, check(!pin_is_valid(e.spark_pin@), "spark_pin must be 4 digits"@), "idle_category too long (max 100 chars)"@);
            lemma_concat_contains(e9, k4, "idle_category too long (max 100 chars)"@);
        }
    }
    if utf8_len(e.sb_action_name@) > 100 {
        assert(validation_errors(c).contains("sb_action_name too long (max 100 chars)"@)) by {
            lemma_check_reports(utf8_len(e.sb_action_name@) > 100, "sb_action_name too long (max 100 chars)"@);
            lemma_concat_contains(e7, check(utf8_len(e.sb_action_name@) > 100, "sb_action_name too long (max 100 chars)"@), "sb_action_name too long (max 100 chars)"@);
            lemma_concat_contains(e8, check(!pin_is_valid(e.spark_pin@), "spark_pin must be 4 digits"@), "sb_action_name too long (max 100 chars)"@);
            lemma_concat_contains(e9, k4, "sb_action_name too long (max 100 chars)"@);
        }
    }
    if !pin_is_valid(e.spark_pin@) {
        assert(validation_errors(c).contains("spark_pin must be 4 digits"@)) by {
            lemma_check_reports(!pin_is_valid(e.spark_pin@), "spark_pin must be 4 digits"@);
            lemma_concat_contains(e8, check(!pin_is_valid(e.spark_pin@), "spark_pin must be 4 digits"@), "spark_pin must be 4 digits"@);
            lemma_concat_contains(e9, k4, "spark_pin must be 4 digits"@);
        }
    }
    if utf8_len(k.steamgrid@) > 200 {
        assert(validation_errors(c).contains("steamgrid key too long"@)) by {
            lemma_check_reports(utf8_len(k.steamgrid@) > 200, "steamgrid key too long"@);
            lemma_concat_contains(k1, check(utf8_len(k.rawg@) > 200, "rawg key too long"@), "steamgrid key too long"@);
            lemma_concat_contains(k2, check(utf8_len(k.igdb_client@) > 100, "igdb_client too long"@), "steamgrid key too long"@);
            lemma_concat_contains(k3, check(utf8_len(k.igdb_secret@) > 200, "igdb_secret too long"@), "steamgrid key too long"@);
            lemma_concat_contains(e9, k4, "steamgrid key too long"@);
        }
    }
    if utf8_len(k.rawg@) > 200 {
        assert(validation_errors(c).contains("rawg key too long"@)) by {
            lemma_check_reports(utf8_len(k.rawg@) > 200, "rawg key too long"@);
            lemma_concat_contains(k1, check(utf8_len(k.rawg@) > 200, "rawg key too long"@), "rawg key too long"@);
            lemma_concat_contains(k2, check(utf8_len(k.igdb_client@) > 100, "igdb_client too long"@), "rawg key too long"@);
            lemma_concat_contains(k3, check(utf8_len(k.igdb_secret@) > 200, "igdb_secret too long"@), "rawg key too long"@);
            lemma_concat_contains(e9, k4, "rawg key too long"@);
        }
    }
    if utf8_len(k.igdb_client@) > 100 {
        assert(validation_errors(c).contains("igdb_client too long"@)) by {
            lemma_check_reports(utf8_len(k.igdb_client@) > 100, "igdb_client too long"@);
            lemma_concat_contains(k2, check(utf8_len(k.igdb_client@) > 100, "igdb_client too long"@), "igdb_client too long"@);
            lemma_concat_contains(k3, check(utf8_len(k.igdb_secret@) > 200, "igdb_secret too long"@), "igdb_client too long"@);
            lemma_concat_contains(e9, k4, "igdb_client too long"@);
        }
    }
    if utf8_len(k.igdb_secret@) > 200 {
        assert(validation_errors(c).contains("igdb_secret too long"@)) by {
            lemma_check_reports(utf8_len(k.igdb_secret@) > 200, "igdb_secret too long"@);
            lemma_concat_contains(k3, check(utf8_len(k.igdb_secret@) > 200, "igdb_secret too long"@), "igdb_secret too long"@);
            lemma_concat_contains(e9, k4, "igdb_secret too long"@);
        }
    }
}

/// A configuration whose settings are all in range passes validation.
pub proof fn law_in_range_settings_pass(c: AppConfig)
    requires
        c.engine_settings.scan_interval >= 2,
        c.engine_settings.grace_period <= 300,
        c.engine_settings.widget_poll_rate > 0,
        c.engine_settings.widget_fade_timer > 0,
        !is_nan(c.engine_settings.confidence_threshold_bits),
        !f64_lt(c.engine_settings.confidence_threshold_bits, F64_ZERO),
        !f64_lt(F64_ONE, c.engine_settings.confidence_threshold_bits),
        c.engine_settings.ram_threshold <= 100,
        utf8_len(c.engine_settings.idle_category@) <= 100,
        utf8_len(c.engine_settings.sb_action_name@) <= 100,
        utf8_len(c.engine_settings.spark_pin@) == 4,
        all_ascii_digits(c.engine_settings.spark_pin@),
        utf8_len(c.api_keys.steamgrid@) <= 200,
        utf8_len(c.api_keys.rawg@) <= 200,
        utf8_len(c.api_keys.igdb_client@) <= 100,
        utf8_len(c.api_keys.igdb_secret@) <= 200,
    ensures
        validation_errors(c).len() == 0,
{
    assert(engine_setting_errors(c.engine_settings) =~= Seq::<Seq<char>>::empty());
    assert(api_key_errors(c.api_keys) =~= Seq::<Seq<char>>::empty());
}

impl ConfigError {
    /// The error's message, as it is displayed.
    pub fn message(&self) -> (r: String)
        ensures
            match self {
                ConfigError::Validation(m) => r@ == "Validation failed: "@ + m@,
                ConfigError::Serialization(m) => r@ == "Serialization failed: "@ + m@,
                ConfigError::Io(m) => r@ == "IO error: "@ + m@,
            },
    {
        match self {
            ConfigError::Validation(m) => {
                let mut s = String::from_str("Validation failed: ");
                s.append(m.as_str());
                s
            },
            ConfigError::Serialization(m) => {
                let mut s = String::from_str("Serialization failed: ");
                s.append(m.as_str());
                s
            },
            ConfigError::Io(m) => {
                let mut s = String::from_str("IO error: ");
                s.append(m.as_str());
                s
            },
        }
    }
}

/// The config an import writes: `config` sanitised, then validated. After
/// sanitising only a NaN confidence threshold still fails, and then the
/// import is refused with the validation message.
pub fn prepare_import(config: AppConfig) -> (r: Result<AppConfig, String>)
    requires
        sanitize_cuts_on_boundaries(config),
    ensures
        !is_nan(config.engine_settings.confidence_threshold_bits) ==> (r matches Ok(c)
            && is_sanitized_from(config, c) && validation_errors(c).len() == 0),
        is_nan(config.engine_settings.confidence_threshold_bits) ==> (r matches Err(m) && m@
            == "Config validation failed: Validation failed: confidence_threshold must be between 0.0 and 1.0"@),
{
    let mut c = config;
    c.sanitize();
    proof {
        lemma_sanitized_errors(config, c);
        reveal_strlit("Config validation failed: Validation failed: confidence_threshold must be between 0.0 and 1.0");
        reveal_strlit("Config validation failed: ");
        reveal_strlit("Validation failed: ");
        reveal_strlit("confidence_threshold must be between 0.0 and 1.0");
        reveal_strlit("; ");
    }
    match c.validate() {
        Ok(()) => Ok(c),
        Err(e) => {
            let mut m = String::from_str("Config validation failed: ");
            let t = e.message();
            m.append(t.as_str());
            proof {
                let msgs = validation_errors(c);
                assert(msgs.len() == 1);
                assert(join(msgs, "; "@) == msgs[0]);
                assert(m@ =~= "Config validation failed: Validation failed: confidence_threshold must be between 0.0 and 1.0"@);
            }
            Err(m)
        },
    }
}

} // verus!
