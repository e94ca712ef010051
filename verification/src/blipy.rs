//! Blipy, the gaming-PC agent: its settings, the Hub it has discovered and
//! the game it last detected.
use vstd::prelude::*;

use crate::config::{pin_is_valid, spark_pin_is_valid};
use crate::host::local_hostname;
use crate::text::{decimal, str_byte_len, str_eq, to_owned_string, u64_to_string, utf8_len};

verus! {

/// Blipy's persisted settings.
#[derive(Debug, Clone)]
pub struct BlipyConfig {
    pub pin: String,
    /// Optional pairing key mixed into the heartbeat signature secret.
    pub pairing_key: String,
    pub scan_interval_secs: u64,
    pub auto_push: bool,
}

impl Default for BlipyConfig {
    /// PIN `"0000"`, no pairing key, a 5 s scan, auto-push on.
    fn default() -> (r: Self)
        ensures
            r.pin@ == "0000"@,
            r.pairing_key@.len() == 0,
            r.scan_interval_secs == 5,
            r.auto_push,
    {
        BlipyConfig {
            pin: to_owned_string("0000"),
            pairing_key: String::new(),
            scan_interval_secs: 5,
            auto_push: true,
        }
    }
}

/// A scan interval kept within 1..=60 seconds.
pub open spec fn clamp_interval(secs: u64) -> u64 {
    if secs < 1 {
        1
    } else if secs > 60 {
        60
    } else {
        secs
    }
}

fn clamp_interval_exec(secs: u64) -> (r: u64)
    ensures
        r == clamp_interval(secs),
{
    if secs < 1 {
        1
    } else if secs > 60 {
        60
    } else {
        secs
    }
}

impl BlipyConfig {
    /// Sets the pairing PIN: exactly four ASCII digits, else an error and no
    /// change.
    pub fn set_pin(&mut self, pin: String) -> (r: Result<String, String>)
        ensures
            pin_is_valid(pin@) ==> (r matches Ok(m) && m@ == "PIN updated"@ && final(self).pin
                == pin),
            !pin_is_valid(pin@) ==> (r matches Err(m) && m@ == "PIN must be exactly 4 digits"@
                && final(self).pin == old(self).pin),
            final(self).pairing_key == old(self).pairing_key,
            final(self).scan_interval_secs == old(self).scan_interval_secs,
            final(self).auto_push == old(self).auto_push,
    {
        if !spark_pin_is_valid(pin.as_str()) {
            return Err(to_owned_string("PIN must be exactly 4 digits"));
        }
        self.pin = pin;
        Ok(to_owned_string("PIN updated"))
    }

    /// Sets the pairing key: at most 128 bytes, else an error and no change.
    pub fn set_pairing_key(&mut self, key: String) -> (r: Result<String, String>)
        ensures
            utf8_len(key@) <= 128 ==> (r matches Ok(m) && m@ == "Pairing key updated"@
                && final(self).pairing_key == key),
            utf8_len(key@) > 128 ==> (r matches Err(m) && m@
                == "Pairing key too long (max 128 chars)"@ && final(self).pairing_key == old(
                self,
            ).pairing_key),
            final(self).pin == old(self).pin,
            final(self).scan_interval_secs == old(self).scan_interval_secs,
            final(self).auto_push == old(self).auto_push,
    {
        if str_byte_len(key.as_str()) > 128 {
            return Err(to_owned_string("Pairing key too long (max 128 chars)"));
        }
        self.pairing_key = key;
        Ok(to_owned_string("Pairing key updated"))
    }

    /// Sets the scan interval, kept within 1..=60 s, and reports it.
    pub fn set_scan_interval(&mut self, secs: u64) -> (r: String)
        ensures
            final(self).scan_interval_secs == clamp_interval(secs),
            r@ == "Scan interval set to "@ + decimal(clamp_interval(secs) as nat) + "s"@,
            final(self).pin == old(self).pin,
            final(self).pairing_key == old(self).pairing_key,
            final(self).auto_push == old(self).auto_push,
    {
        let s = clamp_interval_exec(secs);
        self.scan_interval_secs = s;
        let mut m = String::from_str("Scan interval set to ");
        let d = u64_to_string(s);
        m.append(d.as_str());
        m.append("s");
        m
    }

    /// Flips auto-push and returns the new setting.
    pub fn toggle_auto_push(&mut self) -> (r: bool)
        ensures
            r == !old(self).auto_push,
            final(self).auto_push == r,
            final(self).pin == old(self).pin,
            final(self).pairing_key == old(self).pairing_key,
            final(self).scan_interval_secs == old(self).scan_interval_secs,
    {
        self.auto_push = !self.auto_push;
        self.auto_push
    }

    /// The scanner loop's pause between scans (1..=60 s).
    pub fn scan_interval(&self) -> (r: u64)
        ensures
            r == clamp_interval(self.scan_interval_secs),
    {
        clamp_interval_exec(self.scan_interval_secs)
    }
}

/// The game Blipy last detected.
#[derive(Debug, Clone)]
pub struct GameInfo {
    pub title: String,
    pub process: String,
    pub is_playing: bool,
}

/// Blipy's runtime state. Times are milliseconds since the Unix epoch.
#[derive(Debug, Clone)]
pub struct BlipyState {
    pub config: BlipyConfig,
    pub current_game: Option<GameInfo>,
    /// The most recently discovered Hub and when it last announced itself.
    pub hub: Option<(String, u64)>,
    /// Seconds since the Unix epoch of the last scan (0: none yet).
    pub last_scan: u64,
    pub hostname: String,
    pub running: bool,
}

/// A Hub goes stale 30 s after its last announcement (it announces every
/// 5 s).
pub open spec fn hub_is_live(seen_ms: u64, now_ms: u64) -> bool {
    (now_ms as int) - (seen_ms as int) < 30_000
}

/// Blipy at start-up with the loaded settings: no game, no Hub, no scan
/// yet, running.
pub fn init_state(config: BlipyConfig) -> (r: BlipyState)
    ensures
        r.config == config,
        r.current_game is None,
        r.hub is None,
        r.last_scan == 0,
        r.running,
{
    BlipyState {
        config,
        current_game: None,
        hub: None,
        last_scan: 0,
        hostname: local_hostname(),
        running: true,
    }
}

impl BlipyState {
    /// The Hub's name if it announced itself within the last 30 s.
    pub fn live_hub(&self, now_ms: u64) -> (r: Option<String>)
        ensures
            match self.hub {
                Some((name, seen)) => if hub_is_live(seen, now_ms) {
                    r matches Some(n) && n@ == name@
                } else {
                    r is None
                },
                None => r is None,
            },
    {
        match &self.hub {
            Some((name, seen)) => {
                if (now_ms as u128) < (*seen as u128) + 30_000 {
                    Some(name.clone())
                } else {
                    None
                }
            },
            None => None,
        }
    }

    /// Takes in a discovery announcement: one from `StatusForge_Hub` with a
    /// name records that Hub as seen now. Returns whether it is a Hub not
    /// seen before (no Hub yet, or another name).
    pub fn on_announce(&mut self, app: &str, hub_name: &str, now_ms: u64) -> (r: bool)
        ensures
            (app@ == "StatusForge_Hub"@ && hub_name@.len() > 0) ==> (final(self).hub matches Some(
                h,
            ) && h.0@ == hub_name@ && h.1 == now_ms && r == match old(self).hub {
                Some(o) => o.0@ != hub_name@,
                None => true,
            }),
            !(app@ == "StatusForge_Hub"@ && hub_name@.len() > 0) ==> (!r && final(self).hub == old(
                self,
            ).hub),
            final(self).config == old(self).config,
            final(self).current_game == old(self).current_game,
            final(self).last_scan == old(self).last_scan,
            final(self).hostname == old(self).hostname,
            final(self).running == old(self).running,
    {
        if !str_eq(app, "StatusForge_Hub") || hub_name.is_empty() {
            return false;
        }
        let is_new = match &self.hub {
            Some((n, _)) => !str_eq(n.as_str(), hub_name),
            None => true,
        };
        self.hub = Some((to_owned_string(hub_name), now_ms));
        is_new
    }

    /// Records one auto-push scan at `now_secs`: the detected game (title
    /// and process), playing, or none.
    pub fn record_scan(&mut self, detected: Option<(String, String)>, now_secs: u64)
        ensures
            match detected {
                Some((t, p)) => final(self).current_game matches Some(g) && g.title == t
                    && g.process == p && g.is_playing,
                None => final(self).current_game is None,
            },
            final(self).last_scan == now_secs,
            final(self).config == old(self).config,
            final(self).hub == old(self).hub,
            final(self).hostname == old(self).hostname,
            final(self).running == old(self).running,
    {
        self.current_game = match detected {
            Some((title, process)) => Some(GameInfo { title, process, is_playing: true }),
            None => None,
        };
        self.last_scan = now_secs;
    }

    /// The answer to a manual push: the live Hub pushed to, or a note that
    /// none has been discovered.
    pub fn manual_push_message(&self, now_ms: u64) -> (r: String)
        ensures
            match self.hub {
                Some((name, seen)) => if hub_is_live(seen, now_ms) {
                    r@ == "Pushed to "@ + name@
                } else {
                    r@ == "Pushed (no Hub discovered yet)"@
                },
                None => r@ == "Pushed (no Hub discovered yet)"@,
            },
    {
        match self.live_hub(now_ms) {
            Some(h) => {
                let mut m = String::from_str("Pushed to ");
                m.append(h.as_str());
                m
            },
            None => to_owned_string("Pushed (no Hub discovered yet)"),
        }
    }
}

// ───────────────────────────── laws ─────────────────────────────

/// Blipy's PIN stays a valid 4-digit PIN: the default one is, and `set_pin`
/// only ever stores a valid one.
pub proof fn law_pin_stays_valid(before: BlipyConfig, pin: String, after: BlipyConfig)
    requires
        pin_is_valid(before.pin@),
        pin_is_valid(pin@) ==> after.pin == pin,
        !pin_is_valid(pin@) ==> after.pin == before.pin,
    ensures
        pin_is_valid(after.pin@),
{
}

/// The default PIN is valid.
pub proof fn law_default_pin_is_valid()
    ensures
        pin_is_valid("0000"@),
{
    reveal_strlit("0000");
    assert(utf8_len("0000"@) == 4) by {
        reveal_with_fuel(utf8_len, 5);
    }
}

} // verus!
