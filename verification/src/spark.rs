//! Spark, the legacy gaming-PC agent: its settings, and the known-game
//! check it runs over the running processes.
use vstd::prelude::*;

use crate::host::local_hostname;
use crate::text::{
    chars_eq, chars_of, decimal, to_lowercase, to_lowercase_spec,
    to_owned_string, u64_to_string,
};

verus! {

/// Spark's settings.
#[derive(Debug, Clone)]
pub struct SparkConfig {
    pub pin: String,
    pub hub_port: u16,
    pub scan_interval_secs: u64,
    pub auto_push: bool,
}

impl Default for SparkConfig {
    /// PIN `"0000"`, StatusForge's port 53735, a 5 s scan, auto-push on.
    fn default() -> (r: Self)
        ensures
            r.pin@ == "0000"@,
            r.hub_port == 53735,
            r.scan_interval_secs == 5,
            r.auto_push,
    {
        SparkConfig { pin: to_owned_string("0000"), hub_port: 53735, scan_interval_secs: 5, auto_push: true }
    }
}

impl SparkConfig {
    /// Sets the PIN (any text) and reports it.
    pub fn set_pin(&mut self, pin: String) -> (r: String)
        ensures
            final(self).pin == pin,
            r@ == "PIN updated"@,
            final(self).hub_port == old(self).hub_port,
            final(self).scan_interval_secs == old(self).scan_interval_secs,
            final(self).auto_push == old(self).auto_push,
    {
        self.pin = pin;
        to_owned_string("PIN updated")
    }

    /// Sets the Hub port and reports it.
    pub fn set_hub_port(&mut self, port: u16) -> (r: String)
        ensures
            final(self).hub_port == port,
            r@ == "Hub port set to "@ + decimal(port as nat),
            final(self).pin == old(self).pin,
            final(self).scan_interval_secs == old(self).scan_interval_secs,
            final(self).auto_push == old(self).auto_push,
    {
        self.hub_port = port;
        let mut m = String::from_str("Hub port set to ");
        let d = u64_to_string(port as u64);
        m.append(d.as_str());
        m
    }

    /// Sets the scan interval (as given) and reports it.
    pub fn set_scan_interval(&mut self, secs: u64) -> (r: String)
        ensures
            final(self).scan_interval_secs == secs,
            r@ == "Scan interval set to "@ + decimal(secs as nat) + "s"@,
            final(self).pin == old(self).pin,
            final(self).hub_port == old(self).hub_port,
            final(self).auto_push == old(self).auto_push,
    {
        self.scan_interval_secs = secs;
        let mut m = String::from_str("Scan interval set to ");
        let d = u64_to_string(secs);
        m.append(d.as_str());
        m.append("s");
        m
    }

    /// Flips auto-push and returns the new setting.
    pub fn toggle_auto_push(&mut self) -> (r: bool)
        ensures
            r == !old(self).auto_push,
            final(self).auto_push == r,
            final(self).pin == old(self).pin,
            final(self).hub_port == old(self).hub_port,
            final(self).scan_interval_secs == old(self).scan_interval_secs,
    {
        self.auto_push = !self.auto_push;
        self.auto_push
    }
}

/// Where heartbeats are broadcast: every host of the LAN at the Hub port.
pub fn heartbeat_target(port: u16) -> (r: String)
    ensures
        r@ == "255.255.255.255:"@ + decimal(port as nat),
{
    let mut m = String::from_str("255.255.255.255:");
    let d = u64_to_string(port as u64);
    m.append(d.as_str());
    m
}

/// The game Spark detected: its (lower-cased) process name.
#[derive(Debug, Clone)]
pub struct GameInfo {
    pub process: String,
}

/// Spark's runtime state.
#[derive(Debug, Clone)]
pub struct SparkState {
    pub config: SparkConfig,
    pub current_game: Option<GameInfo>,
    /// The last heartbeat was sent.
    pub connected: bool,
    pub hostname: String,
    pub running: bool,
}

/// Spark at start-up: default settings, no game, not connected, running.
pub fn init_state() -> (r: SparkState)
    ensures
        r.config.pin@ == "0000"@,
        r.config.hub_port == 53735,
        r.config.scan_interval_secs == 5,
        r.config.auto_push,
        r.current_game is None,
        !r.connected,
        r.running,
{
    SparkState {
        config: SparkConfig::default(),
        current_game: None,
        connected: false,
        hostname: local_hostname(),
        running: true,
    }
}

impl SparkState {
    /// Records one auto-push scan: the detected game and whether its
    /// heartbeat was sent.
    pub fn record_scan(&mut self, game: Option<GameInfo>, sent: bool)
        ensures
            final(self).current_game == game,
            final(self).connected == sent,
            final(self).config == old(self).config,
            final(self).hostname == old(self).hostname,
            final(self).running == old(self).running,
    {
        self.current_game = game;
        self.connected = sent;
    }
}

/// What a tick of the scanner loop shows: whether StatusForge was reached
/// and the game detected.
pub struct SparkReport {
    pub connected: bool,
    pub current_game: Option<GameInfo>,
}

impl SparkState {
    /// What a scanner tick reports. With auto-push on, the tick scanned
    /// (see `record_scan`) and reports what it found and whether the
    /// heartbeat went out; with auto-push off there is no scan, so it
    /// reports no game and no connection.
    pub fn tick_report(&self) -> (r: SparkReport)
        ensures
            self.config.auto_push ==> r.connected == self.connected && match (r.current_game, self.current_game) {
                (Some(a), Some(b)) => a.process@ == b.process@,
                (None, None) => true,
                _ => false,
            },
            !self.config.auto_push ==> !r.connected && r.current_game is None,
    {
        if self.config.auto_push {
            let game = match &self.current_game {
                Some(g) => Some(GameInfo { process: g.process.clone() }),
                None => None,
            };
            SparkReport { connected: self.connected, current_game: game }
        } else {
            SparkReport { connected: false, current_game: None }
        }
    }
}

/// The answer to a manual push, from the heartbeat's result.
pub fn manual_push_result(sent: Result<(), String>) -> (r: Result<String, String>)
    ensures
        sent is Ok ==> (r matches Ok(m) && m@ == "Pushed to StatusForge"@),
        sent matches Err(e) ==> (r matches Err(m) && m@ == "Push failed: "@ + e@),
{
    match sent {
        Ok(()) => Ok(to_owned_string("Pushed to StatusForge")),
        Err(e) => {
            let mut m = String::from_str("Push failed: ");
            m.append(e.as_str());
            Err(m)
        },
    }
}

// ───────────────────────────── known games ─────────────────────────────

/// The executables Spark recognises as games.
pub open spec fn known_games() -> Seq<Seq<char>> {
    seq![
        "eldenring.exe"@,
        "witcher3.exe"@,
        "cyberpunk2077.exe"@,
        "gta5.exe"@,
        "rdr2.exe"@,
        "minecraft.exe"@,
        "valorant.exe"@,
        "cs2.exe"@,
        "dota2.exe"@,
        "lol.exe"@,
        "fortnite.exe"@,
        "apex.exe"@,
        "overwatch.exe"@,
        "destiny2.exe"@,
        "warzone.exe"@,
        "cod.exe"@,
        "battlefield.exe"@,
        "starfield.exe"@,
        "baldursgate3.exe"@,
        "hogwarts.exe"@,
        "palworld.exe"@,
        "helldivers2.exe"@,
        "satisfactory.exe"@,
        "rust.exe"@,
        "ark.exe"@,
        "terraria.exe"@,
        "stardewvalley.exe"@,
        "hollow_knight.exe"@,
        "celeste.exe"@,
        "hades.exe"@,
        "riskofrain2.exe"@,
        "deeprockgalactic.exe"@,
        "left4dead2.exe"@,
        "portal2.exe"@,
        "half-life.exe"@,
        "skyrim.exe"@,
        "fallout4.exe"@,
        "oblivion.exe"@,
        "morrowind.exe"@,
        "eso.exe"@,
        "ffxiv.exe"@,
        "wow.exe"@,
        "diablo.exe"@,
        "diablo4.exe"@,
        "pathofexile.exe"@,
        "grimdawn.exe"@,
        "torchlight.exe"@,
        "borderlands.exe"@,
        "borderlands3.exe"@,
        "division.exe"@,
        "division2.exe"@,
        "far cry.exe"@,
        "farcry5.exe"@,
        "assassinscreed.exe"@,
        "watch_dogs.exe"@,
        "ghostrecon.exe"@,
        "splintercell.exe"@,
        "justcause.exe"@,
        "madmax.exe"@,
        "metalgear.exe"@,
        "deathstranding.exe"@,
        "silenthill.exe"@,
        "residentevil.exe"@,
        "re4.exe"@,
        "deadspace.exe"@,
        "bioshock.exe"@,
        "prey.exe"@,
        "dishonored.exe"@,
        "doom.exe"@,
        "eternal.exe"@,
        "quake.exe"@,
        "unreal.exe"@,
        "rocketleague.exe"@,
        "fallguys.exe"@,
        "amongus.exe"@,
        "phasmophobia.exe"@,
        "gtav.exe"@,
        "fivem.exe"@,
        "spotify.exe"@,
        "discord.exe"@,
        "obs.exe"@,
        "streamlabs.exe"@
    ]
}

/// `str::trim_end_matches(".exe")`: every trailing `.exe` removed.
pub open spec fn trim_exe(s: Seq<char>) -> Seq<char>
    decreases s.len(),
{
    if s.len() >= 4 && s.subrange(s.len() - 4, s.len() as int) == ".exe"@ {
        trim_exe(s.subrange(0, s.len() - 4))
    } else {
        s
    }
}

/// `key` names a known game once `.exe` is trimmed from both.
pub open spec fn is_known_key(key: Seq<char>) -> bool {
    exists|j: int| 0 <= j < known_games().len() && trim_exe(#[trigger] known_games()[j]) == key
}

/// The comparison key of a process name: lower-cased, `.exe` trimmed.
pub open spec fn process_key(name: Seq<char>) -> Seq<char> {
    trim_exe(to_lowercase_spec(name))
}

fn known_game_list() -> (r: Vec<&'static str>)
    ensures
        r@.map_values(|s: &str| s@) == known_games(),
{
    let v: Vec<&'static str> = vec![
        "eldenring.exe",
        "witcher3.exe",
        "cyberpunk2077.exe",
        "gta5.exe",
        "rdr2.exe",
        "minecraft.exe",
        "valorant.exe",
        "cs2.exe",
        "dota2.exe",
        "lol.exe",
        "fortnite.exe",
        "apex.exe",
        "overwatch.exe",
        "destiny2.exe",
        "warzone.exe",
        "cod.exe",
        "battlefield.exe",
        "starfield.exe",
        "baldursgate3.exe",
        "hogwarts.exe",
        "palworld.exe",
        "helldivers2.exe",
        "satisfactory.exe",
        "rust.exe",
        "ark.exe",
        "terraria.exe",
        "stardewvalley.exe",
        "hollow_knight.exe",
        "celeste.exe",
        "hades.exe",
        "riskofrain2.exe",
        "deeprockgalactic.exe",
        "left4dead2.exe",
        "portal2.exe",
        "half-life.exe",
        "skyrim.exe",
        "fallout4.exe",
        "oblivion.exe",
        "morrowind.exe",
        "eso.exe",
        "ffxiv.exe",
        "wow.exe",
        "diablo.exe",
        "diablo4.exe",
        "pathofexile.exe",
        "grimdawn.exe",
        "torchlight.exe",
        "borderlands.exe",
        "borderlands3.exe",
        "division.exe",
        "division2.exe",
        "far cry.exe",
        "farcry5.exe",
        "assassinscreed.exe",
        "watch_dogs.exe",
        "ghostrecon.exe",
        "splintercell.exe",
        "justcause.exe",
        "madmax.exe",
        "metalgear.exe",
        "deathstranding.exe",
        "silenthill.exe",
        "residentevil.exe",
        "re4.exe",
        "deadspace.exe",
        "bioshock.exe",
        "prey.exe",
        "dishonored.exe",
        "doom.exe",
        "eternal.exe",
        "quake.exe",
        "unreal.exe",
        "rocketleague.exe",
        "fallguys.exe",
        "amongus.exe",
        "phasmophobia.exe",
        "gtav.exe",
        "fivem.exe",
        "spotify.exe",
        "discord.exe",
        "obs.exe",
        "streamlabs.exe"
    ];
    assert(v@.map_values(|s: &str| s@) =~= known_games());
    v
}

fn trim_exe_chars(s: &[char]) -> (r: Vec<char>)
    ensures
        r@ == trim_exe(s@),
{
    proof {
        reveal_strlit(".exe");
    }
    let mut n: usize = s.len();
    assert(s@.subrange(0, n as int) =~= s@);
    while n >= 4 && s[n - 4] == '.' && s[n - 3] == 'e' && s[n - 2] == 'x' && s[n - 1] == 'e'
        invariant
            n <= s@.len(),
            trim_exe(s@.subrange(0, n as int)) == trim_exe(s@),
        decreases n,
    {
        proof {
            reveal_strlit(".exe");
            let t = s@.subrange(0, n as int);
            assert(t.subrange(t.len() - 4, t.len() as int) =~= ".exe"@);
            assert(t.subrange(0, t.len() - 4) =~= s@.subrange(0, n - 4));
        }
        n = n - 4;
    }
    proof {
        reveal_strlit(".exe");
        let t = s@.subrange(0, n as int);
        if n >= 4 {
            assert(t.subrange(t.len() - 4, t.len() as int) != ".exe"@) by {
                let w = t.subrange(t.len() - 4, t.len() as int);
                if w == ".exe"@ {
                    assert(w[0] == s@[n - 4]);
                    assert(w[1] == s@[n - 3]);
                    assert(w[2] == s@[n - 2]);
                    assert(w[3] == s@[n - 1]);
                }
            }
        }
    }
    let mut out: Vec<char> = Vec::new();
    let mut i: usize = 0;
    while i < n
        invariant
            n <= s@.len(),
            i <= n,
            out@ == s@.subrange(0, i as int),
        decreases n - i,
    {
        out.push(s[i]);
        proof {
            assert(out@ =~= s@.subrange(0, i + 1));
        }
        i += 1;
    }
    out
}

/// The first running process whose name is a known game (compared
/// lower-cased, `.exe` trimmed), reported by its lower-cased name.
pub fn detect_known_game(names: &Vec<String>) -> (r: Option<GameInfo>)
    ensures
        r is None ==> forall|i: int| 0 <= i < names@.len() ==> !is_known_key(process_key(#[trigger] names@[i]@)),
        r matches Some(g) ==> exists|i: int|
            0 <= i < names@.len() && is_known_key(process_key(#[trigger] names@[i]@)) && g.process@
                == to_lowercase_spec(names@[i]@) && forall|k: int|
                0 <= k < i ==> !is_known_key(process_key(#[trigger] names@[k]@)),
{
    let known = known_game_list();
    let mut i: usize = 0;
    while i < names.len()
        invariant
            known@.map_values(|s: &str| s@) == known_games(),
            i <= names@.len(),
            forall|k: int| 0 <= k < i ==> !is_known_key(process_key(#[trigger] names@[k]@)),
        decreases names@.len() - i,
    {
        let lowered = to_lowercase(names[i].as_str());
        let key = trim_exe_chars(chars_of(lowered.as_str()).as_slice());
        let mut j: usize = 0;
        while j < known.len()
            invariant
                known@.map_values(|s: &str| s@) == known_games(),
                i < names@.len(),
                forall|k: int| 0 <= k < i ==> !is_known_key(process_key(#[trigger] names@[k]@)),
                j <= known@.len(),
                key@ == process_key(names@[i as int]@),
                lowered@ == to_lowercase_spec(names@[i as int]@),
                forall|m: int| 0 <= m < j ==> trim_exe(#[trigger] known_games()[m]) != key@,
            decreases known@.len() - j,
        {
            let g = trim_exe_chars(chars_of(known[j]).as_slice());
            proof {
                assert(known_games()[j as int] == known@[j as int]@);
            }
            if chars_eq(g.as_slice(), key.as_slice()) {
                return Some(GameInfo { process: lowered });
            }
            j += 1;
        }
        proof {
            assert(!is_known_key(key@));
        }
        i += 1;
    }
    None
}

} // verus!
