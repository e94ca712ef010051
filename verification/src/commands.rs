//! The rules behind the desktop app's commands: where its data lives, which
//! secrets move to the OS keychain, and the checks its commands make before
//! they act.
use vstd::prelude::*;

use crate::assoc::{assoc_get, assoc_view, keys_unique};
use crate::text::{chars_eq, chars_of, decimal, to_owned_string, u64_to_string};

verus! {

// ───────────────────────────── data directory ─────────────────────────────

/// Which directory holds `Config.json` and the other data files.
#[derive(Debug, Clone, Copy, PartialEq, Eq, Structural)]
pub enum BaseDirChoice {
    /// The resource directory itself (installed builds).
    ResourceDir,
    /// Its parent (development builds, where the data sits in the
    /// workspace root).
    ParentDir,
}

/// The data directory: the resource directory when it has a `Config.json`,
/// else its parent when that has one, else the resource directory.
pub fn choose_base_dir(resource_has_config: bool, parent_has_config: Option<bool>) -> (r: BaseDirChoice)
    ensures
        r == if resource_has_config {
            BaseDirChoice::ResourceDir
        } else if parent_has_config == Some(true) {
            BaseDirChoice::ParentDir
        } else {
            BaseDirChoice::ResourceDir
        },
{
    if resource_has_config {
        BaseDirChoice::ResourceDir
    } else if parent_has_config == Some(true) {
        BaseDirChoice::ParentDir
    } else {
        BaseDirChoice::ResourceDir
    }
}

/// The views of a list of strings.
pub open spec fn part_views(v: Seq<String>) -> Seq<Seq<char>> {
    v.map_values(|s: String| s@)
}

/// `Path::starts_with`: the base's components are the path's first
/// components.
pub open spec fn components_start_with(path: Seq<Seq<char>>, base: Seq<Seq<char>>) -> bool {
    base.len() <= path.len() && forall|i: int| 0 <= i < base.len() ==> path[i] == base[i]
}

/// Whether a canonical path (as components) lies under the canonical base
/// directory — the guard against path traversal.
pub fn path_within(path: &Vec<String>, base: &Vec<String>) -> (r: bool)
    ensures
        r == components_start_with(part_views(path@), part_views(base@)),
{
    if base.len() > path.len() {
        return false;
    }
    let mut i: usize = 0;
    while i < base.len()
        invariant
            base@.len() <= path@.len(),
            i <= base@.len(),
            forall|j: int| 0 <= j < i ==> part_views(path@)[j] == part_views(base@)[j],
        decreases base@.len() - i,
    {
        if !chars_eq(chars_of(path[i].as_str()).as_slice(), chars_of(base[i].as_str()).as_slice()) {
            proof {
                assert(part_views(path@)[i as int] != part_views(base@)[i as int]);
            }
            return false;
        }
        i += 1;
    }
    true
}

// ───────────────────────────── keychain migration ─────────────────────────────

/// Which section of `Config.json` a secret comes from.
#[derive(Debug, Clone, Copy, PartialEq, Eq, Structural)]
pub enum ConfigSection {
    Broadcaster,
    ApiKeys,
}

/// The broadcaster secrets that move to the keychain, as (JSON key,
/// keychain entry), in migration order.
pub open spec fn broadcaster_secret_names() -> Seq<(Seq<char>, Seq<char>)> {
    seq![
        ("twitch_token"@, "twitch_access_token"@),
        ("twitch_refresh"@, "twitch_refresh_token"@),
        ("kick_token"@, "kick_access_token"@),
        ("kick_refresh"@, "kick_refresh_token"@),
        ("twitch_secret"@, "twitch_client_secret"@),
        ("kick_secret"@, "kick_client_secret"@),
    ]
}

/// The API-key secrets that move to the keychain, in migration order.
pub open spec fn api_secret_names() -> Seq<(Seq<char>, Seq<char>)> {
    seq![
        ("igdb_token"@, "igdb_api_token"@),
        ("igdb_secret"@, "igdb_api_secret"@),
        ("rawg"@, "rawg_api_key"@),
        ("steamgrid"@, "steamgrid_api_key"@),
    ]
}

/// One secret to store in the keychain and blank in `Config.json`.
#[derive(Debug, Clone)]
pub struct SecretMove {
    pub section: ConfigSection,
    pub json_key: String,
    pub keychain_name: String,
    pub value: String,
}

/// The view of a move: (section, JSON key, keychain entry, value).
pub open spec fn move_view(m: SecretMove) -> (ConfigSection, Seq<char>, Seq<char>, Seq<char>) {
    (m.section, m.json_key@, m.keychain_name@, m.value@)
}

/// The moves for one section: each listed key whose value in the section's
/// string fields is non-empty, in list order.
pub open spec fn section_moves(
    section: ConfigSection,
    fields: Map<Seq<char>, String>,
    names: Seq<(Seq<char>, Seq<char>)>,
) -> Seq<(ConfigSection, Seq<char>, Seq<char>, Seq<char>)>
    decreases names.len(),
{
    if names.len() == 0 {
        Seq::empty()
    } else {
        let rest = section_moves(section, fields, names.drop_last());
        let (k, n) = names.last();
        if fields.dom().contains(k) && fields[k]@.len() > 0 {
            rest.push((section, k, n, fields[k]@))
        } else {
            rest
        }
    }
}

/// Appends the moves for one section.
fn push_section_moves(
    out: &mut Vec<SecretMove>,
    section: ConfigSection,
    fields: &Vec<(String, String)>,
    names: &Vec<(&str, &str)>,
)
    requires
        keys_unique(fields@),
    ensures
        final(out)@.map_values(|m: SecretMove| move_view(m)) == old(out)@.map_values(
            |m: SecretMove| move_view(m),
        ) + section_moves(
            section,
            assoc_view(fields@),
            names@.map_values(|p: (&str, &str)| (p.0@, p.1@)),
        ),
{
    let ghost start = old(out)@.map_values(|m: SecretMove| move_view(m));
    let ghost nv = names@.map_values(|p: (&str, &str)| (p.0@, p.1@));
    let mut i: usize = 0;
    proof {
        assert(nv.take(0) =~= Seq::<(Seq<char>, Seq<char>)>::empty());
        assert(out@.map_values(|m: SecretMove| move_view(m)) =~= start + Seq::empty());
    }
    while i < names.len()
        invariant
            keys_unique(fields@),
            i <= names@.len(),
            nv == names@.map_values(|p: (&str, &str)| (p.0@, p.1@)),
            out@.map_values(|m: SecretMove| move_view(m)) == start + section_moves(
                section,
                assoc_view(fields@),
                nv.take(i as int),
            ),
        decreases names@.len() - i,
    {
        proof {
            assert(nv.take(i + 1).drop_last() =~= nv.take(i as int));
            assert(nv.take(i + 1).last() == nv[i as int]);
        }
        let (key, name) = names[i];
        match assoc_get(fields, key) {
            Some(v) => {
                if !v.as_str().is_empty() {
                    let ghost before = out@.map_values(|m: SecretMove| move_view(m));
                    out.push(
                        SecretMove {
                            section,
                            json_key: to_owned_string(key),
                            keychain_name: to_owned_string(name),
                            value: v.clone(),
                        },
                    );
                    proof {
                        assert(out@.map_values(|m: SecretMove| move_view(m)) =~= before.push(
                            move_view(out@.last()),
                        ));
                    }
                }
            },
            None => {},
        }
        i += 1;
    }
    proof {
        assert(nv.take(names@.len() as int) =~= nv);
    }
}

/// The secrets `Config.json` still holds in plain text that move to the
/// keychain, in order: the broadcaster's tokens and secrets, then (when the
/// file has an `api_keys` section) the API keys. Each section is given as
/// its string fields; an empty value is left alone.
pub fn secret_migration_plan(
    broadcaster: &Vec<(String, String)>,
    api_keys: Option<&Vec<(String, String)>>,
) -> (r: Vec<SecretMove>)
    requires
        keys_unique(broadcaster@),
        api_keys matches Some(a) ==> keys_unique(a@),
    ensures
        r@.map_values(|m: SecretMove| move_view(m)) == section_moves(
            ConfigSection::Broadcaster,
            assoc_view(broadcaster@),
            broadcaster_secret_names(),
        ) + match api_keys {
            Some(a) => section_moves(ConfigSection::ApiKeys, assoc_view(a@), api_secret_names()),
            None => Seq::empty(),
        },
{
    let mut out: Vec<SecretMove> = Vec::new();
    let b_names: Vec<(&str, &str)> = vec![
        ("twitch_token", "twitch_access_token"),
        ("twitch_refresh", "twitch_refresh_token"),
        ("kick_token", "kick_access_token"),
        ("kick_refresh", "kick_refresh_token"),
        ("twitch_secret", "twitch_client_secret"),
        ("kick_secret", "kick_client_secret"),
    ];
    proof {
        assert(b_names@.map_values(|p: (&str, &str)| (p.0@, p.1@)) =~= broadcaster_secret_names());
        assert(out@.map_values(|m: SecretMove| move_view(m)) =~= Seq::empty());
    }
    push_section_moves(&mut out, ConfigSection::Broadcaster, broadcaster, &b_names);
    match api_keys {
        Some(a) => {
            let a_names: Vec<(&str, &str)> = vec![
                ("igdb_token", "igdb_api_token"),
                ("igdb_secret", "igdb_api_secret"),
                ("rawg", "rawg_api_key"),
                ("steamgrid", "steamgrid_api_key"),
            ];
            proof {
                assert(a_names@.map_values(|p: (&str, &str)| (p.0@, p.1@)) =~= api_secret_names());
            }
            push_section_moves(&mut out, ConfigSection::ApiKeys, a, &a_names);
        },
        None => {
            proof {
                assert(out@.map_values(|m: SecretMove| move_view(m)) =~= out@.map_values(
                    |m: SecretMove| move_view(m),
                ) + Seq::empty());
            }
        },
    }
    out
}

/// The keychain entries the frontend reads its credentials from, in order.
pub open spec fn keychain_token_names() -> Seq<Seq<char>> {
    seq![
        "twitch_token"@,
        "twitch_refresh"@,
        "kick_token"@,
        "kick_refresh"@,
        "twitch_secret"@,
        "kick_secret"@,
        "twitch_client_id"@,
        "kick_client_id"@,
        "igdb_token"@,
        "igdb_secret"@,
        "rawg"@,
        "steamgrid"@,
    ]
}

/// The keychain entries the frontend reads its credentials from.
pub fn keychain_token_list() -> (r: Vec<&'static str>)
    ensures
        r@.map_values(|s: &str| s@) == keychain_token_names(),
{
    let v: Vec<&'static str> = vec![
        "twitch_token",
        "twitch_refresh",
        "kick_token",
        "kick_refresh",
        "twitch_secret",
        "kick_secret",
        "twitch_client_id",
        "kick_client_id",
        "igdb_token",
        "igdb_secret",
        "rawg",
        "steamgrid",
    ];
    assert(v@.map_values(|s: &str| s@) =~= keychain_token_names());
    v
}

/// The (name, value) pairs of `reads` whose value could be read and is not
/// empty, in order.
pub open spec fn present_tokens_spec(reads: Seq<(String, Option<String>)>) -> Seq<(Seq<char>, Seq<char>)>
    decreases reads.len(),
{
    if reads.len() == 0 {
        Seq::empty()
    } else {
        let rest = present_tokens_spec(reads.drop_last());
        match reads.last().1 {
            Some(v) => if v@.len() > 0 {
                rest.push((reads.last().0@, v@))
            } else {
                rest
            },
            None => rest,
        }
    }
}

/// The credentials the frontend receives: each stored, non-empty token.
pub fn present_tokens(reads: &Vec<(String, Option<String>)>) -> (r: Vec<(String, String)>)
    ensures
        r@.map_values(|p: (String, String)| (p.0@, p.1@)) == present_tokens_spec(reads@),
{
    let mut out: Vec<(String, String)> = Vec::new();
    let mut i: usize = 0;
    while i < reads.len()
        invariant
            i <= reads@.len(),
            out@.map_values(|p: (String, String)| (p.0@, p.1@)) == present_tokens_spec(
                reads@.take(i as int),
            ),
        decreases reads@.len() - i,
    {
        proof {
            assert(reads@.take(i + 1).drop_last() =~= reads@.take(i as int));
            assert(reads@.take(i + 1).last() == reads@[i as int]);
        }
        let (name, value) = &reads[i];
        match value {
            Some(v) => {
                if !v.as_str().is_empty() {
                    let ghost before = out@.map_values(|p: (String, String)| (p.0@, p.1@));
                    out.push((name.clone(), v.clone()));
                    proof {
                        assert(out@.map_values(|p: (String, String)| (p.0@, p.1@)) =~= before.push(
                            (name@, v@),
                        ));
                    }
                }
            },
            None => {},
        }
        i += 1;
    }
    proof {
        assert(reads@.take(reads@.len() as int) =~= reads@);
    }
    out
}

// ───────────────────────────── command checks ─────────────────────────────

/// A login needs the platform's client id.
pub fn login_client_check(client_id: &str, platform_is_kick: bool) -> (r: Result<(), String>)
    ensures
        client_id@.len() > 0 <==> r is Ok,
        r matches Err(m) ==> m@ == if platform_is_kick {
            "Kick client ID not configured"@
        } else {
            "Twitch client ID not configured"@
        },
{
    if client_id.is_empty() {
        if platform_is_kick {
            Err(to_owned_string("Kick client ID not configured"))
        } else {
            Err(to_owned_string("Twitch client ID not configured"))
        }
    } else {
        Ok(())
    }
}

/// Validating a pasted Twitch token needs the token and the client id.
pub fn twitch_validate_check(token: &str, client_id: &str) -> (r: Result<(), String>)
    ensures
        token@.len() == 0 ==> (r matches Err(m) && m@ == "No Twitch access token to validate"@),
        token@.len() > 0 && client_id@.len() == 0 ==> (r matches Err(m) && m@
            == "Twitch Client ID is required to validate a token"@),
        token@.len() > 0 && client_id@.len() > 0 ==> r is Ok,
{
    if token.is_empty() {
        Err(to_owned_string("No Twitch access token to validate"))
    } else if client_id.is_empty() {
        Err(to_owned_string("Twitch Client ID is required to validate a token"))
    } else {
        Ok(())
    }
}

/// Validating a pasted Kick token needs the token.
pub fn kick_validate_check(token: &str) -> (r: Result<(), String>)
    ensures
        token@.len() > 0 <==> r is Ok,
        r matches Err(m) ==> m@ == "No Kick access token to validate"@,
{
    if token.is_empty() {
        Err(to_owned_string("No Kick access token to validate"))
    } else {
        Ok(())
    }
}

/// Syncing the Kick category database needs a Kick token.
pub fn kick_sync_check(token: &str) -> (r: Result<(), String>)
    ensures
        token@.len() > 0 <==> r is Ok,
        r matches Err(m) ==> m@ == "No Kick access token — authenticate first"@,
{
    if token.is_empty() {
        Err(to_owned_string("No Kick access token — authenticate first"))
    } else {
        Ok(())
    }
}

/// The overlay token as the settings page shows it: the stored one, or
/// `"Unknown"`.
pub fn widget_token_or_unknown(token: Option<&str>) -> (r: String)
    ensures
        token matches Some(t) ==> r@ == t@,
        token is None ==> r@ == "Unknown"@,
{
    match token {
        Some(t) => to_owned_string(t),
        None => to_owned_string("Unknown"),
    }
}

/// Log verbosity levels.
#[derive(Debug, Clone, Copy, PartialEq, Eq, Structural)]
pub enum LogLevel {
    Error,
    Warn,
    Info,
    Debug,
}

/// The log level named `level`.
pub fn parse_log_level(level: &str) -> (r: Result<LogLevel, String>)
    ensures
        level@ == "error"@ ==> r == Ok::<LogLevel, String>(LogLevel::Error),
        level@ == "warn"@ ==> r == Ok::<LogLevel, String>(LogLevel::Warn),
        level@ == "info"@ ==> r == Ok::<LogLevel, String>(LogLevel::Info),
        level@ == "debug"@ ==> r == Ok::<LogLevel, String>(LogLevel::Debug),
        !(level@ == "error"@ || level@ == "warn"@ || level@ == "info"@ || level@ == "debug"@) ==> (
        r matches Err(m) && m@ == "Unknown log level: "@ + level@),
{
    proof {
        reveal_strlit("error");
        reveal_strlit("warn");
        reveal_strlit("info");
        reveal_strlit("debug");
        assert("warn"@[0] != "error"@[0]);
        assert("info"@[0] != "error"@[0] && "info"@[0] != "warn"@[0]);
        assert("debug"@[0] != "error"@[0] && "debug"@[0] != "warn"@[0] && "debug"@[0] != "info"@[0]);
    }
    let l = chars_of(level);
    if chars_eq(l.as_slice(), chars_of("error").as_slice()) {
        Ok(LogLevel::Error)
    } else if chars_eq(l.as_slice(), chars_of("warn").as_slice()) {
        Ok(LogLevel::Warn)
    } else if chars_eq(l.as_slice(), chars_of("info").as_slice()) {
        Ok(LogLevel::Info)
    } else if chars_eq(l.as_slice(), chars_of("debug").as_slice()) {
        Ok(LogLevel::Debug)
    } else {
        let mut m = String::from_str("Unknown log level: ");
        m.append(level);
        Err(m)
    }
}

/// `s` starts with `p`.
pub open spec fn starts_with(s: Seq<char>, p: Seq<char>) -> bool {
    p.len() <= s.len() && s.subrange(0, p.len() as int) == p
}

fn str_starts_with(s: &str, p: &str) -> (r: bool)
    ensures
        r == starts_with(s@, p@),
{
    let a = chars_of(s);
    let b = chars_of(p);
    if b.len() > a.len() {
        return false;
    }
    let mut i: usize = 0;
    while i < b.len()
        invariant
            a@ == s@,
            b@ == p@,
            b@.len() <= a@.len(),
            i <= b@.len(),
            forall|j: int| 0 <= j < i ==> a@[j] == b@[j],
        decreases b@.len() - i,
    {
        if a[i] != b[i] {
            proof {
                assert(a@.subrange(0, b@.len() as int)[i as int] != b@[i as int]);
            }
            return false;
        }
        i += 1;
    }
    assert(a@.subrange(0, b@.len() as int) =~= b@);
    true
}

/// A webhook must be an `http://` or `https://` URL.
pub fn check_webhook_url(url: &str) -> (r: Result<(), String>)
    ensures
        (starts_with(url@, "https://"@) || starts_with(url@, "http://"@)) <==> r is Ok,
        r matches Err(m) ==> m@ == "Webhook URL must be http(s)"@,
{
    proof {
        reveal_strlit("https://");
        reveal_strlit("http://");
    }
    if !str_starts_with(url, "https://") && !str_starts_with(url, "http://") {
        Err(to_owned_string("Webhook URL must be http(s)"))
    } else {
        Ok(())
    }
}

/// The last `n` lines of a log and its total line count.
pub fn log_tail(lines: &Vec<String>, n: usize) -> (r: (Vec<String>, usize))
    ensures
        r.1 == lines@.len(),
        r.0@ == lines@.subrange(
            if n >= lines@.len() {
                0
            } else {
                lines@.len() - n
            },
            lines@.len() as int,
        ),
{
    let total = lines.len();
    let start = if n >= total {
        0
    } else {
        total - n
    };
    let mut out: Vec<String> = Vec::new();
    let mut i: usize = start;
    while i < total
        invariant
            total == lines@.len(),
            start <= i <= total,
            out@ == lines@.subrange(start as int, i as int),
        decreases total - i,
    {
        out.push(lines[i].clone());
        proof {
            assert(out@ =~= lines@.subrange(start as int, i + 1));
        }
        i += 1;
    }
    (out, total)
}

/// CPU usage is recomputed at most every 900 ms (a sooner poll would be
/// measured over too short a window); the cached reading is used between.
pub fn stats_refresh_due(since_last_ms: Option<u64>) -> (r: bool)
    ensures
        r == match since_last_ms {
            Some(t) => t >= 900,
            None => true,
        },
{
    match since_last_ms {
        Some(t) => t >= 900,
        None => true,
    }
}

/// Memory in whole mebibytes.
pub fn memory_mebibytes(bytes: u64) -> (r: u64)
    ensures
        r == bytes / 1_048_576u64,
{
    bytes / (1024 * 1024)
}

/// The file an error-log export is written to.
pub fn error_log_file_name(unix_secs: u64) -> (r: String)
    ensures
        r@ == "statusforge_errors_"@ + decimal(unix_secs as nat) + ".log"@,
{
    let mut m = String::from_str("statusforge_errors_");
    let d = u64_to_string(unix_secs);
    m.append(d.as_str());
    m.append(".log");
    m
}

} // verus!
