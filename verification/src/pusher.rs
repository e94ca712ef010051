//! Native category push: which platforms to update, and which category id
//! each one gets for a title.
use vstd::prelude::*;

use crate::config::{AppConfig, RoutingMode};
use crate::library::ForgeDatabase;
use crate::text::{
    all_ascii_digits, chars_of, decimal, digit_char, eq_ignore_ascii_case, is_ascii_digit, str_eq_ignore_ascii_case, string_from_chars, trim,
    trim_chars,
};

verus! {

/// Value of a non-empty string of ASCII digits.
pub open spec fn digits_value(d: Seq<char>) -> int
    decreases d.len(),
{
    if d.len() == 0 {
        0
    } else {
        digits_value(d.drop_last()) * 10 + ((d.last() as u32) - 0x30)
    }
}

/// `str::parse::<i64>`: an optional `+` or `-`, then one or more ASCII
/// digits whose value fits in an `i64`.
pub open spec fn parse_i64_spec(s: Seq<char>) -> Option<int> {
    if s.len() == 0 {
        None
    } else {
        let neg = s[0] == '-';
        let d = if s[0] == '-' || s[0] == '+' {
            s.drop_first()
        } else {
            s
        };
        if d.len() == 0 || !crate::text::all_ascii_digits(d) {
            None
        } else {
            let v = if neg {
                -digits_value(d)
            } else {
                digits_value(d)
            };
            if i64::MIN <= v <= i64::MAX {
                Some(v)
            } else {
                None
            }
        }
    }
}

/// Digit values are non-negative.
proof fn lemma_digits_value_nonneg(d: Seq<char>)
    requires
        crate::text::all_ascii_digits(d),
    ensures
        digits_value(d) >= 0,
    decreases d.len(),
{
    if d.len() > 0 {
        assert(crate::text::all_ascii_digits(d.drop_last()));
        lemma_digits_value_nonneg(d.drop_last());
    }
}

/// The value of an all-digit sequence when it is at most 2^63.
fn digits_magnitude(d: &[char]) -> (r: Option<u64>)
    ensures
        r matches Some(m) ==> crate::text::all_ascii_digits(d@) && m == digits_value(d@) && m
            <= 0x8000_0000_0000_0000u64,
        r is None ==> !crate::text::all_ascii_digits(d@) || digits_value(d@) > 0x8000_0000_0000_0000u64,
{
    let limit: u64 = 0x8000_0000_0000_0000;
    let mut acc: u64 = 0;
    let mut over = false;
    let mut i: usize = 0;
    while i < d.len()
        invariant
            i <= d@.len(),
            limit == 0x8000_0000_0000_0000u64,
            crate::text::all_ascii_digits(d@.take(i as int)),
            !over ==> acc == digits_value(d@.take(i as int)) && acc <= limit,
            over ==> digits_value(d@.take(i as int)) > limit,
        decreases d@.len() - i,
    {
        let c = d[i];
        let u = c as u32;
        if !(0x30 <= u && u <= 0x39) {
            proof {
                assert(!crate::text::is_ascii_digit(d@[i as int]));
            }
            return None;
        }
        proof {
            let k = i as int;
            assert(d@.take(k + 1).drop_last() =~= d@.take(k));
            assert(d@.take(k + 1).last() == c);
            lemma_digits_value_nonneg(d@.take(k));
            assert(crate::text::all_ascii_digits(d@.take(k + 1))) by {
                assert forall|j: int| 0 <= j < k + 1 implies crate::text::is_ascii_digit(
                    #[trigger] d@.take(k + 1)[j],
                ) by {
                    if j < k {
                        assert(d@.take(k + 1)[j] == d@.take(k)[j]);
                    }
                }
            }
        }
        if !over {
            let dig = (u - 0x30) as u64;
            if acc > (limit - dig) / 10 {
                over = true;
            } else {
                acc = acc * 10 + dig;
            }
        }
        i += 1;
    }
    assert(d@.take(d@.len() as int) =~= d@);
    if over {
        None
    } else {
        Some(acc)
    }
}

/// `s.parse::<i64>().ok()`.
pub fn parse_i64(s: &str) -> (r: Option<i64>)
    ensures
        r matches Some(v) ==> parse_i64_spec(s@) == Some(v as int),
        r is None ==> parse_i64_spec(s@) is None,
{
    let v = chars_of(s);
    if v.len() == 0 {
        return None;
    }
    let neg = v[0] == '-';
    let start: usize = if v[0] == '-' || v[0] == '+' {
        1
    } else {
        0
    };
    let d = crate::text::sub_chars(v.as_slice(), start, v.len());
    assert(d@ =~= (if s@[0] == '-' || s@[0] == '+' {
        s@.drop_first()
    } else {
        s@
    }));
    if d.len() == 0 {
        return None;
    }
    match digits_magnitude(d.as_slice()) {
        None => None,
        Some(m) => {
            if neg {
                if m == 0x8000_0000_0000_0000u64 {
                    Some(i64::MIN)
                } else {
                    Some(-(m as i64))
                }
            } else {
                if m == 0x8000_0000_0000_0000u64 {
                    None
                } else {
                    Some(m as i64)
                }
            }
        },
    }
}

/// The library's Twitch game id for `title`: the trimmed `twitch_id` of its
/// entry, when there is one and it is not blank.
pub open spec fn library_twitch_id_spec(db: ForgeDatabase, title: Seq<char>) -> Option<Seq<char>> {
    if db.library_view().dom().contains(title) && trim(db.library_view()[title].twitch_id@).len() > 0 {
        Some(trim(db.library_view()[title].twitch_id@))
    } else {
        None
    }
}

/// Library-preferred Twitch game id for a title (`None` if absent/blank).
pub fn library_twitch_id(db: &ForgeDatabase, title: &str) -> (r: Option<String>)
    requires
        db.wf(),
    ensures
        r matches Some(id) ==> library_twitch_id_spec(*db, title@) == Some(id@),
        r is None ==> library_twitch_id_spec(*db, title@) is None,
{
    match db.library_entry(title) {
        Some(e) => {
            let t = trim_chars(chars_of(e.twitch_id.as_str()).as_slice());
            if t.len() == 0 {
                None
            } else {
                Some(string_from_chars(t.as_slice()))
            }
        },
        None => None,
    }
}

/// Position of the first name in `map` equal to `title` ignoring ASCII case.
pub open spec fn first_name_match(map: Seq<(String, String)>, title: Seq<char>) -> Option<int>
    decreases map.len(),
{
    if map.len() == 0 {
        None
    } else {
        match first_name_match(map.drop_last(), title) {
            Some(i) => Some(i),
            None => if eq_ignore_ascii_case(map.last().0@, title) {
                Some(map.len() - 1)
            } else {
                None
            },
        }
    }
}

/// The raw Kick category id for `title`: the library's trimmed, non-blank
/// `kick_id`, else the id of the first name in the name→id map that equals
/// the title ignoring ASCII case.
pub open spec fn raw_kick_id(db: ForgeDatabase, kick_map: Seq<(String, String)>, title: Seq<char>) -> Option<Seq<char>> {
    if db.library_view().dom().contains(title) && trim(db.library_view()[title].kick_id@).len() > 0 {
        Some(trim(db.library_view()[title].kick_id@))
    } else {
        match first_name_match(kick_map, title) {
            Some(i) => Some(kick_map[i].1@),
            None => None,
        }
    }
}

/// Kick category id (the API wants an integer): the raw id parsed as `i64`.
pub open spec fn resolve_kick_id_spec(db: ForgeDatabase, kick_map: Seq<(String, String)>, title: Seq<char>) -> Option<int> {
    match raw_kick_id(db, kick_map, title) {
        Some(raw) => parse_i64_spec(raw),
        None => None,
    }
}

/// A match found in a prefix is the first match of the whole map.
proof fn lemma_first_name_match_prefix(map: Seq<(String, String)>, k: int, title: Seq<char>)
    requires
        0 <= k <= map.len(),
        first_name_match(map.take(k), title) is Some,
    ensures
        first_name_match(map, title) == first_name_match(map.take(k), title),
    decreases map.len() - k,
{
    if k < map.len() {
        assert(map.take(k + 1).drop_last() =~= map.take(k));
        lemma_first_name_match_prefix(map, k + 1, title);
    } else {
        assert(map.take(k) =~= map);
    }
}

/// Kick category id: prefer the library's `kick_id`, else the name→id map
/// (case-insensitive); `None` when unresolvable or not an integer.
pub fn resolve_kick_id(db: &ForgeDatabase, kick_map: &Vec<(String, String)>, title: &str) -> (r: Option<i64>)
    requires
        db.wf(),
    ensures
        r matches Some(v) ==> resolve_kick_id_spec(*db, kick_map@, title@) == Some(v as int),
        r is None ==> resolve_kick_id_spec(*db, kick_map@, title@) is None,
{
    if let Some(e) = db.library_entry(title) {
        let t = trim_chars(chars_of(e.kick_id.as_str()).as_slice());
        if t.len() > 0 {
            let s = string_from_chars(t.as_slice());
            return parse_i64(s.as_str());
        }
    }
    let mut i: usize = 0;
    while i < kick_map.len()
        invariant
            i <= kick_map@.len(),
            !(db.library_view().dom().contains(title@) && trim(db.library_view()[title@].kick_id@).len() > 0),
            first_name_match(kick_map@.take(i as int), title@) is None,
        decreases kick_map@.len() - i,
    {
        proof {
            assert(kick_map@.take(i + 1).drop_last() =~= kick_map@.take(i as int));
            assert(kick_map@.take(i + 1).last() == kick_map@[i as int]);
        }
        if str_eq_ignore_ascii_case(kick_map[i].0.as_str(), title) {
            proof {
                assert(first_name_match(kick_map@.take(i + 1), title@) == Some(i as int));
                lemma_first_name_match_prefix(kick_map@, i + 1, title@);
                assert(raw_kick_id(*db, kick_map@, title@) == Some(kick_map@[i as int].1@));
            }
            return parse_i64(kick_map[i].1.as_str());
        }
        i += 1;
    }
    proof {
        assert(kick_map@.take(kick_map@.len() as int) =~= kick_map@);
    }
    None
}

/// Which platforms a category push goes to.
#[derive(Debug, Clone, Copy, PartialEq, Eq, Structural)]
pub struct PushTargets {
    pub twitch: bool,
    pub kick: bool,
}

/// Native routing only: Twitch when both its token and broadcaster id are
/// set, Kick when its token is set.
pub open spec fn push_targets_spec(c: AppConfig) -> PushTargets {
    let b = c.broadcaster;
    if b.routing_mode != RoutingMode::Native {
        PushTargets { twitch: false, kick: false }
    } else {
        PushTargets {
            twitch: b.twitch_token@.len() > 0 && b.twitch_broadcaster_id@.len() > 0,
            kick: b.kick_token@.len() > 0,
        }
    }
}

/// The platforms `push_category` updates for this configuration (none
/// unless routing is native; a platform without credentials is skipped).
pub fn push_targets(config: &AppConfig) -> (r: PushTargets)
    ensures
        r == push_targets_spec(*config),
{
    let b = &config.broadcaster;
    if b.routing_mode != RoutingMode::Native {
        return PushTargets { twitch: false, kick: false };
    }
    PushTargets {
        twitch: !b.twitch_token.as_str().is_empty() && !b.twitch_broadcaster_id.as_str().is_empty(),
        kick: !b.kick_token.as_str().is_empty(),
    }
}

/// What an HTTP status means for one push attempt.
#[derive(Debug, Clone, Copy, PartialEq, Eq, Structural)]
pub enum PushOutcome {
    /// 2xx: the platform accepted the update; or 429: rate-limited, which
    /// is no token problem, so the push ends there without a retry.
    Done,
    /// 401: refresh the token once and retry.
    Unauthorized,
    /// Anything else: give up and log.
    Failed,
}

/// 401 → `Unauthorized`, 2xx or 429 → `Done`, else `Failed`.
pub open spec fn outcome_spec(status: u16) -> PushOutcome {
    if status == 401 {
        PushOutcome::Unauthorized
    } else if 200 <= status <= 299 || status == 429 {
        PushOutcome::Done
    } else {
        PushOutcome::Failed
    }
}

/// Classifies the status of a channel-update response.
pub fn push_outcome(status: u16) -> (r: PushOutcome)
    ensures
        r == outcome_spec(status),
{
    if status == 401 {
        PushOutcome::Unauthorized
    } else if (200 <= status && status <= 299) || status == 429 {
        PushOutcome::Done
    } else {
        PushOutcome::Failed
    }
}

/// The Twitch game id a name lookup found: its first result's id when that
/// is not empty (otherwise the push is skipped).
pub fn twitch_game_from_lookup(first_id: Option<&str>) -> (r: Option<String>)
    ensures
        (first_id matches Some(i) && i@.len() > 0) ==> (r matches Some(s) && s@ == first_id->0@),
        !(first_id matches Some(i) && i@.len() > 0) ==> r is None,
{
    match first_id {
        Some(i) => if i.is_empty() {
            None
        } else {
            Some(crate::text::to_owned_string(i))
        },
        None => None,
    }
}

/// Where a category push stands: the first attempt, or the retry after a
/// token refresh.
#[derive(Debug, Clone, Copy, PartialEq, Eq, Structural)]
pub enum PushPhase {
    First,
    Retry,
}

/// What a push does after an attempt.
#[derive(Debug, Clone, Copy, PartialEq, Eq, Structural)]
pub enum PushNext {
    /// The category is set.
    Finished,
    /// Refresh the token, save it, and try once more.
    RefreshAndRetry,
    /// Give up (and log).
    GiveUp,
}

/// A push refreshes its token and retries once on 401; a second 401, or
/// any other failure, ends it.
pub open spec fn push_next_spec(phase: PushPhase, outcome: PushOutcome) -> PushNext {
    match outcome {
        PushOutcome::Done => PushNext::Finished,
        PushOutcome::Unauthorized => if phase == PushPhase::First {
            PushNext::RefreshAndRetry
        } else {
            PushNext::GiveUp
        },
        PushOutcome::Failed => PushNext::GiveUp,
    }
}

/// The push's next step after an attempt (see `push_next_spec`).
pub fn push_next(phase: PushPhase, outcome: PushOutcome) -> (r: PushNext)
    ensures
        r == push_next_spec(phase, outcome),
{
    match outcome {
        PushOutcome::Done => PushNext::Finished,
        PushOutcome::Unauthorized => match phase {
            PushPhase::First => PushNext::RefreshAndRetry,
            PushPhase::Retry => PushNext::GiveUp,
        },
        PushOutcome::Failed => PushNext::GiveUp,
    }
}

/// A push never retries more than once: after the retry, whatever the
/// platform answers, it finishes or gives up; and it finishes exactly when
/// the platform answered 2xx, or 429 (rate-limited: skipped, not retried).
pub proof fn law_push_retries_at_most_once(status: u16)
    ensures
        push_next_spec(PushPhase::Retry, outcome_spec(status)) != PushNext::RefreshAndRetry,
        (push_next_spec(PushPhase::First, outcome_spec(status)) == PushNext::Finished) <==> (200
            <= status <= 299 || status == 429),
{
}

// ───────────────────────────── laws ─────────────────────────────

/// The decimal notation of `n` is a non-empty run of digits worth `n`.
proof fn lemma_decimal_digits(n: nat)
    ensures
        decimal(n).len() > 0,
        all_ascii_digits(decimal(n)),
        digits_value(decimal(n)) == n,
    decreases n,
{
    if n < 10 {
        assert((digit_char(n) as u32) == 0x30 + n);
        let s = seq![digit_char(n)];
        assert(decimal(n) == s);
        assert(s.drop_last() =~= Seq::<char>::empty());
        assert(digits_value(s) == digits_value(s.drop_last()) * 10 + ((s.last() as u32) - 0x30));
    } else {
        lemma_decimal_digits(n / 10);
        let d = decimal(n / 10);
        let s = d.push(digit_char(n % 10));
        assert(s.drop_last() =~= d);
        assert((digit_char(n % 10) as u32) == 0x30 + n % 10);
        assert(digits_value(s) == digits_value(d) * 10 + ((s.last() as u32) - 0x30));
        assert(digits_value(s) == (n / 10) * 10 + n % 10);
        assert(decimal(n) == s);
        assert forall|i: int| 0 <= i < s.len() implies is_ascii_digit(#[trigger] s[i]) by {
            if i < d.len() {
                assert(s[i] == d[i]);
            }
        }
    }
}

/// A category id written as a decimal number (as the metadata scan writes
/// Kick ids) reads back as the same number when a category is pushed.
pub proof fn law_kick_id_round_trip(n: u64)
    requires
        n <= i64::MAX,
    ensures
        parse_i64_spec(decimal(n as nat)) == Some(n as int),
{
    lemma_decimal_digits(n as nat);
    let s = decimal(n as nat);
    assert(is_ascii_digit(s[0]));
}

} // verus!
