//! The external game-metadata scan behind `/api/scan-metadata`.
//!
//! Sources are asked in a fixed order — RAWG, IGDB, Steam, GOG, then
//! SteamGridDB for cover art, then the Twitch and Kick category ids — and a
//! source that fails is skipped. This module decides which sources a scan
//! asks, builds the requests, turns each source's answer into a library
//! entry, and merges the answers: only empty, unlocked fields of the existing
//! entry are filled, so values the user set always win.
use vstd::prelude::*;
use vstd::string::StringSliceAdditionalSpecFns;

use crate::config::{ApiKeys, BroadcasterConfig};
use crate::library::{
    entry_field, field_name, fill, is_locked, merge_entry, scannable_fields,
    EntryField, ForgeLibraryEntry,
};
use crate::text::{
    all_ascii_digits, chars_of, is_ascii_digit, decimal, i64_to_string, int_decimal, is_char_boundary,
    str_byte_len, string_from_chars, to_owned_string, truncate, truncate_string, u64_to_string,
    utf8_len,
};

verus! {

// ───────────────────────────── URL encoding ─────────────────────────────

/// Bytes that percent-encoding leaves as they are: ASCII letters and digits
/// and `-`, `.`, `_`, `~`.
pub open spec fn url_safe_byte(b: u8) -> bool {
    ||| 0x30 <= b <= 0x39
    ||| 0x41 <= b <= 0x5A
    ||| 0x61 <= b <= 0x7A
    ||| b == 0x2D
    ||| b == 0x2E
    ||| b == 0x5F
    ||| b == 0x7E
}

/// Upper-case hexadecimal digit for `d < 16`.
pub open spec fn hex_char(d: nat) -> char {
    if d < 10 {
        (0x30 + d) as char
    } else {
        (0x41 + d - 10) as char
    }
}

/// One byte, percent-encoded when it is not safe.
pub open spec fn encode_byte(b: u8) -> Seq<char> {
    if url_safe_byte(b) {
        seq![b as char]
    } else {
        seq!['%', hex_char((b / 16) as nat), hex_char((b % 16) as nat)]
    }
}

/// Percent-encoding of a byte string, byte by byte.
pub open spec fn url_encoded(bytes: Seq<u8>) -> Seq<char>
    decreases bytes.len(),
{
    if bytes.len() == 0 {
        Seq::empty()
    } else {
        url_encoded(bytes.drop_last()) + encode_byte(bytes.last())
    }
}

/// `urlencoding::encode`: every byte of the UTF-8 encoding of `s` except
/// ASCII alphanumerics and `-`, `_`, `.`, `~` becomes `%` and two upper-case
/// hex digits; the safe bytes stay as they are.
#[verifier::external_body]
pub(crate) fn url_encode(s: &str) -> (r: String)
    ensures
        r@ == url_encoded(s.spec_bytes()),
{
    urlencoding::encode(s).into_owned()
}

// ───────────────────────────── requests ─────────────────────────────

/// RAWG game search for `title` (first result only).
pub fn rawg_search_url(key: &str, title: &str) -> (r: String)
    ensures
        r@ == "https://api.rawg.io/api/games?key="@ + url_encoded(key.spec_bytes()) + "&search="@
            + url_encoded(title.spec_bytes()) + "&page_size=1"@,
{
    let mut u = String::from_str("https://api.rawg.io/api/games?key=");
    let k = url_encode(key);
    u.append(k.as_str());
    u.append("&search=");
    let t = url_encode(title);
    u.append(t.as_str());
    u.append("&page_size=1");
    u
}

/// The Twitch app-token request IGDB needs when no token is stored.
pub fn igdb_token_url(client_id: &str, secret: &str) -> (r: String)
    ensures
        r@ == "https://id.twitch.tv/oauth2/token?client_id="@ + url_encoded(client_id.spec_bytes())
            + "&client_secret="@ + url_encoded(secret.spec_bytes())
            + "&grant_type=client_credentials"@,
{
    let mut u = String::from_str("https://id.twitch.tv/oauth2/token?client_id=");
    let c = url_encode(client_id);
    u.append(c.as_str());
    u.append("&client_secret=");
    let s = url_encode(secret);
    u.append(s.as_str());
    u.append("&grant_type=client_credentials");
    u
}

/// Steam storefront search for `title`.
pub fn steam_search_url(title: &str) -> (r: String)
    ensures
        r@ == "https://store.steampowered.com/api/storesearch/?term="@ + url_encoded(
            title.spec_bytes(),
        ) + "&l=english&cc=US"@,
{
    let mut u = String::from_str("https://store.steampowered.com/api/storesearch/?term=");
    let t = url_encode(title);
    u.append(t.as_str());
    u.append("&l=english&cc=US");
    u
}

/// Steam app details for `appid`.
pub fn steam_details_url(appid: u64) -> (r: String)
    ensures
        r@ == "https://store.steampowered.com/api/appdetails?appids="@ + decimal(appid as nat),
{
    let mut u = String::from_str("https://store.steampowered.com/api/appdetails?appids=");
    let d = u64_to_string(appid);
    u.append(d.as_str());
    u
}

/// GOG catalog search for `title` (first product only).
pub fn gog_search_url(title: &str) -> (r: String)
    ensures
        r@ == "https://catalog.gog.com/v1/catalog?limit=1&query=like:"@ + url_encoded(
            title.spec_bytes(),
        ),
{
    let mut u = String::from_str("https://catalog.gog.com/v1/catalog?limit=1&query=like:");
    let t = url_encode(title);
    u.append(t.as_str());
    u
}

/// SteamGridDB autocomplete search for `title`.
pub fn sgdb_search_url(title: &str) -> (r: String)
    ensures
        r@ == "https://www.steamgriddb.com/api/v2/search/autocomplete/"@ + url_encoded(
            title.spec_bytes(),
        ),
{
    let mut u = String::from_str("https://www.steamgriddb.com/api/v2/search/autocomplete/");
    let t = url_encode(title);
    u.append(t.as_str());
    u
}

/// SteamGridDB 600x900 grids (covers) of game `id`.
pub fn sgdb_grids_url(id: u64) -> (r: String)
    ensures
        r@ == "https://www.steamgriddb.com/api/v2/grids/game/"@ + decimal(id as nat)
            + "?dimensions=600x900"@,
{
    let mut u = String::from_str("https://www.steamgriddb.com/api/v2/grids/game/");
    let d = u64_to_string(id);
    u.append(d.as_str());
    u.append("?dimensions=600x900");
    u
}

/// SteamGridDB logos of game `id`.
pub fn sgdb_logos_url(id: u64) -> (r: String)
    ensures
        r@ == "https://www.steamgriddb.com/api/v2/logos/game/"@ + decimal(id as nat),
{
    let mut u = String::from_str("https://www.steamgriddb.com/api/v2/logos/game/");
    let d = u64_to_string(id);
    u.append(d.as_str());
    u
}

/// A title with `"` and `\` removed, so it cannot leave IGDB's quoted
/// search string.
pub open spec fn strip_quotes(s: Seq<char>) -> Seq<char>
    decreases s.len(),
{
    if s.len() == 0 {
        s
    } else if s.last() == '"' || s.last() == '\\' {
        strip_quotes(s.drop_last())
    } else {
        strip_quotes(s.drop_last()).push(s.last())
    }
}

/// The apicalypse query IGDB is sent for `title`.
pub open spec fn igdb_query(title: Seq<char>) -> Seq<char> {
    "search \""@ + strip_quotes(title)
        + "\"; fields name,genres.name,involved_companies.company.name,involved_companies.developer,involved_companies.publisher,first_release_date,cover.image_id; limit 1;"@
}

/// IGDB search body for `title`.
pub fn igdb_search_body(title: &str) -> (r: String)
    ensures
        r@ == igdb_query(title@),
{
    let cs = chars_of(title);
    let mut kept: Vec<char> = Vec::new();
    let mut i: usize = 0;
    while i < cs.len()
        invariant
            cs@ == title@,
            i <= cs@.len(),
            kept@ == strip_quotes(cs@.take(i as int)),
        decreases cs@.len() - i,
    {
        proof {
            assert(cs@.take(i + 1).drop_last() =~= cs@.take(i as int));
        }
        let c = cs[i];
        if c != '"' && c != '\\' {
            kept.push(c);
        }
        i += 1;
    }
    proof {
        assert(cs@.take(cs@.len() as int) =~= cs@);
    }
    let safe = string_from_chars(kept.as_slice());
    let mut b = String::from_str("search \"");
    b.append(safe.as_str());
    b.append(
        "\"; fields name,genres.name,involved_companies.company.name,involved_companies.developer,involved_companies.publisher,first_release_date,cover.image_id; limit 1;",
    );
    b
}

/// The cover art URL of IGDB image `image_id`.
pub open spec fn igdb_cover_url_spec(image_id: Seq<char>) -> Seq<char> {
    "https://images.igdb.com/igdb/image/upload/t_cover_big/"@ + image_id + ".jpg"@
}

/// The cover art URL of IGDB image `image_id`.
pub fn igdb_cover_url(image_id: &str) -> (r: String)
    ensures
        r@ == igdb_cover_url_spec(image_id@),
{
    let mut u = String::from_str("https://images.igdb.com/igdb/image/upload/t_cover_big/");
    u.append(image_id);
    u.append(".jpg");
    u
}

// ───────────────────────────── answers ─────────────────────────────

/// Every field of `e` outside `keep` is empty, and nothing is locked.
pub open spec fn blank_except(e: ForgeLibraryEntry, keep: Set<EntryField>) -> bool {
    &&& forall|f: EntryField| !keep.contains(f) ==> (#[trigger] entry_field(e, f)).len() == 0
    &&& e.locked_fields@.len() == 0
}

/// The decimal id, or nothing when the source gave none.
pub open spec fn opt_decimal(id: Option<u64>) -> Seq<char> {
    match id {
        Some(n) => decimal(n as nat),
        None => Seq::empty(),
    }
}

/// At most the first `n` characters of `s`.
pub open spec fn first_chars(s: Seq<char>, n: nat) -> Seq<char> {
    if s.len() <= n {
        s
    } else {
        s.take(n as int)
    }
}

fn opt_u64_string(id: Option<u64>) -> (r: String)
    ensures
        r@ == opt_decimal(id),
{
    match id {
        Some(n) => u64_to_string(n),
        None => String::new(),
    }
}

/// The first RAWG result as a library entry: release year (the first four
/// characters of the release date), genre, developer, publisher, cover
/// image and RAWG id. Absent JSON values arrive as empty strings.
pub fn rawg_entry(
    released: &str,
    genre: &str,
    developer: &str,
    publisher: &str,
    background_image: &str,
    id: Option<u64>,
) -> (r: ForgeLibraryEntry)
    ensures
        r.release_year@ == first_chars(released@, 4),
        r.genre@ == genre@,
        r.developer@ == developer@,
        r.publisher@ == publisher@,
        r.cover_url@ == background_image@,
        r.rawg_id@ == opt_decimal(id),
        blank_except(
            r,
            set![
                EntryField::ReleaseYear,
                EntryField::Genre,
                EntryField::Developer,
                EntryField::Publisher,
                EntryField::CoverUrl,
                EntryField::RawgId,
            ],
        ),
{
    let cs = chars_of(released);
    let year = if cs.len() <= 4 {
        string_from_chars(cs.as_slice())
    } else {
        let mut v: Vec<char> = Vec::new();
        let mut i: usize = 0;
        while i < 4
            invariant
                cs@ == released@,
                cs@.len() > 4,
                i <= 4,
                v@ == cs@.take(i as int),
            decreases 4 - i,
        {
            v.push(cs[i]);
            proof {
                assert(v@ =~= cs@.take(i + 1));
            }
            i += 1;
        }
        string_from_chars(v.as_slice())
    };
    let mut e = ForgeLibraryEntry::default();
    let ghost e0 = e;
    e.release_year = year;
    e.genre = to_owned_string(genre);
    e.developer = to_owned_string(developer);
    e.publisher = to_owned_string(publisher);
    e.cover_url = to_owned_string(background_image);
    e.rawg_id = opt_u64_string(id);
    proof {
        assert forall|f: EntryField|
            !set![
                EntryField::ReleaseYear,
                EntryField::Genre,
                EntryField::Developer,
                EntryField::Publisher,
                EntryField::CoverUrl,
                EntryField::RawgId,
            ].contains(f) implies (#[trigger] entry_field(e, f)).len() == 0 by {
            assert(entry_field(e, f) == entry_field(e0, f));
        }
    }
    e
}

/// One involved company of an IGDB result.
#[derive(Debug, Clone)]
pub struct IgdbCompany {
    pub name: String,
    pub developer: bool,
    pub publisher: bool,
}

/// The company has the asked role (developer when `developer`, else
/// publisher).
pub open spec fn has_role(c: IgdbCompany, developer: bool) -> bool {
    if developer {
        c.developer
    } else {
        c.publisher
    }
}

/// Position of the first named company with the role.
pub open spec fn first_company_index(cs: Seq<IgdbCompany>, developer: bool) -> Option<int>
    decreases cs.len(),
{
    if cs.len() == 0 {
        None
    } else {
        match first_company_index(cs.drop_last(), developer) {
            Some(i) => Some(i),
            None => if cs.last().name@.len() > 0 && has_role(cs.last(), developer) {
                Some(cs.len() - 1)
            } else {
                None
            },
        }
    }
}

/// Name of the first named company with the role (empty when none).
pub open spec fn first_company(cs: Seq<IgdbCompany>, developer: bool) -> Seq<char> {
    match first_company_index(cs, developer) {
        Some(i) => cs[i].name@,
        None => Seq::empty(),
    }
}

proof fn lemma_first_company_index(cs: Seq<IgdbCompany>, developer: bool)
    ensures
        first_company_index(cs, developer) matches Some(i) ==> 0 <= i < cs.len() && cs[i].name@.len()
            > 0,
    decreases cs.len(),
{
    if cs.len() > 0 {
        lemma_first_company_index(cs.drop_last(), developer);
    }
}

/// Integer division rounding toward zero, as Rust's `/` on `i64` does.
pub open spec fn trunc_div(a: int, d: int) -> int {
    if a >= 0 {
        a / d
    } else {
        -((-a) / d)
    }
}

/// Release year of a Unix timestamp, counted in mean Gregorian years
/// (31 556 952 s) from 1970.
pub open spec fn year_of_timestamp(ts: int) -> int {
    1970 + trunc_div(ts, 31_556_952)
}

/// The first IGDB result as a library entry: genre, the first named
/// developer and publisher among the involved companies, the release year
/// of the first release date, the cover URL of the cover image and the IGDB
/// id.
pub fn igdb_entry(
    genre: &str,
    companies: &Vec<IgdbCompany>,
    first_release_date: Option<i64>,
    cover_image_id: Option<&str>,
    id: Option<u64>,
) -> (r: ForgeLibraryEntry)
    ensures
        r.genre@ == genre@,
        r.developer@ == first_company(companies@, true),
        r.publisher@ == first_company(companies@, false),
        r.release_year@ == match first_release_date {
            Some(ts) => int_decimal(year_of_timestamp(ts as int)),
            None => Seq::empty(),
        },
        r.cover_url@ == match cover_image_id {
            Some(i) => igdb_cover_url_spec(i@),
            None => Seq::empty(),
        },
        r.igdb_id@ == opt_decimal(id),
        blank_except(
            r,
            set![
                EntryField::Genre,
                EntryField::Developer,
                EntryField::Publisher,
                EntryField::ReleaseYear,
                EntryField::CoverUrl,
                EntryField::IgdbId,
            ],
        ),
{
    let mut developer = String::new();
    let mut publisher = String::new();
    let mut i: usize = 0;
    while i < companies.len()
        invariant
            i <= companies@.len(),
            developer@ == first_company(companies@.take(i as int), true),
            publisher@ == first_company(companies@.take(i as int), false),
        decreases companies@.len() - i,
    {
        proof {
            let pre = companies@.take(i as int);
            assert(companies@.take(i + 1).drop_last() =~= pre);
            lemma_first_company_index(pre, true);
            lemma_first_company_index(pre, false);
        }
        let c = &companies[i];
        if !c.name.as_str().is_empty() {
            if c.developer && developer.as_str().is_empty() {
                developer = c.name.clone();
            }
            if c.publisher && publisher.as_str().is_empty() {
                publisher = c.name.clone();
            }
        }
        i += 1;
    }
    proof {
        assert(companies@.take(companies@.len() as int) =~= companies@);
    }
    let release_year = match first_release_date {
        Some(ts) => {
            let t = ts as i128;
            let q: i128 = if t >= 0 {
                t / 31_556_952
            } else {
                -((-t) / 31_556_952)
            };
            let y = (1970 + q) as i64;
            i64_to_string(y)
        },
        None => String::new(),
    };
    let cover_url = match cover_image_id {
        Some(img) => igdb_cover_url(img),
        None => String::new(),
    };
    let mut e = ForgeLibraryEntry::default();
    let ghost e0 = e;
    e.genre = to_owned_string(genre);
    e.developer = developer;
    e.publisher = publisher;
    e.release_year = release_year;
    e.cover_url = cover_url;
    e.igdb_id = opt_u64_string(id);
    proof {
        assert forall|f: EntryField|
            !set![
                EntryField::Genre,
                EntryField::Developer,
                EntryField::Publisher,
                EntryField::ReleaseYear,
                EntryField::CoverUrl,
                EntryField::IgdbId,
            ].contains(f) implies (#[trigger] entry_field(e, f)).len() == 0 by {
            assert(entry_field(e, f) == entry_field(e0, f));
        }
    }
    e
}

/// The text after the last space of `s` (all of `s` when it has none).
pub open spec fn last_token(s: Seq<char>) -> Seq<char>
    decreases s.len(),
{
    if s.len() == 0 {
        s
    } else if s.last() == ' ' {
        Seq::empty()
    } else {
        last_token(s.drop_last()).push(s.last())
    }
}

/// Release year of a Steam release date such as `"25 Jan, 2018"`: its last
/// space-separated token when that is four bytes of ASCII digits, else
/// nothing (e.g. `"Coming soon"`).
pub open spec fn steam_year(date: Seq<char>) -> Seq<char> {
    let t = last_token(date);
    if utf8_len(t) == 4 && all_ascii_digits(t) {
        t
    } else {
        Seq::empty()
    }
}

/// The text after the last space of `s`.
fn last_token_of(s: &str) -> (r: String)
    ensures
        r@ == last_token(s@),
{
    let cs = chars_of(s);
    let mut start: usize = 0;
    let mut i: usize = 0;
    while i < cs.len()
        invariant
            cs@ == s@,
            start <= i <= cs@.len(),
            last_token(cs@.take(i as int)) == cs@.subrange(start as int, i as int),
        decreases cs@.len() - i,
    {
        proof {
            assert(cs@.take(i + 1).drop_last() =~= cs@.take(i as int));
            assert(cs@.take(i + 1).last() == cs@[i as int]);
        }
        if cs[i] == ' ' {
            start = i + 1;
            proof {
                assert(cs@.subrange(start as int, start as int) =~= Seq::<char>::empty());
            }
        } else {
            proof {
                assert(cs@.subrange(start as int, i + 1) =~= cs@.subrange(start as int, i as int).push(
                    cs@[i as int],
                ));
            }
        }
        i += 1;
    }
    proof {
        assert(cs@.take(cs@.len() as int) =~= cs@);
    }
    let mut v: Vec<char> = Vec::new();
    let mut j: usize = start;
    while j < cs.len()
        invariant
            start <= j <= cs@.len(),
            v@ == cs@.subrange(start as int, j as int),
        decreases cs@.len() - j,
    {
        v.push(cs[j]);
        proof {
            assert(v@ =~= cs@.subrange(start as int, j + 1));
        }
        j += 1;
    }
    string_from_chars(v.as_slice())
}

/// Release year of a Steam release date (see `steam_year`).
pub fn steam_release_year(date: Option<&str>) -> (r: String)
    ensures
        r@ == match date {
            Some(d) => steam_year(d@),
            None => Seq::empty(),
        },
{
    match date {
        Some(d) => {
            let t = last_token_of(d);
            let n = str_byte_len(t.as_str());
            let cs = chars_of(t.as_str());
            let mut digits = true;
            let mut i: usize = 0;
            while i < cs.len()
                invariant
                    i <= cs@.len(),
                    digits == all_ascii_digits(cs@.take(i as int)),
                decreases cs@.len() - i,
            {
                let ghost a = cs@.take(i as int);
                let ghost b = cs@.take(i + 1);
                proof {
                    assert(b =~= a.push(cs@[i as int]));
                    if all_ascii_digits(a) && is_ascii_digit(cs@[i as int]) {
                        assert forall|k: int| 0 <= k < b.len() implies is_ascii_digit(#[trigger] b[k]) by {
                            if k < a.len() {
                                assert(b[k] == a[k]);
                            }
                        }
                    }
                    if !all_ascii_digits(a) {
                        let k = choose|k: int| 0 <= k < a.len() && !is_ascii_digit(#[trigger] a[k]);
                        assert(b[k] == a[k]);
                    }
                    if !is_ascii_digit(cs@[i as int]) {
                        assert(b[i as int] == cs@[i as int]);
                    }
                }
                let u = cs[i] as u32;
                digits = digits && 0x30 <= u && u <= 0x39;
                i += 1;
            }
            proof {
                assert(cs@.take(cs@.len() as int) =~= cs@);
            }
            if n == 4 && digits {
                t
            } else {
                String::new()
            }
        },
        None => String::new(),
    }
}

/// The Steam app details as a library entry: genre, release year,
/// developer, publisher, header image and the app id.
pub fn steam_entry(
    genre: &str,
    release_date: Option<&str>,
    developer: &str,
    publisher: &str,
    header_image: &str,
    appid: u64,
) -> (r: ForgeLibraryEntry)
    ensures
        r.genre@ == genre@,
        r.release_year@ == match release_date {
            Some(d) => steam_year(d@),
            None => Seq::empty(),
        },
        r.developer@ == developer@,
        r.publisher@ == publisher@,
        r.cover_url@ == header_image@,
        r.steam_id@ == decimal(appid as nat),
        blank_except(
            r,
            set![
                EntryField::Genre,
                EntryField::ReleaseYear,
                EntryField::Developer,
                EntryField::Publisher,
                EntryField::CoverUrl,
                EntryField::SteamId,
            ],
        ),
{
    let mut e = ForgeLibraryEntry::default();
    let ghost e0 = e;
    e.genre = to_owned_string(genre);
    e.release_year = steam_release_year(release_date);
    e.developer = to_owned_string(developer);
    e.publisher = to_owned_string(publisher);
    e.cover_url = to_owned_string(header_image);
    e.steam_id = u64_to_string(appid);
    proof {
        assert forall|f: EntryField|
            !set![
                EntryField::Genre,
                EntryField::ReleaseYear,
                EntryField::Developer,
                EntryField::Publisher,
                EntryField::CoverUrl,
                EntryField::SteamId,
            ].contains(f) implies (#[trigger] entry_field(e, f)).len() == 0 by {
            assert(entry_field(e, f) == entry_field(e0, f));
        }
    }
    e
}

/// The Steam app details answered `success: false` for `appid`: the scan's
/// Steam step fails with this message.
pub fn steam_details_check(appid: u64, success: bool) -> (r: Result<(), String>)
    ensures
        success <==> r is Ok,
        r matches Err(m) ==> m@ == "Steam appdetails returned success=false for "@ + decimal(
            appid as nat,
        ),
{
    if success {
        Ok(())
    } else {
        let mut m = String::from_str("Steam appdetails returned success=false for ");
        let d = u64_to_string(appid);
        m.append(d.as_str());
        Err(m)
    }
}

/// A GOG release date's year: its first four bytes (`"2015.05.19"` gives
/// `"2015"`), nothing when it is shorter.
pub open spec fn gog_year(date: Option<Seq<char>>) -> Seq<char> {
    match date {
        Some(d) => if utf8_len(d) >= 4 {
            truncate(d, 4)
        } else {
            Seq::empty()
        },
        None => Seq::empty(),
    }
}

/// The view of an optional string slice.
pub open spec fn opt_str_view(s: Option<&str>) -> Option<Seq<char>> {
    match s {
        Some(x) => Some(x@),
        None => None,
    }
}

/// Release year of a GOG release date (see `gog_year`). Slicing a date
/// whose fourth byte falls inside a character panics, so such dates are
/// outside the contract.
pub fn gog_release_year(date: Option<&str>) -> (r: String)
    requires
        date matches Some(d) ==> (utf8_len(d@) >= 4 ==> is_char_boundary(d@, 4)),
    ensures
        r@ == gog_year(opt_str_view(date)),
{
    match date {
        Some(d) => {
            if str_byte_len(d) >= 4 {
                let s = to_owned_string(d);
                truncate_string(&s, 4)
            } else {
                String::new()
            }
        },
        None => String::new(),
    }
}

/// The first GOG product as a library entry: genre, release year,
/// developer, publisher, vertical cover and the GOG id.
pub fn gog_entry(
    genre: &str,
    release_date: Option<&str>,
    developer: &str,
    publisher: &str,
    cover_vertical: &str,
    id: &str,
) -> (r: ForgeLibraryEntry)
    requires
        release_date matches Some(d) ==> (utf8_len(d@) >= 4 ==> is_char_boundary(d@, 4)),
    ensures
        r.genre@ == genre@,
        r.release_year@ == gog_year(opt_str_view(release_date)),
        r.developer@ == developer@,
        r.publisher@ == publisher@,
        r.cover_url@ == cover_vertical@,
        r.gog_id@ == id@,
        blank_except(
            r,
            set![
                EntryField::Genre,
                EntryField::ReleaseYear,
                EntryField::Developer,
                EntryField::Publisher,
                EntryField::CoverUrl,
                EntryField::GogId,
            ],
        ),
{
    let mut e = ForgeLibraryEntry::default();
    let ghost e0 = e;
    e.genre = to_owned_string(genre);
    e.release_year = gog_release_year(release_date);
    e.developer = to_owned_string(developer);
    e.publisher = to_owned_string(publisher);
    e.cover_url = to_owned_string(cover_vertical);
    e.gog_id = to_owned_string(id);
    proof {
        assert forall|f: EntryField|
            !set![
                EntryField::Genre,
                EntryField::ReleaseYear,
                EntryField::Developer,
                EntryField::Publisher,
                EntryField::CoverUrl,
                EntryField::GogId,
            ].contains(f) implies (#[trigger] entry_field(e, f)).len() == 0 by {
            assert(entry_field(e, f) == entry_field(e0, f));
        }
    }
    e
}

/// The Twitch category lookup's answer: the first game's id, an error when
/// it is empty.
pub fn twitch_id_from(id: &str) -> (r: Result<String, String>)
    ensures
        id@.len() > 0 ==> (r matches Ok(s) && s@ == id@),
        id@.len() == 0 ==> (r matches Err(m) && m@ == "no Twitch game found for this title"@),
{
    if id.is_empty() {
        Err(to_owned_string("no Twitch game found for this title"))
    } else {
        Ok(to_owned_string(id))
    }
}

/// The Kick category lookup's answer: the first category's numeric id, an
/// error when there is none.
pub fn kick_id_from(id: Option<u64>) -> (r: Result<String, String>)
    ensures
        id matches Some(n) ==> (r matches Ok(s) && s@ == decimal(n as nat)),
        id is None ==> (r matches Err(m) && m@ == "no Kick category found for this title"@),
{
    match id {
        Some(n) => Ok(u64_to_string(n)),
        None => Err(to_owned_string("no Kick category found for this title")),
    }
}

/// The app-token answer: a non-empty `access_token`, else an error.
pub fn igdb_token_from(access_token: Option<&str>) -> (r: Result<String, String>)
    ensures
        (access_token matches Some(t) && t@.len() > 0) ==> (r matches Ok(s) && s@ == access_token->0@),
        !(access_token matches Some(t) && t@.len() > 0) ==> (r matches Err(m) && m@
            == "no IGDB app token in response"@),
{
    match access_token {
        Some(t) => if !t.is_empty() {
            Ok(to_owned_string(t))
        } else {
            Err(to_owned_string("no IGDB app token in response"))
        },
        None => Err(to_owned_string("no IGDB app token in response")),
    }
}

// ───────────────────────────── the scan ─────────────────────────────

/// Which of the optional sources a scan asks. Steam and GOG need no key and
/// are always asked.
#[derive(Debug, Clone, Copy)]
pub struct ScanPlan {
    /// RAWG (needs its key).
    pub rawg: bool,
    /// IGDB (needs the client id and a token or the secret).
    pub igdb: bool,
    /// IGDB without a stored token: fetch an app token first.
    pub igdb_app_token: bool,
    /// SteamGridDB (needs its key).
    pub sgdb: bool,
    /// Twitch category id (needs the client id and a token).
    pub twitch: bool,
    /// Kick category id (needs a token).
    pub kick: bool,
}

/// The sources a scan asks with these keys and connections.
pub fn scan_plan(keys: &ApiKeys, broadcaster: &BroadcasterConfig) -> (r: ScanPlan)
    ensures
        r.rawg == (keys.rawg@.len() > 0),
        r.igdb == (keys.igdb_client@.len() > 0 && (keys.igdb_token@.len() > 0
            || keys.igdb_secret@.len() > 0)),
        r.igdb_app_token == (r.igdb && keys.igdb_token@.len() == 0),
        r.sgdb == (keys.steamgrid@.len() > 0),
        r.twitch == (broadcaster.twitch_client@.len() > 0 && broadcaster.twitch_token@.len() > 0),
        r.kick == (broadcaster.kick_token@.len() > 0),
{
    let igdb = !keys.igdb_client.as_str().is_empty() && (!keys.igdb_token.as_str().is_empty()
        || !keys.igdb_secret.as_str().is_empty());
    ScanPlan {
        rawg: !keys.rawg.as_str().is_empty(),
        igdb,
        igdb_app_token: igdb && keys.igdb_token.as_str().is_empty(),
        sgdb: !keys.steamgrid.as_str().is_empty(),
        twitch: !broadcaster.twitch_client.as_str().is_empty()
            && !broadcaster.twitch_token.as_str().is_empty(),
        kick: !broadcaster.kick_token.as_str().is_empty(),
    }
}

/// SteamGridDB's answer: the game id, its 600x900 cover and its logo (each
/// empty when the database has none).
#[derive(Debug, Clone)]
pub struct SgdbArt {
    pub id: String,
    pub cover: String,
    pub logo: String,
}

/// What each asked source answered (`None`: not asked, or it failed).
#[derive(Debug, Clone)]
pub struct SourceResults {
    pub rawg: Option<ForgeLibraryEntry>,
    pub igdb: Option<ForgeLibraryEntry>,
    pub steam: Option<ForgeLibraryEntry>,
    pub gog: Option<ForgeLibraryEntry>,
    pub sgdb: Option<SgdbArt>,
    pub twitch_id: Option<String>,
    pub kick_id: Option<String>,
}

/// A source's answer fills the field when nothing earlier did.
pub open spec fn stage(prev: Seq<char>, src: Option<ForgeLibraryEntry>, f: EntryField) -> Seq<char> {
    match src {
        Some(e) => fill(prev, entry_field(e, f), false),
        None => prev,
    }
}

/// The value the sources found for a scannable field: the first non-empty
/// value among RAWG, IGDB, Steam and GOG; then SteamGridDB's id and logo,
/// and its cover when it has one; then the Twitch and Kick category ids.
pub open spec fn fetched_field(r: SourceResults, f: EntryField) -> Seq<char> {
    let v = stage(stage(stage(stage(Seq::empty(), r.rawg, f), r.igdb, f), r.steam, f), r.gog, f);
    let v = match r.sgdb {
        Some(a) => if f == EntryField::SgdbId {
            a.id@
        } else if f == EntryField::CoverUrl && a.cover@.len() > 0 {
            a.cover@
        } else if f == EntryField::LogoUrl {
            a.logo@
        } else {
            v
        },
        None => v,
    };
    let v = match r.twitch_id {
        Some(t) => if f == EntryField::TwitchId {
            t@
        } else {
            v
        },
        None => v,
    };
    match r.kick_id {
        Some(k) => if f == EntryField::KickId {
            k@
        } else {
            v
        },
        None => v,
    }
}

/// `out` is `existing` after a scan that found `r`: each empty, unlocked
/// scannable field takes the value found for it; nothing else changes.
pub open spec fn scanned_into(existing: ForgeLibraryEntry, r: SourceResults, out: ForgeLibraryEntry) -> bool {
    &&& forall|f: EntryField| #[trigger]
        entry_field(out, f) == if scannable_fields().contains(f) {
            fill(entry_field(existing, f), fetched_field(r, f), is_locked(existing, field_name(f)))
        } else {
            entry_field(existing, f)
        }
    &&& out.locked_fields@ == existing.locked_fields@
}

/// Folds one source's answer into what was fetched so far.
fn fold_source(fetched: ForgeLibraryEntry, src: &Option<ForgeLibraryEntry>) -> (r: ForgeLibraryEntry)
    requires
        fetched.locked_fields@.len() == 0,
    ensures
        r.locked_fields@.len() == 0,
        forall|f: EntryField|
            scannable_fields().contains(f) ==> #[trigger] entry_field(r, f) == stage(
                entry_field(fetched, f),
                *src,
                f,
            ),
{
    match src {
        Some(e) => {
            let r = merge_entry(fetched, e);
            proof {
                assert forall|f: EntryField| scannable_fields().contains(f) implies #[trigger] entry_field(r, f)
                    == stage(entry_field(fetched, f), *src, f) by {
                    assert(!is_locked(fetched, field_name(f)));
                }
            }
            r
        },
        None => fetched,
    }
}

/// Merges a scan's answers into the existing entry: the sources' values are
/// combined in order (see `fetched_field`), then fill only the empty fields
/// of `existing` that the user has not locked.
pub fn combine_scan(existing: ForgeLibraryEntry, results: &SourceResults) -> (r: ForgeLibraryEntry)
    ensures
        scanned_into(existing, *results, r),
{
    let f0 = ForgeLibraryEntry::default();
    let f1 = fold_source(f0, &results.rawg);
    let f2 = fold_source(f1, &results.igdb);
    let f3 = fold_source(f2, &results.steam);
    let mut fetched = fold_source(f3, &results.gog);
    let ghost g4 = fetched;
    if let Some(a) = &results.sgdb {
        fetched.sgdb_id = a.id.clone();
        if !a.cover.as_str().is_empty() {
            fetched.cover_url = a.cover.clone();
        }
        fetched.logo_url = a.logo.clone();
    }
    let ghost g5 = fetched;
    if let Some(t) = &results.twitch_id {
        fetched.twitch_id = t.clone();
    }
    let ghost g6 = fetched;
    if let Some(k) = &results.kick_id {
        fetched.kick_id = k.clone();
    }
    proof {
        assert forall|f: EntryField| scannable_fields().contains(f) implies #[trigger] entry_field(
            fetched,
            f,
        ) == fetched_field(*results, f) by {
            assert(entry_field(f0, f).len() == 0);
            assert(entry_field(f0, f) =~= Seq::<char>::empty());
            assert(entry_field(g4, f) == stage(
                stage(stage(stage(Seq::empty(), results.rawg, f), results.igdb, f), results.steam, f),
                results.gog,
                f,
            ));
        }
    }
    let out = merge_entry(existing, &fetched);
    proof {
        assert forall|f: EntryField| #[trigger]
            entry_field(out, f) == if scannable_fields().contains(f) {
                fill(entry_field(existing, f), fetched_field(*results, f), is_locked(existing, field_name(f)))
            } else {
                entry_field(existing, f)
            } by {
            if scannable_fields().contains(f) {
                assert(entry_field(fetched, f) == fetched_field(*results, f));
            }
        }
    }
    out
}

// ───────────────────────────── laws ─────────────────────────────

/// A metadata scan never overwrites what the user set: a field that holds
/// a value, or that the user locked, is unchanged; and a scan never touches
/// the title, the executables or the other fields no source provides.
pub proof fn law_scan_keeps_user_values(
    existing: ForgeLibraryEntry,
    results: SourceResults,
    out: ForgeLibraryEntry,
    f: EntryField,
)
    requires
        scanned_into(existing, results, out),
        entry_field(existing, f).len() > 0 || is_locked(existing, field_name(f))
            || !scannable_fields().contains(f),
    ensures
        entry_field(out, f) == entry_field(existing, f),
{
    assert(entry_field(out, f) == entry_field(out, f));
}

/// SteamGridDB's cover wins: when it has one, an empty, unlocked cover
/// field takes it whatever the other sources found.
pub proof fn law_sgdb_cover_preferred(
    existing: ForgeLibraryEntry,
    results: SourceResults,
    out: ForgeLibraryEntry,
)
    requires
        scanned_into(existing, results, out),
        results.sgdb matches Some(a) && a.cover@.len() > 0,
        existing.cover_url@.len() == 0,
        !is_locked(existing, "cover_url"@),
    ensures
        out.cover_url@ == results.sgdb->0.cover@,
{
    assert(scannable_fields()[4] == EntryField::CoverUrl);
    assert(entry_field(out, EntryField::CoverUrl) == out.cover_url@);
}

} // verus!
