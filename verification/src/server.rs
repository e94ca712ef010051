//! The rules of the local widget/status server: token checks, widget file
//! serving, the status payload and the library routes.
use vstd::prelude::*;

use crate::config::AppConfig;
use crate::library::{
    unexile, without_folded, string_views, ForgeDatabase,
};
use crate::text::{
    chars_contains, chars_of, contains, string_from_chars, to_lowercase_spec,
    to_owned_string, trim, trim_str,
};
use vstd::utf8::encode_utf8;

verus! {

broadcast use vstd::utf8::encode_utf8_decode_utf8;

/// Query string of the widget routes (`?token=`).
#[derive(Debug, Clone)]
pub struct TokenQuery {
    pub token: Option<String>,
}

/// One OR-accumulation step is zero exactly when both inputs agree and
/// nothing differed before.
proof fn lemma_or_xor_zero(d: u8, x: u8, y: u8)
    by (bit_vector)
    ensures
        (d | (x ^ y)) == 0 <==> (d == 0 && x == y),
{
}

/// Byte-for-byte equality without stopping at the first mismatching byte,
/// so response timing does not reveal how much of a guess was right. Only
/// a length difference returns early (token length is not secret).
pub fn constant_time_eq(a: &[u8], b: &[u8]) -> (r: bool)
    ensures
        r == (a@ == b@),
{
    if a.len() != b.len() {
        return false;
    }
    let mut diff: u8 = 0;
    let mut i: usize = 0;
    while i < a.len()
        invariant
            a@.len() == b@.len(),
            i <= a@.len(),
            (diff == 0) == (forall|j: int| 0 <= j < i ==> a@[j] == b@[j]),
        decreases a@.len() - i,
    {
        proof {
            lemma_or_xor_zero(diff, a@[i as int], b@[i as int]);
        }
        diff = diff | (a[i] ^ b[i]);
        i += 1;
    }
    if diff == 0 {
        assert(a@ =~= b@);
        true
    } else {
        false
    }
}

/// Equal strings have equal UTF-8 bytes and vice versa.
proof fn lemma_bytes_eq_iff_chars_eq(a: &str, b: &str)
    ensures
        (encode_utf8(a@) == encode_utf8(b@)) == (a@ == b@),
{
    vstd::utf8::encode_utf8_decode_utf8(a@);
    vstd::utf8::encode_utf8_decode_utf8(b@);
}

/// A request is let in when it supplies a token (the `X-Forge-Token` header
/// first, else `?token=`) equal to the configured widget token, and that
/// token is set. Missing or wrong tokens are always refused.
pub open spec fn token_accepted_spec(header: Option<Seq<char>>, query: Option<Seq<char>>, expected: Seq<char>) -> bool {
    let provided = match header {
        Some(h) => Some(h),
        None => query,
    };
    match provided {
        Some(p) => expected.len() > 0 && p == expected,
        None => false,
    }
}

/// The view of an optional string slice.
pub open spec fn opt_view(o: Option<&str>) -> Option<Seq<char>> {
    match o {
        Some(s) => Some(s@),
        None => None,
    }
}

/// The widget-token check (constant-time comparison).
pub fn token_accepted(header: Option<&str>, query: Option<&str>, expected: &str) -> (r: bool)
    ensures
        r == token_accepted_spec(opt_view(header), opt_view(query), expected@),
{
    let provided = match header {
        Some(h) => Some(h),
        None => query,
    };
    match provided {
        Some(p) => {
            if expected.is_empty() {
                return false;
            }
            proof {
                lemma_bytes_eq_iff_chars_eq(p, expected);
            }
            constant_time_eq(p.as_bytes(), expected.as_bytes())
        },
        None => false,
    }
}

/// The path-style widget token check: the token must be set and match.
pub fn widget_token_matches(token: &str, expected: &str) -> (r: bool)
    ensures
        r == (expected@.len() > 0 && token@ == expected@),
{
    if expected.is_empty() {
        return false;
    }
    proof {
        lemma_bytes_eq_iff_chars_eq(token, expected);
    }
    constant_time_eq(token.as_bytes(), expected.as_bytes())
}

/// A widget file name is served only when it holds no path separator and
/// no `..`.
pub open spec fn widget_file_ok_spec(file: Seq<char>) -> bool {
    !contains(file, seq!['/']) && !contains(file, seq!['\\']) && !contains(file, seq!['.', '.'])
}

/// Whether `file` may be served from the widgets folder.
pub fn widget_file_ok(file: &str) -> (r: bool)
    ensures
        r == widget_file_ok_spec(file@),
{
    let v = chars_of(file);
    let slash = vec!['/'];
    let backslash = vec!['\\'];
    let dots = vec!['.', '.'];
    assert(slash@ =~= seq!['/']);
    assert(backslash@ =~= seq!['\\']);
    assert(dots@ =~= seq!['.', '.']);
    !chars_contains(v.as_slice(), slash.as_slice()) && !chars_contains(
        v.as_slice(),
        backslash.as_slice(),
    ) && !chars_contains(v.as_slice(), dots.as_slice())
}

/// Position of the last `.` in `s`.
pub open spec fn last_dot(s: Seq<char>) -> Option<int>
    decreases s.len(),
{
    if s.len() == 0 {
        None
    } else if s.last() == '.' {
        Some(s.len() - 1)
    } else {
        last_dot(s.drop_last())
    }
}

/// `Path::extension` of a bare file name: the text after the last `.`,
/// unless there is none or the only `.` starts the name (`.` itself has no
/// extension either).
pub open spec fn extension_spec(file: Seq<char>) -> Option<Seq<char>> {
    match last_dot(file) {
        Some(i) => if i == 0 {
            None
        } else {
            Some(file.subrange(i + 1, file.len() as int))
        },
        None => None,
    }
}

/// The `Content-Type` served for a widget file, by extension.
pub open spec fn mime_spec(file: Seq<char>) -> Seq<char> {
    match extension_spec(file) {
        Some(e) => if e == "html"@ {
            "text/html; charset=utf-8"@
        } else if e == "png"@ {
            "image/png"@
        } else if e == "jpg"@ || e == "jpeg"@ {
            "image/jpeg"@
        } else if e == "svg"@ {
            "image/svg+xml"@
        } else if e == "js"@ {
            "text/javascript; charset=utf-8"@
        } else if e == "css"@ {
            "text/css; charset=utf-8"@
        } else {
            "application/octet-stream"@
        },
        None => "application/octet-stream"@,
    }
}

/// The last `.` of `stem.ext` is the one before `ext` when `ext` has none.
proof fn lemma_last_dot_before_ext(stem: Seq<char>, ext: Seq<char>)
    requires
        !ext.contains('.'),
    ensures
        last_dot(stem + seq!['.'] + ext) == Some(stem.len() as int),
    decreases ext.len(),
{
    let f = stem + seq!['.'] + ext;
    if ext.len() == 0 {
        assert(f.last() == '.');
    } else {
        let shorter = ext.drop_last();
        assert(!shorter.contains('.')) by {
            if shorter.contains('.') {
                let i = choose|i: int| 0 <= i < shorter.len() && shorter[i] == '.';
                assert(ext[i] == '.');
            }
        }
        assert(f.last() == ext.last());
        assert(ext[ext.len() - 1] == ext.last());
        assert(f.last() != '.');
        assert(f.drop_last() =~= stem + seq!['.'] + shorter);
        lemma_last_dot_before_ext(stem, shorter);
    }
}

/// A name with no `.` has no last `.`.
proof fn lemma_no_dot(s: Seq<char>)
    requires
        !s.contains('.'),
    ensures
        last_dot(s) is None,
    decreases s.len(),
{
    if s.len() > 0 {
        assert(s[s.len() - 1] == s.last());
        assert(!s.drop_last().contains('.')) by {
            if s.drop_last().contains('.') {
                let i = choose|i: int| 0 <= i < s.drop_last().len() && s.drop_last()[i] == '.';
                assert(s[i] == '.');
            }
        }
        lemma_no_dot(s.drop_last());
    }
}

/// A widget file `stem.ext` is served by its extension: `.css` as
/// `text/css; charset=utf-8`, `.html` as `text/html; charset=utf-8`, `.js` as
/// `text/javascript; charset=utf-8`, `.png` as `image/png`, `.jpg` and
/// `.jpeg` as `image/jpeg`, `.svg` as `image/svg+xml`, any other extension
/// as `application/octet-stream`; and so is a name with no `.` at all.
pub proof fn law_widget_type_follows_extension(stem: Seq<char>, ext: Seq<char>)
    requires
        stem.len() > 0,
        !ext.contains('.'),
    ensures
        ext == "css"@ ==> mime_spec(stem + seq!['.'] + ext) == "text/css; charset=utf-8"@,
        ext == "html"@ ==> mime_spec(stem + seq!['.'] + ext) == "text/html; charset=utf-8"@,
        ext == "js"@ ==> mime_spec(stem + seq!['.'] + ext) == "text/javascript; charset=utf-8"@,
        ext == "png"@ ==> mime_spec(stem + seq!['.'] + ext) == "image/png"@,
        (ext == "jpg"@ || ext == "jpeg"@) ==> mime_spec(stem + seq!['.'] + ext) == "image/jpeg"@,
        ext == "svg"@ ==> mime_spec(stem + seq!['.'] + ext) == "image/svg+xml"@,
        (ext != "css"@ && ext != "html"@ && ext != "js"@ && ext != "png"@ && ext != "jpg"@ && ext
            != "jpeg"@ && ext != "svg"@) ==> mime_spec(stem + seq!['.'] + ext)
            == "application/octet-stream"@,
        !stem.contains('.') ==> mime_spec(stem) == "application/octet-stream"@,
{
    reveal_strlit("css");
    reveal_strlit("html");
    reveal_strlit("js");
    reveal_strlit("png");
    reveal_strlit("jpg");
    reveal_strlit("jpeg");
    reveal_strlit("svg");
    let f = stem + seq!['.'] + ext;
    lemma_last_dot_before_ext(stem, ext);
    assert(f.subrange(stem.len() as int + 1, f.len() as int) =~= ext);
    assert(extension_spec(f) == Some(ext));
    assert("css"@.len() == 3 && "html"@.len() == 4 && "js"@.len() == 2 && "png"@.len() == 3);
    assert("jpg"@.len() == 3 && "jpeg"@.len() == 4 && "svg"@.len() == 3);
    assert("css"@[0] == 'c' && "png"@[0] == 'p' && "jpg"@[0] == 'j' && "svg"@[0] == 's');
    assert("html"@[0] == 'h' && "jpeg"@[0] == 'j' && "html"@ != "jpeg"@);
    if !stem.contains('.') {
        lemma_no_dot(stem);
    }
}

/// Characters of `v` after its last `.`, or `None` per `extension_spec`.
fn extension_of(v: &Vec<char>) -> (r: Option<Vec<char>>)
    ensures
        r matches Some(e) ==> extension_spec(v@) == Some(e@),
        r is None ==> extension_spec(v@) is None,
{
    let mut i: usize = v.len();
    assert(v@.take(i as int) =~= v@);
    while i > 0
        invariant
            i <= v@.len(),
            last_dot(v@) == last_dot(v@.take(i as int)),
        decreases i,
    {
        proof {
            assert(v@.take(i as int).drop_last() =~= v@.take(i - 1));
        }
        if v[i - 1] == '.' {
            if i - 1 == 0 {
                return None;
            }
            return Some(crate::text::sub_chars(v.as_slice(), i, v.len()));
        }
        i -= 1;
    }
    None
}

/// The `Content-Type` for a widget file.
pub fn widget_mime(file: &str) -> (r: &'static str)
    ensures
        r@ == mime_spec(file@),
{
    let v = chars_of(file);
    match extension_of(&v) {
        Some(e) => {
            let es = string_from_chars(e.as_slice());
            let x = es.as_str();
            if crate::text::str_eq(x, "html") {
                "text/html; charset=utf-8"
            } else if crate::text::str_eq(x, "png") {
                "image/png"
            } else if crate::text::str_eq(x, "jpg") || crate::text::str_eq(x, "jpeg") {
                "image/jpeg"
            } else if crate::text::str_eq(x, "svg") {
                "image/svg+xml"
            } else if crate::text::str_eq(x, "js") {
                "text/javascript; charset=utf-8"
            } else if crate::text::str_eq(x, "css") {
                "text/css; charset=utf-8"
            } else {
                "application/octet-stream"
            }
        },
        None => "application/octet-stream",
    }
}

/// Widget settings served by `/settings`: poll rate, fade timer and idle
/// category, falling back to 3, 15 and `"Just Chatting"` without a config.
pub fn widget_settings(config: Option<&AppConfig>) -> (r: (u64, u64, String))
    ensures
        config matches Some(c) ==> r.0 == c.engine_settings.widget_poll_rate && r.1
            == c.engine_settings.widget_fade_timer && r.2@ == c.engine_settings.idle_category@,
        config is None ==> r.0 == 3 && r.1 == 15 && r.2@ == "Just Chatting"@,
{
    match config {
        Some(c) => (
            c.engine_settings.widget_poll_rate,
            c.engine_settings.widget_fade_timer,
            to_owned_string(c.engine_settings.idle_category.as_str()),
        ),
        None => (3, 15, to_owned_string("Just Chatting")),
    }
}

/// The origins allowed to call the local server cross-origin: the Vite dev
/// server and the app's own webview (overlays load from the server itself
/// and need no grant).
pub open spec fn cors_origins_spec() -> Seq<Seq<char>> {
    seq!["http://localhost:5173"@, "tauri://localhost"@, "https://tauri.localhost"@]
}

/// The origins allowed to call the local server cross-origin.
pub fn allowed_cors_origins() -> (r: Vec<&'static str>)
    ensures
        r@.map_values(|s: &str| s@) == cors_origins_spec(),
{
    let v: Vec<&'static str> = vec!["http://localhost:5173", "tauri://localhost", "https://tauri.localhost"];
    assert(v@.map_values(|s: &str| s@) =~= cors_origins_spec());
    v
}

/// A connection opens with a TLS handshake record (content type 0x16):
/// `peeked` is what a one-byte peek of it read.
pub fn is_tls_connection(peeked: &[u8]) -> (r: bool)
    ensures
        r == (peeked@.len() == 1 && peeked@[0] == 0x16),
{
    peeked.len() == 1 && peeked[0] == 0x16
}

/// Unexiles a process named in a request: blank names are refused
/// (`false`), otherwise the trimmed name is removed case-insensitively
/// (every stored name equal to it ignoring case goes).
pub fn unexile_request(db: &mut ForgeDatabase, process: &str) -> (r: bool)
    ensures
        r == (trim(process@).len() > 0),
        !r ==> *final(db) == *old(db),
        r ==> string_views(final(db).delisted_apps@) == without_folded(
            string_views(old(db).delisted_apps@),
            to_lowercase_spec(trim(process@)),
        ) && final(db).library == old(db).library && final(db).listed_apps
            == old(db).listed_apps,
{
    let p = trim_str(process);
    if p.as_str().is_empty() {
        return false;
    }
    unexile(db, p.as_str());
    true
}

} // verus!
