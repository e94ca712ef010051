//! Character-level text operations used throughout the library.
//!
//! Strings are reasoned about through their character view (`s@`, a
//! `Seq<char>`). Byte lengths are the lengths of the UTF-8 encoding.
use vstd::prelude::*;
use vstd::utf8::encode_utf8;

verus! {

// ───────────────────────────── specifications ─────────────────────────────

/// Number of bytes in the UTF-8 encoding of `c`.
pub open spec fn char_utf8_len(c: char) -> nat {
    if (c as u32) < 0x80 {
        1
    } else if (c as u32) < 0x800 {
        2
    } else if (c as u32) < 0x10000 {
        3
    } else {
        4
    }
}

/// Number of bytes in the UTF-8 encoding of `s` (what `str::len` returns).
pub open spec fn utf8_len(s: Seq<char>) -> nat
    decreases s.len(),
{
    if s.len() == 0 {
        0
    } else {
        char_utf8_len(s[0]) + utf8_len(s.drop_first())
    }
}

/// `'0'..='9'`.
pub open spec fn is_ascii_digit(c: char) -> bool {
    0x30 <= (c as u32) <= 0x39
}

/// Every character of `s` is an ASCII digit.
pub open spec fn all_ascii_digits(s: Seq<char>) -> bool {
    forall|i: int| 0 <= i < s.len() ==> is_ascii_digit(#[trigger] s[i])
}

/// ASCII lower-casing of one character (non-ASCII characters are unchanged).
pub open spec fn ascii_lower(c: char) -> char {
    if 0x41 <= (c as u32) <= 0x5A {
        ((c as u32) + 32) as char
    } else {
        c
    }
}

/// `str::eq_ignore_ascii_case`: equal once ASCII letters are lower-cased.
pub open spec fn eq_ignore_ascii_case(a: Seq<char>, b: Seq<char>) -> bool {
    &&& a.len() == b.len()
    &&& forall|i: int| 0 <= i < a.len() ==> ascii_lower(#[trigger] a[i]) == ascii_lower(b[i])
}

/// `char::is_whitespace`: the Unicode `White_Space` property.
pub open spec fn is_whitespace(c: char) -> bool {
    let u = c as u32;
    ||| 0x09 <= u <= 0x0D
    ||| u == 0x20
    ||| u == 0x85
    ||| u == 0xA0
    ||| u == 0x1680
    ||| 0x2000 <= u <= 0x200A
    ||| u == 0x2028
    ||| u == 0x2029
    ||| u == 0x202F
    ||| u == 0x205F
    ||| u == 0x3000
}

/// `str::trim_start`.
pub open spec fn trim_start(s: Seq<char>) -> Seq<char>
    decreases s.len(),
{
    if s.len() > 0 && is_whitespace(s[0]) {
        trim_start(s.drop_first())
    } else {
        s
    }
}

/// `str::trim_end`.
pub open spec fn trim_end(s: Seq<char>) -> Seq<char>
    decreases s.len(),
{
    if s.len() > 0 && is_whitespace(s.last()) {
        trim_end(s.drop_last())
    } else {
        s
    }
}

/// `str::trim`: leading and trailing whitespace removed.
pub open spec fn trim(s: Seq<char>) -> Seq<char> {
    trim_end(trim_start(s))
}

/// `needle` occurs in `hay` starting at position `i`.
pub open spec fn occurs_at(hay: Seq<char>, needle: Seq<char>, i: int) -> bool {
    0 <= i && i + needle.len() <= hay.len() && hay.subrange(i, i + needle.len()) == needle
}

/// `str::contains` with a string pattern.
pub open spec fn contains(hay: Seq<char>, needle: Seq<char>) -> bool {
    exists|i: int| occurs_at(hay, needle, i)
}

/// `str::replace` with a non-empty pattern: leftmost, non-overlapping
/// occurrences of `pat` are replaced by `rep`.
pub open spec fn replace(s: Seq<char>, pat: Seq<char>, rep: Seq<char>) -> Seq<char>
    recommends
        pat.len() > 0,
    decreases s.len(),
{
    if s.len() == 0 || pat.len() == 0 {
        s
    } else if occurs_at(s, pat, 0) {
        rep + replace(s.subrange(pat.len() as int, s.len() as int), pat, rep)
    } else {
        seq![s[0]] + replace(s.drop_first(), pat, rep)
    }
}

/// `n` falls on a character boundary of `s` (or past its end).
pub open spec fn is_char_boundary(s: Seq<char>, n: nat) -> bool {
    n >= utf8_len(s) || exists|k: int| 0 <= k <= s.len() && utf8_len(#[trigger] s.take(k)) == n
}

/// `String::truncate(n)`: keep the first `n` bytes (no change when shorter).
/// Meaningful when `is_char_boundary(s, n)`.
pub open spec fn truncate(s: Seq<char>, n: nat) -> Seq<char> {
    if utf8_len(s) <= n {
        s
    } else {
        s.take(choose|k: int| 0 <= k <= s.len() && utf8_len(#[trigger] s.take(k)) == n)
    }
}

/// The ASCII digit for `d` (`0 <= d <= 9`).
pub open spec fn digit_char(d: nat) -> char {
    (0x30 + d) as char
}

/// Decimal notation of `n`, without leading zeros (what `to_string` gives).
pub open spec fn decimal(n: nat) -> Seq<char>
    decreases n,
{
    if n < 10 {
        seq![digit_char(n)]
    } else {
        decimal(n / 10).push(digit_char(n % 10))
    }
}

/// Decimal notation of a signed integer: a minus sign before negatives.
pub open spec fn int_decimal(i: int) -> Seq<char> {
    if i < 0 {
        seq!['-'] + decimal((-i) as nat)
    } else {
        decimal(i as nat)
    }
}

/// Lower-case conversion by `str::to_lowercase` (Unicode case mapping).
pub uninterp spec fn to_lowercase_spec(s: Seq<char>) -> Seq<char>;

// ───────────────────────────── lemmas ─────────────────────────────

/// The byte length of a concatenation is the sum of the byte lengths.
pub proof fn lemma_utf8_len_concat(a: Seq<char>, b: Seq<char>)
    ensures
        utf8_len(a + b) == utf8_len(a) + utf8_len(b),
    decreases a.len(),
{
    if a.len() > 0 {
        assert((a + b).drop_first() =~= a.drop_first() + b);
        lemma_utf8_len_concat(a.drop_first(), b);
    } else {
        assert(a + b =~= b);
    }
}

/// Extending a prefix by one character adds that character's byte length.
pub proof fn lemma_utf8_len_take_step(s: Seq<char>, k: int)
    requires
        0 <= k < s.len(),
    ensures
        utf8_len(s.take(k + 1)) == utf8_len(s.take(k)) + char_utf8_len(s[k]),
{
    let one = seq![s[k]];
    assert(s.take(k + 1) =~= s.take(k) + one);
    lemma_utf8_len_concat(s.take(k), one);
    assert(one.drop_first() =~= Seq::<char>::empty());
    assert(utf8_len(one) == char_utf8_len(s[k]) + utf8_len(one.drop_first()));
}

/// Byte lengths of prefixes grow with the prefix.
pub proof fn lemma_utf8_len_take_mono(s: Seq<char>, j: int, k: int)
    requires
        0 <= j <= k <= s.len(),
    ensures
        utf8_len(s.take(j)) <= utf8_len(s.take(k)),
        j < k ==> utf8_len(s.take(j)) < utf8_len(s.take(k)),
    decreases k - j,
{
    if j < k {
        lemma_utf8_len_take_step(s, k - 1);
        lemma_utf8_len_take_mono(s, j, k - 1);
    }
}

/// `utf8_len` agrees with the length of vstd's UTF-8 encoding.
pub proof fn lemma_utf8_len_encode(s: Seq<char>)
    ensures
        encode_utf8(s).len() == utf8_len(s),
    decreases s.len(),
{
    if s.len() > 0 {
        vstd::utf8::char_is_scalar(s[0]);
        lemma_utf8_len_encode(s.drop_first());
    }
}

/// Position of the first `x` in `s`.
pub open spec fn first_index_of(s: Seq<Seq<char>>, x: Seq<char>) -> Option<int>
    decreases s.len(),
{
    if s.len() == 0 {
        None
    } else {
        match first_index_of(s.drop_last(), x) {
            Some(i) => Some(i),
            None => if s.last() == x {
                Some(s.len() - 1)
            } else {
                None
            },
        }
    }
}

/// A first occurrence is an occurrence, and nothing before it matches.
pub proof fn lemma_first_index_of(s: Seq<Seq<char>>, x: Seq<char>)
    ensures
        first_index_of(s, x) matches Some(i) ==> 0 <= i < s.len() && s[i] == x,
        first_index_of(s, x) is None ==> forall|j: int| 0 <= j < s.len() ==> s[j] != x,
    decreases s.len(),
{
    if s.len() > 0 {
        lemma_first_index_of(s.drop_last(), x);
        assert(forall|j: int| 0 <= j < s.len() - 1 ==> s.drop_last()[j] == s[j]);
    }
}

/// A first occurrence found in a prefix is the first occurrence of the
/// whole list.
pub proof fn lemma_first_prefix(s: Seq<Seq<char>>, n: int, x: Seq<char>)
    requires
        0 <= n <= s.len(),
        first_index_of(s.take(n), x) is Some,
    ensures
        first_index_of(s, x) == first_index_of(s.take(n), x),
    decreases s.len() - n,
{
    if n < s.len() {
        assert(s.take(n + 1).drop_last() =~= s.take(n));
        lemma_first_prefix(s, n + 1, x);
    } else {
        assert(s.take(n) =~= s);
    }
}

// ───────────────────────────── std wrappers ─────────────────────────────

/// `String: FromIterator<char>` — collecting characters yields the string
/// made of exactly those characters, in order.
#[verifier::external_body]
pub(crate) fn string_from_chars(v: &[char]) -> (s: String)
    ensures
        s@ == v@,
{
    v.iter().collect()
}

/// `str::to_lowercase`: the lower-case equivalent of `s` under Unicode's
/// case mapping. The mapping tables are not restated here; the result is
/// named `to_lowercase_spec`.
#[verifier::external_body]
pub(crate) fn to_lowercase(s: &str) -> (r: String)
    ensures
        r@ == to_lowercase_spec(s@),
{
    s.to_lowercase()
}

// ───────────────────────────── verified operations ─────────────────────────────

/// The characters of `s`, in order.
pub fn chars_of(s: &str) -> (v: Vec<char>)
    ensures
        v@ == s@,
{
    broadcast use vstd::string::group_string_axioms;

    let mut v: Vec<char> = Vec::new();
    for c in it: s.chars()
        invariant
            it.seq() == s@,
            v@ == it.seq().take(it.index()),
    {
        v.push(c);
    }
    v
}

/// Equality of two character sequences.
pub fn chars_eq(a: &[char], b: &[char]) -> (r: bool)
    ensures
        r == (a@ == b@),
{
    if a.len() != b.len() {
        return false;
    }
    let mut i: usize = 0;
    while i < a.len()
        invariant
            a@.len() == b@.len(),
            i <= a@.len(),
            forall|j: int| 0 <= j < i ==> a@[j] == b@[j],
        decreases a@.len() - i,
    {
        if a[i] != b[i] {
            return false;
        }
        i += 1;
    }
    assert(a@ =~= b@);
    true
}

/// `a == b` for string slices.
pub fn str_eq(a: &str, b: &str) -> (r: bool)
    ensures
        r == (a@ == b@),
{
    let va = chars_of(a);
    let vb = chars_of(b);
    chars_eq(va.as_slice(), vb.as_slice())
}

/// A copy of `s` as an owned `String`.
pub fn to_owned_string(s: &str) -> (r: String)
    ensures
        r@ == s@,
{
    let v = chars_of(s);
    string_from_chars(v.as_slice())
}

/// ASCII lower-casing of one character.
pub fn char_ascii_lower(c: char) -> (r: char)
    ensures
        r == ascii_lower(c),
{
    let u = c as u32;
    if 0x41 <= u && u <= 0x5A {
        let b: u8 = (u + 32) as u8;
        proof {
            assert((b as char) == ((c as u32) + 32) as char);
        }
        b as char
    } else {
        c
    }
}

/// `str::eq_ignore_ascii_case`.
pub fn str_eq_ignore_ascii_case(a: &str, b: &str) -> (r: bool)
    ensures
        r == eq_ignore_ascii_case(a@, b@),
{
    let va = chars_of(a);
    let vb = chars_of(b);
    if va.len() != vb.len() {
        return false;
    }
    let mut i: usize = 0;
    while i < va.len()
        invariant
            va@ == a@,
            vb@ == b@,
            va@.len() == vb@.len(),
            i <= va@.len(),
            forall|j: int| 0 <= j < i ==> ascii_lower(#[trigger] va@[j]) == ascii_lower(vb@[j]),
        decreases va@.len() - i,
    {
        if char_ascii_lower(va[i]) != char_ascii_lower(vb[i]) {
            return false;
        }
        i += 1;
    }
    true
}

/// `char::is_whitespace`.
pub fn char_is_whitespace(c: char) -> (r: bool)
    ensures
        r == is_whitespace(c),
{
    let u = c as u32;
    (0x09 <= u && u <= 0x0D) || u == 0x20 || u == 0x85 || u == 0xA0 || u == 0x1680 || (0x2000
        <= u && u <= 0x200A) || u == 0x2028 || u == 0x2029 || u == 0x202F || u == 0x205F || u
        == 0x3000
}

/// Characters `lo..hi` of `v`.
pub fn sub_chars(v: &[char], lo: usize, hi: usize) -> (r: Vec<char>)
    requires
        lo <= hi <= v@.len(),
    ensures
        r@ == v@.subrange(lo as int, hi as int),
{
    let mut r: Vec<char> = Vec::new();
    let mut i = lo;
    while i < hi
        invariant
            lo <= i <= hi <= v@.len(),
            r@ == v@.subrange(lo as int, i as int),
        decreases hi - i,
    {
        r.push(v[i]);
        i += 1;
        assert(r@ =~= v@.subrange(lo as int, i as int));
    }
    r
}

/// `s.trim()` as a character vector.
pub fn trim_chars(v: &[char]) -> (r: Vec<char>)
    ensures
        r@ == trim(v@),
{
    let n = v.len();
    let mut lo: usize = 0;
    assert(v@.subrange(0, n as int) =~= v@);
    while lo < n && char_is_whitespace(v[lo])
        invariant
            lo <= n == v@.len(),
            trim_start(v@) == trim_start(v@.subrange(lo as int, n as int)),
        decreases n - lo,
    {
        assert(v@.subrange(lo as int, n as int).drop_first() =~= v@.subrange(lo + 1, n as int));
        lo += 1;
    }
    assert(trim_start(v@) == v@.subrange(lo as int, n as int));
    let ghost t = v@.subrange(lo as int, n as int);
    let mut hi: usize = n;
    while hi > lo && char_is_whitespace(v[hi - 1])
        invariant
            lo <= hi <= n == v@.len(),
            t == v@.subrange(lo as int, n as int),
            trim_end(t) == trim_end(v@.subrange(lo as int, hi as int)),
        decreases hi,
    {
        assert(v@.subrange(lo as int, hi as int).drop_last() =~= v@.subrange(
            lo as int,
            hi - 1,
        ));
        hi -= 1;
    }
    sub_chars(v, lo, hi)
}

/// `s.trim().to_string()`.
pub fn trim_str(s: &str) -> (r: String)
    ensures
        r@ == trim(s@),
{
    let v = chars_of(s);
    let t = trim_chars(v.as_slice());
    string_from_chars(t.as_slice())
}

/// `needle` occurs in `hay` at position `i`.
pub fn chars_occur_at(hay: &[char], needle: &[char], i: usize) -> (r: bool)
    ensures
        r == occurs_at(hay@, needle@, i as int),
{
    let hl = hay.len();
    if i > hl || needle.len() > hl - i {
        return false;
    }
    let mut j: usize = 0;
    while j < needle.len()
        invariant
            hl == hay@.len(),
            i + needle@.len() <= hay@.len(),
            j <= needle@.len(),
            forall|k: int| 0 <= k < j ==> hay@[i + k] == needle@[k],
        decreases needle@.len() - j,
    {
        assert(i + j < hay@.len());
        if hay[i + j] != needle[j] {
            assert(hay@.subrange(i as int, i + needle@.len())[j as int] != needle@[j as int]);
            return false;
        }
        j += 1;
    }
    assert(hay@.subrange(i as int, i + needle@.len()) =~= needle@);
    true
}

/// `hay.contains(needle)`.
pub fn chars_contains(hay: &[char], needle: &[char]) -> (r: bool)
    ensures
        r == contains(hay@, needle@),
{
    let mut i: usize = 0;
    while i < hay.len()
        invariant
            i <= hay@.len(),
            forall|k: int| 0 <= k < i ==> !occurs_at(hay@, needle@, k),
        decreases hay@.len() - i,
    {
        if chars_occur_at(hay, needle, i) {
            return true;
        }
        i += 1;
    }
    if chars_occur_at(hay, needle, i) {
        return true;
    }
    assert forall|k: int| !occurs_at(hay@, needle@, k) by {
        if 0 <= k <= i {
        }
    }
    false
}

/// `s.replace(pat, rep)` for a non-empty pattern, as characters.
pub fn chars_replace(s: &[char], pat: &[char], rep: &[char]) -> (r: Vec<char>)
    requires
        pat@.len() > 0,
    ensures
        r@ == replace(s@, pat@, rep@),
{
    let mut out: Vec<char> = Vec::new();
    let mut i: usize = 0;
    let n = s.len();
    assert(s@.subrange(0, n as int) =~= s@);
    assert(out@ + replace(s@, pat@, rep@) =~= replace(s@, pat@, rep@));
    while i < n
        invariant
            i <= n == s@.len(),
            pat@.len() > 0,
            out@ + replace(s@.subrange(i as int, n as int), pat@, rep@) == replace(
                s@,
                pat@,
                rep@,
            ),
        decreases n - i,
    {
        let ghost rest = s@.subrange(i as int, n as int);
        if chars_occur_at(s, pat, i) {
            assert(occurs_at(rest, pat@, 0)) by {
                assert(rest.subrange(0, pat@.len() as int) =~= s@.subrange(
                    i as int,
                    i + pat@.len(),
                ));
            }
            assert(rest.subrange(pat@.len() as int, rest.len() as int) =~= s@.subrange(
                i + pat@.len(),
                n as int,
            ));
            let ghost old_out = out@;
            let mut k: usize = 0;
            while k < rep.len()
                invariant
                    k <= rep@.len(),
                    out@ == old_out + rep@.take(k as int),
                decreases rep@.len() - k,
            {
                out.push(rep[k]);
                k += 1;
                assert(out@ =~= old_out + rep@.take(k as int));
            }
            assert(rep@.take(rep@.len() as int) =~= rep@);
            assert(old_out + (rep@ + replace(s@.subrange(i + pat@.len(), n as int), pat@, rep@))
                =~= out@ + replace(s@.subrange(i + pat@.len(), n as int), pat@, rep@));
            i = i + pat.len();
        } else {
            assert(!occurs_at(rest, pat@, 0)) by {
                if occurs_at(rest, pat@, 0) {
                    assert(rest.subrange(0, pat@.len() as int) =~= s@.subrange(
                        i as int,
                        i + pat@.len(),
                    ));
                }
            }
            assert(rest.drop_first() =~= s@.subrange(i + 1, n as int));
            let ghost old_out = out@;
            out.push(s[i]);
            assert(old_out + (seq![s@[i as int]] + replace(s@.subrange(i + 1, n as int), pat@, rep@))
                =~= out@ + replace(s@.subrange(i + 1, n as int), pat@, rep@));
            i = i + 1;
        }
    }
    assert(s@.subrange(n as int, n as int) =~= Seq::<char>::empty());
    assert(out@ + Seq::<char>::empty() =~= out@);
    out
}

/// Number of bytes in the UTF-8 encoding of `c`.
pub fn char_len_utf8(c: char) -> (r: usize)
    ensures
        r == char_utf8_len(c),
{
    let u = c as u32;
    if u < 0x80 {
        1
    } else if u < 0x800 {
        2
    } else if u < 0x10000 {
        3
    } else {
        4
    }
}

/// Byte length of `s` (`str::len`).
pub fn str_byte_len(s: &str) -> (r: usize)
    ensures
        r == utf8_len(s@),
{
    proof {
        lemma_utf8_len_encode(s@);
    }
    let b = s.as_bytes();
    b.len()
}

/// `String::truncate(n)` on a copy: the first `n` bytes, or all of `s` when
/// shorter. `n` must fall on a character boundary (`truncate` panics
/// otherwise).
pub fn truncate_string(s: &String, n: usize) -> (r: String)
    requires
        is_char_boundary(s@, n as nat),
    ensures
        r@ == truncate(s@, n as nat),
        utf8_len(r@) <= n,
{
    let v = chars_of(s.as_str());
    let total = str_byte_len(s.as_str());
    if total <= n {
        return string_from_chars(v.as_slice());
    }
    let mut k: usize = 0;
    let mut bytes: usize = 0;
    proof {
        assert(v@.take(0) =~= Seq::<char>::empty());
    }
    while k < v.len() && bytes < n
        invariant
            v@ == s@,
            k <= v@.len(),
            bytes == utf8_len(v@.take(k as int)),
            bytes <= n,
            n < utf8_len(s@),
            is_char_boundary(s@, n as nat),
        decreases v@.len() - k,
    {
        proof {
            lemma_utf8_len_take_step(v@, k as int);
            let kk = choose|kk: int| 0 <= kk <= s@.len() && utf8_len(#[trigger] s@.take(kk)) == n;
            if kk <= k {
                lemma_utf8_len_take_mono(v@, kk, k as int);
            } else {
                lemma_utf8_len_take_mono(v@, k + 1, kk);
            }
        }
        bytes = bytes + char_len_utf8(v[k]);
        k += 1;
    }
    proof {
        assert(v@.take(v@.len() as int) =~= v@);
        let kk = choose|kk: int| 0 <= kk <= s@.len() && utf8_len(#[trigger] s@.take(kk)) == n;
        if kk < k {
            lemma_utf8_len_take_mono(v@, kk, k as int);
        } else if kk > k {
            lemma_utf8_len_take_mono(v@, k as int, kk);
        }
        assert(kk == k);
    }
    let t = sub_chars(v.as_slice(), 0, k);
    proof {
        assert(t@ =~= s@.take(k as int));
    }
    string_from_chars(t.as_slice())
}

/// The ASCII digit for `d`.
fn digit_to_char(d: u64) -> (c: char)
    requires
        d < 10,
    ensures
        c == digit_char(d as nat),
{
    match d {
        0 => '0',
        1 => '1',
        2 => '2',
        3 => '3',
        4 => '4',
        5 => '5',
        6 => '6',
        7 => '7',
        8 => '8',
        _ => '9',
    }
}

/// Appends the decimal digits of `n` to `out`.
fn push_decimal(n: u64, out: &mut Vec<char>)
    ensures
        final(out)@ == old(out)@ + decimal(n as nat),
    decreases n,
{
    if n >= 10 {
        push_decimal(n / 10, out);
    }
    let c = digit_to_char(n % 10);
    let ghost mid = out@;
    out.push(c);
    proof {
        if n >= 10 {
            assert(mid == old(out)@ + decimal((n / 10) as nat));
            assert(out@ =~= old(out)@ + decimal(n as nat));
        } else {
            assert(out@ =~= old(out)@ + decimal(n as nat));
        }
    }
}

/// `u64::to_string`.
pub fn u64_to_string(n: u64) -> (r: String)
    ensures
        r@ == decimal(n as nat),
{
    let mut v: Vec<char> = Vec::new();
    push_decimal(n, &mut v);
    proof {
        assert(v@ =~= decimal(n as nat));
    }
    string_from_chars(v.as_slice())
}

/// `i64::to_string`.
pub fn i64_to_string(i: i64) -> (r: String)
    ensures
        r@ == int_decimal(i as int),
{
    let mut v: Vec<char> = Vec::new();
    if i < 0 {
        v.push('-');
        let m: u64 = if i == i64::MIN {
            9_223_372_036_854_775_808u64
        } else {
            (-i) as u64
        };
        push_decimal(m, &mut v);
        proof {
            assert(v@ =~= int_decimal(i as int));
        }
    } else {
        push_decimal(i as u64, &mut v);
        proof {
            assert(v@ =~= int_decimal(i as int));
        }
    }
    string_from_chars(v.as_slice())
}

} // verus!
