//! The metadata signing tool: its command line, key generation, and the
//! signature over an entry's exact bytes.
use vstd::prelude::*;
use vstd::string::StringSliceAdditionalSpecFns;
use base64::engine::general_purpose::STANDARD;
use base64::Engine;
use ed25519_dalek::{Signer, SigningKey};

use crate::rng::random_bytes_32;
use crate::text::{
    chars_eq, chars_of, first_index_of, lemma_first_index_of, lemma_first_prefix, to_owned_string,
    trim, trim_str,
};

verus! {

// ───────────────────────────── base64 ─────────────────────────────

/// The standard base64 digit for `v < 64`: `A-Z`, `a-z`, `0-9`, `+`, `/`.
pub open spec fn b64_std_char(v: int) -> char {
    if v < 26 {
        (0x41 + v) as char
    } else if v < 52 {
        (0x61 + v - 26) as char
    } else if v < 62 {
        (0x30 + v - 52) as char
    } else if v == 62 {
        '+'
    } else {
        '/'
    }
}

/// Standard base64 with padding (RFC 4648 §4): each three bytes become four
/// digits; a final one or two bytes become two or three digits and `=`
/// padding up to four.
pub open spec fn b64_std(b: Seq<u8>) -> Seq<char>
    decreases b.len(),
{
    if b.len() == 0 {
        Seq::empty()
    } else {
        let b0 = b[0] as int;
        if b.len() == 1 {
            seq![b64_std_char(b0 / 4), b64_std_char((b0 % 4) * 16), '=', '=']
        } else {
            let b1 = b[1] as int;
            if b.len() == 2 {
                seq![
                    b64_std_char(b0 / 4),
                    b64_std_char((b0 % 4) * 16 + b1 / 16),
                    b64_std_char((b1 % 16) * 4),
                    '=',
                ]
            } else {
                let b2 = b[2] as int;
                seq![
                    b64_std_char(b0 / 4),
                    b64_std_char((b0 % 4) * 16 + b1 / 16),
                    b64_std_char((b1 % 16) * 4 + b2 / 64),
                    b64_std_char(b2 % 64),
                ] + b64_std(b.subrange(3, b.len() as int))
            }
        }
    }
}

/// `base64::engine::general_purpose::STANDARD.encode`: standard base64
/// with padding. (The encoder panics only when the output length would
/// overflow `usize`, far beyond the bound required here.)
#[verifier::external_body]
fn base64_standard(data: &[u8]) -> (r: String)
    requires
        data@.len() <= 0x1000_0000,
    ensures
        r@ == b64_std(data@),
{
    STANDARD.encode(data)
}

/// `base64::engine::general_purpose::STANDARD.decode`: with its canonical
/// configuration (padding required, no trailing bits) it succeeds exactly
/// on the canonical encodings, and gives back the bytes encoded.
#[verifier::external_body]
fn base64_standard_decode(s: &str) -> (r: Option<Vec<u8>>)
    ensures
        r matches Some(b) ==> s@ == b64_std(b@),
        r is None ==> forall|b: Seq<u8>| s@ != #[trigger] b64_std(b),
{
    STANDARD.decode(s).ok()
}

// ───────────────────────────── Ed25519 ─────────────────────────────

/// The Ed25519 signature (RFC 8032) of `message` under the 32-byte secret
/// key `secret`.
pub uninterp spec fn ed25519_signature(secret: Seq<u8>, message: Seq<u8>) -> Seq<u8>;

/// The Ed25519 public key of the 32-byte secret key `secret`.
pub uninterp spec fn ed25519_public(secret: Seq<u8>) -> Seq<u8>;

/// `SigningKey::from_bytes(secret).sign(message).to_bytes()`: the 64-byte
/// Ed25519 signature of `message`.
#[verifier::external_body]
fn ed25519_sign(secret: &[u8], message: &[u8]) -> (r: Vec<u8>)
    requires
        secret@.len() == 32,
    ensures
        r@ == ed25519_signature(secret@, message@),
        r@.len() == 64,
{
    let key: [u8; 32] = secret.try_into().unwrap();
    SigningKey::from_bytes(&key).sign(message).to_bytes().to_vec()
}

/// `SigningKey::from_bytes(secret).verifying_key().to_bytes()`: the 32-byte
/// Ed25519 public key.
#[verifier::external_body]
fn ed25519_public_key(secret: &[u8]) -> (r: Vec<u8>)
    requires
        secret@.len() == 32,
    ensures
        r@ == ed25519_public(secret@),
        r@.len() == 32,
{
    let key: [u8; 32] = secret.try_into().unwrap();
    SigningKey::from_bytes(&key).verifying_key().to_bytes().to_vec()
}

// ───────────────────────────── the tool ─────────────────────────────

/// What the command line asks for.
#[derive(Debug, Clone)]
pub enum SignerCommand {
    /// `keygen`.
    Keygen,
    /// `sign <entry.json> <out.json> [--key-file path]`.
    Sign { entry_path: String, out_path: String, key_file: String },
    /// `sign` without both paths.
    SignMissingPaths,
    /// Anything else: print the usage and exit with status 1.
    Usage,
}

/// The views of a list of strings.
pub open spec fn arg_views(v: Seq<String>) -> Seq<Seq<char>> {
    v.map_values(|s: String| s@)
}

/// The key file of a `sign` command: the argument after the first
/// `--key-file`, else `signing_key.b64`.
pub open spec fn key_file_arg(args: Seq<Seq<char>>) -> Seq<char> {
    match first_index_of(args, "--key-file"@) {
        Some(i) => if i + 1 < args.len() {
            args[i + 1]
        } else {
            "signing_key.b64"@
        },
        None => "signing_key.b64"@,
    }
}

/// Reads the command line (`args[0]` is the program).
pub fn parse_signer_args(args: &Vec<String>) -> (r: SignerCommand)
    ensures
        ({
            let a = arg_views(args@);
            if a.len() >= 2 && a[1] == "keygen"@ {
                r is Keygen
            } else if a.len() >= 2 && a[1] == "sign"@ {
                if a.len() >= 4 {
                    r matches SignerCommand::Sign { entry_path, out_path, key_file }
                        && entry_path@ == a[2] && out_path@ == a[3] && key_file@ == key_file_arg(a)
                } else {
                    r is SignMissingPaths
                }
            } else {
                r is Usage
            }
        }),
{
    let ghost a = arg_views(args@);
    if args.len() < 2 {
        return SignerCommand::Usage;
    }
    let cmd = chars_of(args[1].as_str());
    if chars_eq(cmd.as_slice(), chars_of("keygen").as_slice()) {
        return SignerCommand::Keygen;
    }
    if !chars_eq(cmd.as_slice(), chars_of("sign").as_slice()) {
        return SignerCommand::Usage;
    }
    if args.len() < 4 {
        return SignerCommand::SignMissingPaths;
    }
    let flag = chars_of("--key-file");
    let mut i: usize = 0;
    let mut found: Option<usize> = None;
    while i < args.len()
        invariant
            i <= args@.len(),
            a == arg_views(args@),
            flag@ == "--key-file"@,
            found is None ==> first_index_of(a.take(i as int), "--key-file"@) is None,
            found matches Some(k) ==> first_index_of(a, "--key-file"@) == Some(k as int),
        decreases args@.len() - i,
    {
        proof {
            assert(a.take(i + 1).drop_last() =~= a.take(i as int));
            assert(a[i as int] == args@[i as int]@);
        }
        if found.is_none() && chars_eq(chars_of(args[i].as_str()).as_slice(), flag.as_slice()) {
            found = Some(i);
            proof {
                assert(first_index_of(a.take(i + 1), "--key-file"@) == Some(i as int));
                lemma_first_index_of(a.take(i as int), "--key-file"@);
                lemma_first_prefix(a, i as int + 1, "--key-file"@);
            }
        }
        i += 1;
    }
    proof {
        assert(a.take(a.len() as int) =~= a);
        lemma_first_index_of(a, "--key-file"@);
    }
    let key_file = match found {
        Some(k) => {
            if k < args.len() - 1 {
                args[k + 1].clone()
            } else {
                to_owned_string("signing_key.b64")
            }
        },
        None => to_owned_string("signing_key.b64"),
    };
    SignerCommand::Sign {
        entry_path: args[2].clone(),
        out_path: args[3].clone(),
        key_file,
    }
}

/// Distinct values below 64 have distinct digits, and no digit is `=`.
proof fn lemma_b64_std_char(x: int, y: int)
    requires
        0 <= x < 64,
        0 <= y < 64,
    ensures
        b64_std_char(x) == b64_std_char(y) ==> x == y,
        b64_std_char(x) != '=',
{
    let cx = b64_std_char(x);
    let cy = b64_std_char(y);
    assert(cx as u32 == (if x < 26 {
        0x41 + x
    } else if x < 52 {
        0x61 + x - 26
    } else if x < 62 {
        0x30 + x - 52
    } else if x == 62 {
        0x2B
    } else {
        0x2F
    }));
    assert(cy as u32 == (if y < 26 {
        0x41 + y
    } else if y < 52 {
        0x61 + y - 26
    } else if y < 62 {
        0x30 + y - 52
    } else if y == 62 {
        0x2B
    } else {
        0x2F
    }));
}

/// Different byte strings have different encodings.
proof fn lemma_b64_std_injective(a: Seq<u8>, b: Seq<u8>)
    requires
        b64_std(a) == b64_std(b),
    ensures
        a == b,
    decreases a.len(),
{
    let e = b64_std(a);
    if a.len() == 0 || b.len() == 0 {
        if a.len() != 0 || b.len() != 0 {
            assert(b64_std(a).len() != b64_std(b).len());
        }
        assert(a =~= b);
        return;
    }
    let (a0, b0) = (a[0] as int, b[0] as int);
    lemma_b64_std_char(a0 / 4, b0 / 4);
    assert(e[0] == b64_std_char(a0 / 4));
    assert(e[0] == b64_std_char(b0 / 4));
    if a.len() == 1 || b.len() == 1 {
        if a.len() != 1 {
            let a1 = a[1] as int;
            lemma_b64_std_char((a0 % 4) * 16 + a1 / 16, 0);
            assert(e[2] != '=');
            assert(false);
        }
        if b.len() != 1 {
            let b1 = b[1] as int;
            lemma_b64_std_char((b0 % 4) * 16 + b1 / 16, 0);
            assert(false);
        }
        lemma_b64_std_char((a0 % 4) * 16, (b0 % 4) * 16);
        assert(e[1] == b64_std_char((a0 % 4) * 16) && e[1] == b64_std_char((b0 % 4) * 16));
        assert(a0 == b0);
        assert(a =~= b);
        return;
    }
    let (a1, b1) = (a[1] as int, b[1] as int);
    lemma_b64_std_char((a0 % 4) * 16 + a1 / 16, (b0 % 4) * 16 + b1 / 16);
    if a.len() == 2 || b.len() == 2 {
        if a.len() != 2 {
            let a2 = a[2] as int;
            lemma_b64_std_char(a2 % 64, 0);
            assert(false);
        }
        if b.len() != 2 {
            let b2 = b[2] as int;
            lemma_b64_std_char(b2 % 64, 0);
            assert(false);
        }
        lemma_b64_std_char((a1 % 16) * 4, (b1 % 16) * 4);
        assert(e[1] == b64_std_char((a0 % 4) * 16 + a1 / 16) && e[1] == b64_std_char((b0 % 4) * 16 + b1 / 16));
        assert(e[2] == b64_std_char((a1 % 16) * 4) && e[2] == b64_std_char((b1 % 16) * 4));
        assert(a0 % 4 == b0 % 4 && a1 / 16 == b1 / 16);
        assert(a0 == b0 && a1 == b1);
        assert(a =~= b);
        return;
    }
    let (a2, b2) = (a[2] as int, b[2] as int);
    lemma_b64_std_char((a1 % 16) * 4 + a2 / 64, (b1 % 16) * 4 + b2 / 64);
    lemma_b64_std_char(a2 % 64, b2 % 64);
    assert(e[1] == b64_std_char((a0 % 4) * 16 + a1 / 16) && e[1] == b64_std_char((b0 % 4) * 16 + b1 / 16));
    assert(e[2] == b64_std_char((a1 % 16) * 4 + a2 / 64) && e[2] == b64_std_char((b1 % 16) * 4 + b2 / 64));
    assert(e[3] == b64_std_char(a2 % 64) && e[3] == b64_std_char(b2 % 64));
    assert(a0 % 4 == b0 % 4 && a1 / 16 == b1 / 16);
    assert(a1 % 16 == b1 % 16 && a2 / 64 == b2 / 64);
    assert(a0 == b0 && a1 == b1 && a2 == b2);
    let ra = a.subrange(3, a.len() as int);
    let rb = b.subrange(3, b.len() as int);
    assert(b64_std(ra) =~= e.subrange(4, e.len() as int));
    assert(b64_std(rb) =~= e.subrange(4, e.len() as int));
    lemma_b64_std_injective(ra, rb);
    assert(a =~= seq![a[0], a[1], a[2]] + ra);
    assert(b =~= seq![b[0], b[1], b[2]] + rb);
}

/// The decoded key is the only byte string with this encoding.
proof fn lemma_b64_std_injective_at(k: Seq<u8>)
    ensures
        forall|b: Seq<u8>| b64_std(b) == b64_std(k) ==> b == k,
{
    assert forall|b: Seq<u8>| b64_std(b) == b64_std(k) implies b == k by {
        lemma_b64_std_injective(b, k);
    }
}

/// Why a signature could not be made.
#[derive(Debug, Clone, Copy, PartialEq, Eq, Structural)]
pub enum SignError {
    /// The key file is not valid base64.
    NotBase64,
    /// The key does not decode to 32 bytes.
    WrongKeyLength,
}

/// A fresh key pair: the secret key and its public key, each in standard
/// base64.
pub fn keygen() -> (r: (String, String))
    ensures
        exists|sk: Seq<u8>|
            sk.len() == 32 && r.0@ == b64_std(sk) && r.1@ == #[trigger] b64_std(ed25519_public(sk)),
{
    let secret = random_bytes_32();
    let public = ed25519_public_key(secret.as_slice());
    let private_b64 = base64_standard(secret.as_slice());
    let public_b64 = base64_standard(public.as_slice());
    proof {
        assert(secret@.len() == 32 && private_b64@ == b64_std(secret@) && public_b64@ == b64_std(
            ed25519_public(secret@),
        ));
    }
    (private_b64, public_b64)
}

/// Signs the exact bytes of `entry_json` with the base64 secret key (read
/// from the key file; surrounding whitespace is ignored) and returns the
/// signature in standard base64.
pub fn sign_entry(entry_json: &str, private_b64: &str) -> (r: Result<String, SignError>)
    ensures
        r matches Ok(sig) ==> exists|sk: Seq<u8>|
            sk.len() == 32 && trim(private_b64@) == b64_std(sk) && sig@ == #[trigger] b64_std(
                ed25519_signature(sk, entry_json.spec_bytes()),
            ),
        r == Err::<String, SignError>(SignError::NotBase64) <==> forall|b: Seq<u8>|
            trim(private_b64@) != #[trigger] b64_std(b),
        r == Err::<String, SignError>(SignError::WrongKeyLength) <==> exists|b: Seq<u8>|
            trim(private_b64@) == #[trigger] b64_std(b) && b.len() != 32,
{
    let t = trim_str(private_b64);
    let key = match base64_standard_decode(t.as_str()) {
        Some(k) => k,
        None => {
            return Err(SignError::NotBase64);
        },
    };
    proof {
        lemma_b64_std_injective_at(key@);
    }
    if key.len() != 32 {
        return Err(SignError::WrongKeyLength);
    }
    let sig = ed25519_sign(key.as_slice(), entry_json.as_bytes());
    let s = base64_standard(sig.as_slice());
    proof {
        assert(key@.len() == 32 && trim(private_b64@) == b64_std(key@) && s@ == b64_std(
            ed25519_signature(key@, entry_json.spec_bytes()),
        ));
    }
    Ok(s)
}

} // verus!
