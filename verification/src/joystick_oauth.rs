//! Joystick.tv login (a public OAuth client with PKCE) and the chat
//! gateway's address.
use vstd::prelude::*;
use vstd::string::StringSliceAdditionalSpecFns;
use vstd::utf8::encode_utf8;
use base64::engine::general_purpose::URL_SAFE_NO_PAD;
use base64::Engine;
use sha2::{Digest, Sha256};

use crate::joystick::{JoystickBotState, PkceState};
use crate::metadata::{url_encode, url_encoded};
use crate::rng::random_bytes_32;
use crate::text::to_owned_string;

verus! {

// ───────────────────────────── encodings ─────────────────────────────

/// The URL-safe base64 digit for `v < 64`: `A-Z`, `a-z`, `0-9`, `-`, `_`.
pub open spec fn b64_char(v: int) -> char {
    if v < 26 {
        (0x41 + v) as char
    } else if v < 52 {
        (0x61 + v - 26) as char
    } else if v < 62 {
        (0x30 + v - 52) as char
    } else if v == 62 {
        '-'
    } else {
        '_'
    }
}

/// URL-safe base64 without padding (RFC 4648 §5): each three bytes become
/// four digits; a final one or two bytes become two or three digits.
pub open spec fn b64_url(b: Seq<u8>) -> Seq<char>
    decreases b.len(),
{
    if b.len() == 0 {
        Seq::empty()
    } else {
        let b0 = b[0] as int;
        if b.len() == 1 {
            seq![b64_char(b0 / 4), b64_char((b0 % 4) * 16)]
        } else {
            let b1 = b[1] as int;
            if b.len() == 2 {
                seq![b64_char(b0 / 4), b64_char((b0 % 4) * 16 + b1 / 16), b64_char((b1 % 16) * 4)]
            } else {
                let b2 = b[2] as int;
                seq![
                    b64_char(b0 / 4),
                    b64_char((b0 % 4) * 16 + b1 / 16),
                    b64_char((b1 % 16) * 4 + b2 / 64),
                    b64_char(b2 % 64),
                ] + b64_url(b.subrange(3, b.len() as int))
            }
        }
    }
}

/// The encoding of `n` bytes has `(4n + 2) / 3` digits.
pub proof fn lemma_b64_url_len(b: Seq<u8>)
    ensures
        b64_url(b).len() == (4 * b.len() + 2) / 3,
    decreases b.len(),
{
    if b.len() >= 3 {
        lemma_b64_url_len(b.subrange(3, b.len() as int));
    }
}

/// `base64::engine::general_purpose::URL_SAFE_NO_PAD.encode`: URL-safe
/// base64 without padding. (The encoder panics when the output length would
/// overflow `usize`, far beyond the bound required here.)
#[verifier::external_body]
fn base64_url_no_pad(data: &[u8]) -> (r: String)
    requires
        data@.len() <= 0x1000_0000,
    ensures
        r@ == b64_url(data@),
{
    URL_SAFE_NO_PAD.encode(data)
}

/// The SHA-256 digest of a byte string (FIPS 180-4).
pub uninterp spec fn sha256_spec(data: Seq<u8>) -> Seq<u8>;

/// `sha2::Sha256::digest`: the 32-byte SHA-256 digest of `data`.
#[verifier::external_body]
fn sha256_digest(data: &[u8]) -> (r: Vec<u8>)
    ensures
        r@ == sha256_spec(data@),
        r@.len() == 32,
{
    Sha256::digest(data).to_vec()
}

// ───────────────────────────── PKCE ─────────────────────────────

/// `v` is the encoding of 32 random bytes.
pub open spec fn is_random_token(v: Seq<char>) -> bool {
    exists|b: Seq<u8>| b.len() == 32 && v == b64_url(b)
}

/// A fresh PKCE code verifier (also used as the CSRF state token): 32
/// random bytes, URL-safe base64 without padding — 43 characters.
pub fn generate_code_verifier() -> (r: String)
    ensures
        is_random_token(r@),
        r@.len() == 43,
{
    let bytes = random_bytes_32();
    let r = base64_url_no_pad(bytes.as_slice());
    proof {
        lemma_b64_url_len(bytes@);
        assert(bytes@.len() == 32 && r@ == b64_url(bytes@));
    }
    r
}

/// The S256 code challenge of a verifier.
pub open spec fn code_challenge(verifier: Seq<u8>) -> Seq<char> {
    b64_url(sha256_spec(verifier))
}

/// The S256 code challenge: the SHA-256 digest of the verifier's bytes, in
/// URL-safe base64 without padding.
pub fn generate_code_challenge(verifier: &str) -> (r: String)
    ensures
        r@ == code_challenge(verifier.spec_bytes()),
{
    let d = sha256_digest(verifier.as_bytes());
    base64_url_no_pad(d.as_slice())
}

/// Where the login redirects back to.
pub open spec fn callback_redirect_uri() -> Seq<char> {
    "http://127.0.0.1:53737/callback"@
}

/// The scopes the companion asks for.
pub open spec fn oauth_scopes() -> Seq<char> {
    "stream:read stream:manage identity:read chat:read chat:write"@
}

/// The authorization URL the browser is sent to.
pub open spec fn authorize_url_spec(client_id: Seq<char>, state: Seq<char>, challenge: Seq<char>) -> Seq<char> {
    "https://joystick.tv/api/oauth/authorize?response_type=code&client_id="@ + url_encoded(
        encode_utf8(client_id),
    ) + "&redirect_uri="@ + url_encoded(encode_utf8(callback_redirect_uri())) + "&scope="@
        + url_encoded(encode_utf8(oauth_scopes())) + "&state="@ + url_encoded(encode_utf8(state))
        + "&code_challenge="@ + url_encoded(encode_utf8(challenge)) + "&code_challenge_method=S256"@
}

/// The authorization URL for `client_id`, CSRF token `state` and code
/// challenge `challenge`.
pub fn authorize_url(client_id: &str, state: &str, challenge: &str) -> (r: String)
    ensures
        r@ == authorize_url_spec(client_id@, state@, challenge@),
{
    let mut u = String::from_str(
        "https://joystick.tv/api/oauth/authorize?response_type=code&client_id=",
    );
    let c = url_encode(client_id);
    u.append(c.as_str());
    u.append("&redirect_uri=");
    let ru = url_encode("http://127.0.0.1:53737/callback");
    u.append(ru.as_str());
    u.append("&scope=");
    let sc = url_encode("stream:read stream:manage identity:read chat:read chat:write");
    u.append(sc.as_str());
    u.append("&state=");
    let st = url_encode(state);
    u.append(st.as_str());
    u.append("&code_challenge=");
    let ch = url_encode(challenge);
    u.append(ch.as_str());
    u.append("&code_challenge_method=S256");
    u
}

/// Starts a login: fails without a client id; otherwise makes a fresh
/// verifier and state token, records them as the pending login, and
/// returns the authorization URL to open.
pub fn prepare_connect(state: &mut JoystickBotState) -> (r: Result<String, String>)
    ensures
        old(state).config.client_id@.len() == 0 ==> (r matches Err(m) && m@ == "Client ID not set"@
            && *final(state) == *old(state)),
        old(state).config.client_id@.len() > 0 ==> (r matches Ok(url) && final(state).pending_pkce
            matches Some(p) && is_random_token(p.verifier@) && is_random_token(p.state@) && url@
            == authorize_url_spec(
            old(state).config.client_id@,
            p.state@,
            code_challenge(encode_utf8(p.verifier@)),
        )),
        final(state).config == old(state).config,
        final(state).access_token == old(state).access_token,
        final(state).refresh_token == old(state).refresh_token,
        final(state).username == old(state).username,
        final(state).current_game == old(state).current_game,
        final(state).main_app_reachable == old(state).main_app_reachable,
        final(state).running == old(state).running,
{
    if state.config.client_id.as_str().is_empty() {
        return Err(to_owned_string("Client ID not set"));
    }
    let verifier = generate_code_verifier();
    let challenge = generate_code_challenge(verifier.as_str());
    let token = generate_code_verifier();
    let url = authorize_url(state.config.client_id.as_str(), token.as_str(), challenge.as_str());
    state.pending_pkce = Some(PkceState { verifier, state: token });
    Ok(url)
}

// ───────────────────────────── callback ─────────────────────────────

/// What a callback carries that the token exchange needs.
#[derive(Debug, Clone)]
pub struct CallbackGrant {
    pub code: String,
    pub verifier: String,
}

/// The view of an optional string slice.
pub open spec fn opt_str(s: Option<&str>) -> Option<Seq<char>> {
    match s {
        Some(x) => Some(x@),
        None => None,
    }
}

/// Checks the login callback's query: an `error` is passed on; then a
/// non-empty `code` is required; then a pending login, which is consumed;
/// then its state token must match `state`.
pub fn check_callback(
    code: Option<&str>,
    state: Option<&str>,
    error: Option<&str>,
    pending: &mut Option<PkceState>,
) -> (r: Result<CallbackGrant, String>)
    ensures
        error matches Some(e) ==> (r matches Err(m) && m@ == e@ && *final(pending) == *old(
            pending,
        )),
        error is None ==> ({
            let has_code = code matches Some(c) && c@.len() > 0;
            &&& !has_code ==> (r matches Err(m) && m@ == "No authorization code received"@
                && *final(pending) == *old(pending))
            &&& has_code && *old(pending) is None ==> (r matches Err(m) && m@
                == "No pending request — possible CSRF"@ && *final(pending) is None)
            &&& has_code ==> (*old(pending) matches Some(p) ==> {
                &&& *final(pending) is None
                &&& opt_str(state) != Some(p.state@) ==> (r matches Err(m) && m@
                    == "State mismatch — possible CSRF"@)
                &&& opt_str(state) == Some(p.state@) ==> (r matches Ok(g) && g.code@ == code->0@
                    && g.verifier == p.verifier)
            })
        }),
{
    if let Some(e) = error {
        return Err(to_owned_string(e));
    }
    let c = match code {
        Some(c) => {
            if c.is_empty() {
                return Err(to_owned_string("No authorization code received"));
            }
            c
        },
        None => {
            return Err(to_owned_string("No authorization code received"));
        },
    };
    let p = match pending.take() {
        Some(p) => p,
        None => {
            return Err(to_owned_string("No pending request — possible CSRF"));
        },
    };
    let matches = match state {
        Some(s) => crate::text::str_eq(s, p.state.as_str()),
        None => false,
    };
    if !matches {
        return Err(to_owned_string("State mismatch — possible CSRF"));
    }
    Ok(CallbackGrant { code: to_owned_string(c), verifier: p.verifier })
}

/// The heading and text of the page the browser shows after the callback.
pub fn callback_message(result: &Result<String, String>) -> (r: (String, String))
    ensures
        result matches Ok(u) ==> r.0@ == "Connected!"@ && r.1@ == "Connected to Joystick.tv"@ + (
        if u@.len() == 0 {
            Seq::empty()
        } else {
            " as "@ + u@
        }) + ". You can close this window."@,
        result matches Err(e) ==> r.0@ == "Connection failed"@ && r.1@ == e@,
{
    match result {
        Ok(u) => {
            let mut m = String::from_str("Connected to Joystick.tv");
            if !u.as_str().is_empty() {
                m.append(" as ");
                m.append(u.as_str());
            }
            m.append(". You can close this window.");
            (to_owned_string("Connected!"), m)
        },
        Err(e) => (to_owned_string("Connection failed"), e.clone()),
    }
}

/// The account name in an identity answer: `username`, else `name`, else
/// `display_name`, else empty.
pub fn identity_name(username: Option<&str>, name: Option<&str>, display_name: Option<&str>) -> (r: String)
    ensures
        r@ == match (username, name, display_name) {
            (Some(u), _, _) => u@,
            (None, Some(n), _) => n@,
            (None, None, Some(d)) => d@,
            (None, None, None) => Seq::empty(),
        },
{
    match username {
        Some(u) => to_owned_string(u),
        None => match name {
            Some(n) => to_owned_string(n),
            None => match display_name {
                Some(d) => to_owned_string(d),
                None => String::new(),
            },
        },
    }
}

impl JoystickBotState {
    /// Records tokens from a login or a refresh: the access token always,
    /// the refresh token when one came.
    pub fn store_tokens(&mut self, access: String, refresh: Option<String>)
        ensures
            final(self).access_token == Some(access),
            refresh is Some ==> final(self).refresh_token == refresh,
            refresh is None ==> final(self).refresh_token == old(self).refresh_token,
            final(self).config == old(self).config,
            final(self).username == old(self).username,
            final(self).current_game == old(self).current_game,
            final(self).main_app_reachable == old(self).main_app_reachable,
            final(self).running == old(self).running,
            final(self).pending_pkce == old(self).pending_pkce,
    {
        self.access_token = Some(access);
        if refresh.is_some() {
            self.refresh_token = refresh;
        }
    }

    /// Records the account name when the identity lookup found one.
    pub fn store_username(&mut self, username: String)
        ensures
            username@.len() > 0 ==> final(self).username == username,
            username@.len() == 0 ==> final(self).username == old(self).username,
            final(self).config == old(self).config,
            final(self).access_token == old(self).access_token,
            final(self).refresh_token == old(self).refresh_token,
            final(self).current_game == old(self).current_game,
            final(self).main_app_reachable == old(self).main_app_reachable,
            final(self).running == old(self).running,
            final(self).pending_pkce == old(self).pending_pkce,
    {
        if !username.as_str().is_empty() {
            self.username = username;
        }
    }

    /// What a token refresh needs: the refresh token, and a client id.
    pub fn refresh_inputs(&self) -> (r: Result<(String, String), String>)
        ensures
            self.refresh_token is None ==> (r matches Err(m) && m@ == "No refresh token available"@),
            self.refresh_token is Some && self.config.client_id@.len() == 0 ==> (r matches Err(m)
                && m@ == "No client ID configured"@),
            self.refresh_token is Some && self.config.client_id@.len() > 0 ==> (r matches Ok(p)
                && p.0@ == self.config.client_id@ && p.1@ == self.refresh_token->0@),
    {
        match &self.refresh_token {
            None => Err(to_owned_string("No refresh token available")),
            Some(t) => {
                if self.config.client_id.as_str().is_empty() {
                    Err(to_owned_string("No client ID configured"))
                } else {
                    Ok((self.config.client_id.clone(), t.clone()))
                }
            },
        }
    }
}

/// The access token of a refresh answer: a missing or empty one fails.
pub fn refreshed_access(access_token: Option<&str>) -> (r: Result<String, String>)
    ensures
        (access_token matches Some(t) && t@.len() > 0) ==> (r matches Ok(s) && s@ == access_token->0@),
        !(access_token matches Some(t) && t@.len() > 0) ==> (r matches Err(m) && m@
            == "Refresh response had no access_token"@),
{
    match access_token {
        Some(t) => if t.is_empty() {
            Err(to_owned_string("Refresh response had no access_token"))
        } else {
            Ok(to_owned_string(t))
        },
        None => Err(to_owned_string("Refresh response had no access_token")),
    }
}

/// The chat gateway's WebSocket address for `token`.
pub fn gateway_url(token: &str) -> (r: String)
    ensures
        r@ == "wss://api.joystick.tv/cable?token="@ + url_encoded(token.spec_bytes()),
{
    let mut u = String::from_str("wss://api.joystick.tv/cable?token=");
    let t = url_encode(token);
    u.append(t.as_str());
    u
}

// ───────────────────────────── keychain ─────────────────────────────

/// The keychain service the companion's secrets are stored under.
pub const KEYRING_SERVICE: &'static str = "statusforge-joystick-bot";

/// `keyring::Entry::new(service, name)` then `delete_credential`: removes
/// the stored secret; a missing entry or a keychain failure is ignored.
/// Nothing about the keychain is modelled.
#[verifier::external_body]
fn keychain_delete(service: &str, name: &str) {
    if let Ok(entry) = keyring::Entry::new(service, name) {
        let _ = entry.delete_credential();
    }
}

/// The keychain entries that hold the login, in the order they are
/// forgotten.
pub open spec fn credential_entries() -> Seq<Seq<char>> {
    seq!["access_token"@, "refresh_token"@, "username"@]
}

/// The names of the keychain entries that hold the login: the access
/// token, the refresh token and the username.
pub fn credential_entry_names() -> (r: Vec<&'static str>)
    ensures
        r@.map_values(|n: &str| n@) == credential_entries(),
{
    let v: Vec<&'static str> = vec!["access_token", "refresh_token", "username"];
    assert(v@.map_values(|n: &str| n@) =~= credential_entries());
    v
}

/// Forgets the stored login: each name of `credential_entry_names` (the
/// access token, the refresh token, the username), in that order, is handed
/// to `keychain_delete` under the service `KEYRING_SERVICE`. What the keychain then holds is outside the
/// library.
pub fn forget_credentials() {
    let names = credential_entry_names();
    let mut i: usize = 0;
    while i < names.len()
        invariant
            names@.map_values(|n: &str| n@) == credential_entries(),
            i <= names@.len(),
        decreases names@.len() - i,
    {
        keychain_delete(KEYRING_SERVICE, names[i]);
        i += 1;
    }
}

} // verus!
