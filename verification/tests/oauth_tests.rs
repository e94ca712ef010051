use statusforge::joystick::{init_state, JoystickBotConfig, PkceState};
use statusforge::joystick_oauth::{
    authorize_url, callback_message, check_callback, credential_entry_names, gateway_url, generate_code_challenge,
    generate_code_verifier, identity_name, prepare_connect, refreshed_access,
};

#[test]
fn verifier_is_43_url_safe_characters_and_fresh() {
    let a = generate_code_verifier();
    let b = generate_code_verifier();
    assert_eq!(a.len(), 43);
    assert!(a.chars().all(|c| c.is_ascii_alphanumeric() || c == '-' || c == '_'));
    assert_ne!(a, b);
}

#[test]
fn challenge_matches_rfc7636_example() {
    assert_eq!(
        generate_code_challenge("dBjftJeZ4CVP-mB92K27uhbUJU1p1r_wW1gFWFOEjXk"),
        "E9Melhoa2OwvFrEMTJguCHaoeK1t8URWbuGJSstw-cM"
    );
}

#[test]
fn authorize_url_encodes_every_parameter() {
    assert_eq!(
        authorize_url("my id", "st", "ch"),
        "https://joystick.tv/api/oauth/authorize?response_type=code&client_id=my%20id&redirect_uri=http%3A%2F%2F127.0.0.1%3A53737%2Fcallback&scope=stream%3Aread%20stream%3Amanage%20identity%3Aread%20chat%3Aread%20chat%3Awrite&state=st&code_challenge=ch&code_challenge_method=S256"
    );
    assert_eq!(gateway_url("a b"), "wss://api.joystick.tv/cable?token=a%20b");
}

#[test]
fn connect_needs_a_client_id_and_records_the_pending_login() {
    let mut s = init_state(JoystickBotConfig::default(), None, None, None);
    assert_eq!(prepare_connect(&mut s), Err("Client ID not set".to_string()));
    assert!(s.pending_pkce.is_none());
    s.config.client_id = "cid".into();
    let url = prepare_connect(&mut s).unwrap();
    let p = s.pending_pkce.clone().unwrap();
    assert!(url.contains(&format!("&state={}", p.state)));
    assert!(url.contains(&format!("&code_challenge={}", generate_code_challenge(&p.verifier))));
}

#[test]
fn callback_checks_in_order() {
    let pending = || Some(PkceState { verifier: "v".into(), state: "s".into() });
    let mut p = pending();
    assert_eq!(check_callback(Some("c"), Some("s"), Some("denied"), &mut p).unwrap_err(), "denied");
    assert!(p.is_some());
    assert_eq!(check_callback(Some(""), Some("s"), None, &mut p).unwrap_err(), "No authorization code received");
    assert!(p.is_some());
    assert_eq!(check_callback(Some("c"), Some("x"), None, &mut p).unwrap_err(), "State mismatch — possible CSRF");
    assert!(p.is_none());
    assert_eq!(check_callback(Some("c"), Some("s"), None, &mut p).unwrap_err(), "No pending request — possible CSRF");
    let mut p = pending();
    let g = check_callback(Some("c"), Some("s"), None, &mut p).unwrap();
    assert_eq!((g.code.as_str(), g.verifier.as_str()), ("c", "v"));
    assert!(p.is_none());
}

#[test]
fn tokens_identity_and_messages() {
    let mut s = init_state(JoystickBotConfig::default(), None, Some("r0".into()), Some("me".into()));
    assert_eq!(s.refresh_inputs().unwrap_err(), "No client ID configured");
    s.config.client_id = "cid".into();
    assert_eq!(s.refresh_inputs().unwrap(), ("cid".to_string(), "r0".to_string()));
    s.store_tokens("a1".into(), None);
    assert_eq!((s.access_token.as_deref(), s.refresh_token.as_deref()), (Some("a1"), Some("r0")));
    s.store_tokens("a2".into(), Some("r2".into()));
    assert_eq!(s.refresh_token.as_deref(), Some("r2"));
    s.store_username("".into());
    assert_eq!(s.username, "me");
    s.disconnect();
    assert_eq!(s.refresh_inputs().unwrap_err(), "No refresh token available");
    assert_eq!(refreshed_access(Some("")).unwrap_err(), "Refresh response had no access_token");
    assert_eq!(refreshed_access(Some("t")).unwrap(), "t");
    assert_eq!(identity_name(None, Some("n"), Some("d")), "n");
    assert_eq!(identity_name(None, None, None), "");
    assert_eq!(
        callback_message(&Ok("bob".into())),
        ("Connected!".to_string(), "Connected to Joystick.tv as bob. You can close this window.".to_string())
    );
    assert_eq!(
        callback_message(&Ok("".into())).1,
        "Connected to Joystick.tv. You can close this window."
    );
    assert_eq!(callback_message(&Err("e".into())), ("Connection failed".to_string(), "e".to_string()));
}

#[test]
fn the_login_lives_in_three_keychain_entries() {
    assert_eq!(credential_entry_names(), vec!["access_token", "refresh_token", "username"]);
}
