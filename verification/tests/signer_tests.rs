use statusforge::signer::{keygen, parse_signer_args, sign_entry, SignError, SignerCommand};

fn args(v: &[&str]) -> Vec<String> {
    v.iter().map(|s| s.to_string()).collect()
}

#[test]
fn command_line() {
    assert!(matches!(parse_signer_args(&args(&["signer"])), SignerCommand::Usage));
    assert!(matches!(parse_signer_args(&args(&["signer", "keygen"])), SignerCommand::Keygen));
    assert!(matches!(parse_signer_args(&args(&["signer", "frob"])), SignerCommand::Usage));
    assert!(matches!(parse_signer_args(&args(&["signer", "sign", "a.json"])), SignerCommand::SignMissingPaths));
    match parse_signer_args(&args(&["signer", "sign", "a.json", "b.json"])) {
        SignerCommand::Sign { entry_path, out_path, key_file } => {
            assert_eq!((entry_path.as_str(), out_path.as_str(), key_file.as_str()), ("a.json", "b.json", "signing_key.b64"))
        }
        other => panic!("{:?}", other),
    }
    match parse_signer_args(&args(&["signer", "sign", "a.json", "b.json", "--key-file", "k.b64"])) {
        SignerCommand::Sign { key_file, .. } => assert_eq!(key_file, "k.b64"),
        other => panic!("{:?}", other),
    }
    match parse_signer_args(&args(&["signer", "sign", "a.json", "b.json", "--key-file"])) {
        SignerCommand::Sign { key_file, .. } => assert_eq!(key_file, "signing_key.b64"),
        other => panic!("{:?}", other),
    }
}

#[test]
fn rfc8032_test_vector_one() {
    // RFC 8032 section 7.1, TEST 1: empty message.
    let secret_b64 = "nWGxne/9WmC6hEr0kuwsxERJxWl7MmkZcDusAxyuf2A=";
    let sig = sign_entry("", &format!("  {}\n", secret_b64)).unwrap();
    assert_eq!(
        sig,
        "5VZDAMNgrHKQhuLMgG6CioSHfx645dl02HPgZSJJAVVfuIIVkKM7rMYeOXAc+bRr0lv18FlbviRlUUFDjnoQCw=="
    );
}

#[test]
fn bad_keys_are_refused() {
    assert_eq!(sign_entry("{}", "not base64!"), Err(SignError::NotBase64));
    assert_eq!(sign_entry("{}", "AAAA"), Err(SignError::WrongKeyLength));
}

#[test]
fn keygen_pairs_sign_deterministically() {
    let (private, public) = keygen();
    assert_eq!(private.len(), 44);
    assert_eq!(public.len(), 44);
    let a = sign_entry("{\"title\":\"Hades\"}", &private).unwrap();
    let b = sign_entry("{\"title\":\"Hades\"}", &private).unwrap();
    assert_eq!(a, b);
    assert_eq!(a.len(), 88);
}
