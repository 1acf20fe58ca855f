use pwnforge::errors::PasswordError;
use pwnforge::password::{
    dummy_hash, hash_password, pwned_range_key, pwned_range_url, range_lists_suffix, unusable_hash,
    verify_password, DUMMY_PASSWORD,
};

#[test]
fn hash_then_verify_succeeds() {
    let hash = hash_password("correct horse battery".into()).unwrap();
    assert!(verify_password("correct horse battery".into(), hash).unwrap());
}

#[test]
fn wrong_password_fails() {
    let hash = hash_password("correct horse battery".into()).unwrap();
    assert!(!verify_password("wrong".into(), hash).unwrap());
}

#[test]
fn same_password_produces_different_hashes() {
    let a = hash_password("same".into()).unwrap();
    let b = hash_password("same".into()).unwrap();
    assert_ne!(a, b); // random salt per hash
}

#[test]
fn malformed_hash_returns_error() {
    let result = verify_password("whatever".into(), "not-a-phc-string".into());
    assert!(matches!(result, Err(PasswordError::Hashing)));
}

#[test]
fn hashes_use_argon2id_with_the_owasp_parameters() {
    let hash = hash_password("x".into()).unwrap();
    assert!(hash.starts_with("$argon2id$v=19$m=19456,t=2,p=1$"), "{hash}");
}

#[test]
fn dummy_hash_verifies_only_its_own_secret() {
    let hash = dummy_hash().unwrap();
    assert!(verify_password(DUMMY_PASSWORD.into(), hash.clone()).unwrap());
    assert!(!verify_password("correct horse battery".into(), hash).unwrap());
}

#[test]
fn unusable_hash_is_a_valid_hash_nobody_knows() {
    let hash = unusable_hash().unwrap();
    assert!(hash.starts_with("$argon2id$"));
    assert!(!verify_password("".into(), hash.clone()).unwrap());
    assert!(!verify_password("password".into(), hash).unwrap());
}

#[test]
fn range_key_splits_the_uppercase_sha1() {
    // SHA-1("password") = 5BAA61E4C9B93F3F0682250B6CF8331B7EE68FD8
    let (prefix, suffix) = pwned_range_key("password");
    assert_eq!(prefix, "5BAA6");
    assert_eq!(suffix, "1E4C9B93F3F0682250B6CF8331B7EE68FD8");
}

#[test]
fn range_url_appends_the_prefix() {
    assert_eq!(pwned_range_url("5BAA6"), "https://api.pwnedpasswords.com/range/5BAA6");
}

#[test]
fn range_answer_lists_the_suffix() {
    let body = "0018A45C4D1DEF81644B54AB7F969B88D65:1\r\n1E4C9B93F3F0682250B6CF8331B7EE68FD8:3861493\r\n00D4F6E8FA6EECAD2A3AA415EEC418D38EC:2";
    assert!(range_lists_suffix(body, "1E4C9B93F3F0682250B6CF8331B7EE68FD8"));
    assert!(!range_lists_suffix(body, "FFFFFFFFFFFFFFFFFFFFFFFFFFFFFFFFFFF"));
}

#[test]
fn padding_entries_with_zero_count_do_not_match() {
    let body = "1E4C9B93F3F0682250B6CF8331B7EE68FD8:0\n";
    assert!(!range_lists_suffix(body, "1E4C9B93F3F0682250B6CF8331B7EE68FD8"));
    let padded = "1E4C9B93F3F0682250B6CF8331B7EE68FD8: 0 \n";
    assert!(!range_lists_suffix(padded, "1E4C9B93F3F0682250B6CF8331B7EE68FD8"));
}

#[test]
fn lines_without_a_count_are_ignored() {
    assert!(!range_lists_suffix("1E4C9B93F3F0682250B6CF8331B7EE68FD8\n", "1E4C9B93F3F0682250B6CF8331B7EE68FD8"));
    assert!(!range_lists_suffix("", "ABC"));
}
