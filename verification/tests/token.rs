use pwnforge::token::{generate_opaque_token, hash_opaque_token};

#[test]
fn generated_tokens_are_unique() {
    let a = generate_opaque_token();
    let b = generate_opaque_token();
    assert_ne!(a.secret, b.secret);
    assert_ne!(a.hash, b.hash);
}

#[test]
fn hash_is_deterministic() {
    let token = generate_opaque_token();
    assert_eq!(hash_opaque_token(&token.secret), token.hash);
}

#[test]
fn secret_is_url_safe() {
    let token = generate_opaque_token();
    assert!(token.secret.chars().all(|c| c.is_ascii_alphanumeric() || c == '-' || c == '_'));
}

#[test]
fn secret_carries_256_bits_without_padding() {
    let token = generate_opaque_token();
    assert_eq!(token.secret.len(), 43);
    assert!(!token.secret.contains('='));
}

#[test]
fn stored_hash_is_lowercase_hex_sha256() {
    assert_eq!(
        hash_opaque_token("abc"),
        "ba7816bf8f01cfea414140de5dae2223b00361a396177a9cb410ff61f20015ad"
    );
    assert_eq!(
        hash_opaque_token(""),
        "e3b0c44298fc1c149afbf4c8996fb92427ae41e4649b934ca495991b7852b855"
    );
}
