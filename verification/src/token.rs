//! Opaque tokens: random secrets handed to clients, stored only as a hash.
//!
//! A token carries 256 bits of entropy, so a fast hash (SHA-256) is enough
//! for storage: key stretching only matters for low-entropy human secrets.
use vstd::prelude::*;
use vstd::utf8::encode_utf8;
use sha2::Digest;
use base64::Engine;
use argon2::password_hash::rand_core::RngCore;

verus! {

/// Length of an opaque token, in bytes.
pub const TOKEN_BYTES: usize = 32;

/// The SHA-256 digest of `bytes`.
pub uninterp spec fn sha256(bytes: Seq<u8>) -> Seq<u8>;

/// The lowercase hexadecimal digit of a value below 16.
pub open spec fn hex_digit_lower(v: int) -> char {
    if v < 10 {
        (('0' as int) + v) as char
    } else {
        (('a' as int) + (v - 10)) as char
    }
}

/// Lowercase hexadecimal text of `bytes`, high nibble first.
pub open spec fn hex_lower(bytes: Seq<u8>) -> Seq<char>
    decreases bytes.len(),
{
    if bytes.len() == 0 {
        Seq::empty()
    } else {
        seq![hex_digit_lower(bytes[0] as int / 16), hex_digit_lower(bytes[0] as int % 16)] + hex_lower(bytes.drop_first())
    }
}

/// The character of a 6-bit value in the URL-safe base64 alphabet
/// (RFC 4648, section 5).
pub open spec fn b64url_char(v: int) -> char {
    if v < 26 {
        (('A' as int) + v) as char
    } else if v < 52 {
        (('a' as int) + (v - 26)) as char
    } else if v < 62 {
        (('0' as int) + (v - 52)) as char
    } else if v == 62 {
        '-'
    } else {
        '_'
    }
}

/// URL-safe base64 of `bytes`, without padding.
pub open spec fn b64url_nopad(bytes: Seq<u8>) -> Seq<char>
    decreases bytes.len(),
{
    if bytes.len() >= 3 {
        let (b0, b1, b2) = (bytes[0] as int, bytes[1] as int, bytes[2] as int);
        seq![
            b64url_char(b0 / 4),
            b64url_char((b0 % 4) * 16 + b1 / 16),
            b64url_char((b1 % 16) * 4 + b2 / 64),
            b64url_char(b2 % 64),
        ] + b64url_nopad(bytes.subrange(3, bytes.len() as int))
    } else if bytes.len() == 2 {
        let (b0, b1) = (bytes[0] as int, bytes[1] as int);
        seq![b64url_char(b0 / 4), b64url_char((b0 % 4) * 16 + b1 / 16), b64url_char((b1 % 16) * 4)]
    } else if bytes.len() == 1 {
        let b0 = bytes[0] as int;
        seq![b64url_char(b0 / 4), b64url_char((b0 % 4) * 16)]
    } else {
        Seq::empty()
    }
}

/// The stored form of a token: lowercase hex of the SHA-256 of its UTF-8 bytes.
pub open spec fn token_hash(secret: Seq<char>) -> Seq<char> {
    hex_lower(sha256(encode_utf8(secret)))
}

/// Calls `Sha256::digest` of the `sha2` crate. Its result is the named
/// digest `sha256`, 32 bytes long.
#[verifier::external_body]
fn sha256_digest(data: &[u8]) -> (d: Vec<u8>)
    ensures
        d@ == sha256(data@),
        d@.len() == 32,
{
    sha2::Sha256::digest(data).to_vec()
}

/// Calls `hex::encode`, which writes each byte as two lowercase hexadecimal
/// digits, high nibble first.
#[verifier::external_body]
pub(crate) fn hex_encode(data: &[u8]) -> (s: String)
    ensures
        s@ == hex_lower(data@),
{
    hex::encode(data)
}

/// Calls `Engine::encode` with the `URL_SAFE_NO_PAD` engine of the `base64`
/// crate: the URL-safe alphabet of RFC 4648, without padding.
#[verifier::external_body]
fn base64url_encode(data: &[u8]) -> (s: String)
    ensures
        s@ == b64url_nopad(data@),
{
    base64::engine::general_purpose::URL_SAFE_NO_PAD.encode(data)
}

/// Fills 32 bytes from the operating system's random source, through the
/// `OsRng` that `argon2` re-exports. Nothing is known of the bytes.
#[verifier::external_body]
pub(crate) fn random_token_bytes() -> (v: Vec<u8>)
    ensures
        v@.len() == TOKEN_BYTES,
{
    let mut bytes = [0u8; TOKEN_BYTES];
    argon2::password_hash::rand_core::OsRng.fill_bytes(&mut bytes);
    bytes.to_vec()
}

/// A freshly generated opaque token: the secret to hand out, and the hash to
/// store.
pub struct OpaqueToken {
    /// Sent to the client. Never persisted.
    pub secret: String,
    /// Stored in the database. Never sent.
    pub hash: String,
}

/// Hashes a token for storage or lookup.
pub fn hash_opaque_token(secret: &str) -> (h: String)
    ensures
        h@ == token_hash(secret@),
        h@.len() == 64,
        forall|i: int| 0 <= i < h@.len() ==> hex_char_lower(#[trigger] h@[i]),
{
    let digest = sha256_digest(secret.as_bytes());
    proof { hex_lower_shape(digest@); }
    hex_encode(&digest)
}

/// Generates a cryptographically random opaque token.
pub fn generate_opaque_token() -> (t: OpaqueToken)
    ensures
        exists|bytes: Seq<u8>| bytes.len() == TOKEN_BYTES && t.secret@ == b64url_nopad(bytes),
        t.secret@.len() == 43,
        forall|i: int| 0 <= i < t.secret@.len() ==> url_safe(#[trigger] t.secret@[i]),
        t.hash@ == token_hash(t.secret@),
{
    let bytes = random_token_bytes();
    proof { b64url_is_url_safe(bytes@); }
    let secret = base64url_encode(&bytes);
    let hash = hash_opaque_token(secret.as_str());
    OpaqueToken { secret, hash }
}

/// Characters that survive unescaped in a URL query.
pub open spec fn url_safe(c: char) -> bool {
    ('A' <= c <= 'Z') || ('a' <= c <= 'z') || ('0' <= c <= '9') || c == '-' || c == '_'
}

pub open spec fn hex_char_lower(c: char) -> bool {
    ('0' <= c <= '9') || ('a' <= c <= 'f')
}

proof fn lemma_b64url_char_safe(v: int)
    requires
        0 <= v < 64,
    ensures
        url_safe(b64url_char(v)),
{
}

/// Every base64url text is made of URL-safe characters, four for every three
/// bytes (rounded up).
pub proof fn b64url_is_url_safe(bytes: Seq<u8>)
    ensures
        forall|i: int| 0 <= i < b64url_nopad(bytes).len() ==> url_safe(#[trigger] b64url_nopad(bytes)[i]),
        b64url_nopad(bytes).len() == (bytes.len() * 4 + 2) / 3,
    decreases bytes.len(),
{
    if bytes.len() >= 3 {
        let rest = bytes.subrange(3, bytes.len() as int);
        b64url_is_url_safe(rest);
        let (b0, b1, b2) = (bytes[0] as int, bytes[1] as int, bytes[2] as int);
        lemma_b64url_char_safe(b0 / 4);
        lemma_b64url_char_safe((b0 % 4) * 16 + b1 / 16);
        lemma_b64url_char_safe((b1 % 16) * 4 + b2 / 64);
        lemma_b64url_char_safe(b2 % 64);
        let head = seq![
            b64url_char(b0 / 4),
            b64url_char((b0 % 4) * 16 + b1 / 16),
            b64url_char((b1 % 16) * 4 + b2 / 64),
            b64url_char(b2 % 64),
        ];
        assert forall|i: int| 0 <= i < b64url_nopad(bytes).len() implies url_safe(#[trigger] b64url_nopad(bytes)[i]) by {
            if i < 4 {
                assert(b64url_nopad(bytes)[i] == head[i]);
            } else {
                assert(b64url_nopad(bytes)[i] == b64url_nopad(rest)[i - 4]);
            }
        }
    } else if bytes.len() == 2 {
        lemma_b64url_char_safe(bytes[0] as int / 4);
        lemma_b64url_char_safe((bytes[0] as int % 4) * 16 + bytes[1] as int / 16);
        lemma_b64url_char_safe((bytes[1] as int % 16) * 4);
    } else if bytes.len() == 1 {
        lemma_b64url_char_safe(bytes[0] as int / 4);
        lemma_b64url_char_safe((bytes[0] as int % 4) * 16);
    }
}

/// Hex text has two lowercase digits per byte.
pub proof fn hex_lower_shape(bytes: Seq<u8>)
    ensures
        hex_lower(bytes).len() == 2 * bytes.len(),
        forall|i: int| 0 <= i < hex_lower(bytes).len() ==> hex_char_lower(#[trigger] hex_lower(bytes)[i]),
    decreases bytes.len(),
{
    if bytes.len() > 0 {
        let rest = bytes.drop_first();
        hex_lower_shape(rest);
        assert forall|i: int| 0 <= i < hex_lower(bytes).len() implies hex_char_lower(#[trigger] hex_lower(bytes)[i]) by {
            if i >= 2 {
                assert(hex_lower(bytes)[i] == hex_lower(rest)[i - 2]);
            }
        }
    }
}

} // verus!
