//! Password hashing with Argon2id, and the breached-password check.
//!
//! Hashing and verification run the `argon2` crate with the OWASP
//! parameters below. The breach check asks the Pwned Passwords range API
//! with k-anonymity: only the first five hexadecimal digits of the
//! password's SHA-1 leave the process; the service answers with every
//! suffix it knows under that prefix, and the match is done here.
use vstd::prelude::*;
use vstd::utf8::{encode_utf8, is_ascii_chars, is_ascii_chars_encode_utf8};
use argon2::password_hash::{PasswordHasher, PasswordVerifier};
use sha1::Digest;
use crate::errors::PasswordError;
use crate::text::{chars_of, chars_eq, lines, lines_chars, split_once, split_once_chars, str_concat, string_of, trim, trim_chars};
use crate::token::{hex_encode, hex_lower, hex_lower_shape, random_token_bytes, TOKEN_BYTES};

verus! {

/// Argon2id memory cost, in KiB (19 MiB, as OWASP recommends).
pub const ARGON2_MEMORY_COST: u32 = 19 * 1024;
/// Argon2id iteration count.
pub const ARGON2_ITERATIONS: u32 = 2;
/// Argon2id degree of parallelism.
pub const ARGON2_PARALLELISM: u32 = 1;
/// Length of the Argon2id output, in bytes.
pub const OUTPUT_HASH_LENGTH: usize = 32;

/// The range endpoint of the Pwned Passwords API.
pub const API_URL: &'static str = "https://api.pwnedpasswords.com/range";

/// A password fed to [`dummy_hash`]: the hash exists only to be verified
/// against, so that a login for an unknown account takes as long as one for
/// a known account.
pub const DUMMY_PASSWORD: &'static str = "dummy-password-never-matches";

#[verifier::external_type_specification]
#[verifier::external_body]
pub struct ExPasswordHashError(argon2::password_hash::Error);

/// What `PasswordVerifier::verify_password` of `argon2` answers for
/// `password` against the PHC string `phc`: `None` when `phc` does not
/// parse as a PHC string, else whether the password matches. Verification
/// takes algorithm, version, parameters and salt from `phc` itself.
pub uninterp spec fn argon2_verdict(password: Seq<u8>, phc: Seq<char>) -> Option<bool>;

/// Builds `argon2::Params` from the costs, then hashes `password` with
/// Argon2id (version 0x13) under a fresh salt drawn from `OsRng`, and
/// renders the PHC string. The salt is random: two calls give different
/// strings. What is stated is what verification of the result answers: the
/// PHC string carries the salt and the parameters, so verifying the same
/// password recomputes the same output. With valid costs the only input
/// `Argon2::hash_password_into` refuses is a password longer than
/// `MAX_PWD_LEN` (`u32::MAX`) bytes; the generated salt is 16 bytes, within
/// the salt bounds, and the output is built by `Output::init_with`, which
/// takes lengths from 10 to 64 bytes, the bounds that `requires` keeps
/// `output_len` within.
#[verifier::external_body]
fn argon2id_hash(password: &[u8], m_cost: u32, t_cost: u32, p_cost: u32, output_len: usize)
    -> (r: Result<String, argon2::password_hash::Error>)
    requires
        8 <= m_cost,
        8 * p_cost <= m_cost,
        1 <= t_cost,
        1 <= p_cost <= 0xFF_FFFF,
        10 <= output_len <= 64,
    ensures
        r matches Ok(h) ==> argon2_verdict(password@, h@) == Some(true),
        password@.len() <= 0xFFFF_FFFF ==> r is Ok,
{
    let params = argon2::Params::new(m_cost, t_cost, p_cost, Some(output_len))
        .map_err(argon2::password_hash::Error::from)?;
    let hasher = argon2::Argon2::new(argon2::Algorithm::Argon2id, argon2::Version::V0x13, params);
    let salt = argon2::password_hash::SaltString::generate(&mut argon2::password_hash::rand_core::OsRng);
    match hasher.hash_password(password, &salt) {
        Ok(hash) => Ok(hash.to_string()),
        Err(e) => Err(e),
    }
}

/// Parses `phc` with `PasswordHash::new` and verifies `password` against it
/// with an Argon2id hasher built from the costs. The parse error comes back
/// as `Err`; a mismatch is `Ok(false)`. The answer is the named verdict.
#[verifier::external_body]
fn argon2id_verify(password: &[u8], phc: &str, m_cost: u32, t_cost: u32, p_cost: u32, output_len: usize)
    -> (r: Result<bool, argon2::password_hash::Error>)
    requires
        8 <= m_cost,
        8 * p_cost <= m_cost,
        1 <= t_cost,
        1 <= p_cost <= 0xFF_FFFF,
        10 <= output_len <= 64,
    ensures
        match r {
            Ok(b) => argon2_verdict(password@, phc@) == Some(b),
            Err(_) => argon2_verdict(password@, phc@) is None,
        },
{
    let params = argon2::Params::new(m_cost, t_cost, p_cost, Some(output_len))
        .map_err(argon2::password_hash::Error::from)?;
    let hasher = argon2::Argon2::new(argon2::Algorithm::Argon2id, argon2::Version::V0x13, params);
    let parsed = argon2::password_hash::PasswordHash::new(phc)?;
    Ok(hasher.verify_password(password, &parsed).is_ok())
}

/// Hashes a plaintext password with Argon2id.
///
/// Whatever hash comes back verifies against the same password.
///
/// # Errors
///
/// [`PasswordError::Hashing`] if the Argon2 backend fails, which it only
/// does for a password longer than `u32::MAX` bytes.
pub fn hash_password(password: String) -> (r: Result<String, PasswordError>)
    ensures
        r matches Ok(h) ==> argon2_verdict(encode_utf8(password@), h@) == Some(true),
        encode_utf8(password@).len() <= 0xFFFF_FFFF ==> r is Ok,
        r matches Err(e) ==> e is Hashing,
{
    let bytes = password.as_str().as_bytes();
    match argon2id_hash(bytes, ARGON2_MEMORY_COST, ARGON2_ITERATIONS, ARGON2_PARALLELISM, OUTPUT_HASH_LENGTH) {
        Ok(h) => Ok(h),
        Err(_) => Err(PasswordError::Hashing),
    }
}

/// Verifies a plaintext password against a PHC string.
///
/// # Errors
///
/// [`PasswordError::Hashing`] if `hash` is not a PHC string.
pub fn verify_password(password: String, hash: String) -> (r: Result<bool, PasswordError>)
    ensures
        match r {
            Ok(b) => argon2_verdict(encode_utf8(password@), hash@) == Some(b),
            Err(e) => argon2_verdict(encode_utf8(password@), hash@) is None && e is Hashing,
        },
{
    let bytes = password.as_str().as_bytes();
    match argon2id_verify(bytes, hash.as_str(), ARGON2_MEMORY_COST, ARGON2_ITERATIONS, ARGON2_PARALLELISM, OUTPUT_HASH_LENGTH) {
        Ok(b) => Ok(b),
        Err(_) => Err(PasswordError::Hashing),
    }
}

/// A valid Argon2 hash of a secret nobody knows, verified against on logins
/// for unknown accounts so that they take as long as the others.
pub fn dummy_hash() -> (r: Result<String, PasswordError>)
    ensures
        r matches Ok(h) ==> argon2_verdict(encode_utf8(DUMMY_PASSWORD@), h@) == Some(true),
        r is Ok,
{
    proof {
        reveal_strlit("dummy-password-never-matches");
        assert(DUMMY_PASSWORD@.len() == 28);
        assert(is_ascii_chars(DUMMY_PASSWORD@));
        is_ascii_chars_encode_utf8(DUMMY_PASSWORD@);
    }
    hash_password(String::from_str(DUMMY_PASSWORD))
}

/// A valid Argon2 hash of 32 random bytes, written in hexadecimal. Used to
/// lock an account out without a sentinel value in the column: verification
/// keeps its usual behaviour and timing, and no code path has to special-case
/// an "unusable" password.
pub fn unusable_hash() -> (r: Result<String, PasswordError>)
    ensures
        r matches Ok(h) ==> exists|secret: Seq<u8>| secret.len() == TOKEN_BYTES
            && #[trigger] argon2_verdict(encode_utf8(hex_lower(secret)), h@) == Some(true),
        r is Ok,
{
    let bytes = random_token_bytes();
    let secret = hex_encode(&bytes);
    proof {
        hex_lower_shape(bytes@);
        assert(is_ascii_chars(secret@));
        is_ascii_chars_encode_utf8(secret@);
    }
    hash_password(secret)
}

/// The SHA-1 digest of `bytes`.
pub uninterp spec fn sha1(bytes: Seq<u8>) -> Seq<u8>;

/// Calls `Sha1::digest` of the `sha1` crate. Its result is the named
/// digest `sha1`, 20 bytes long.
#[verifier::external_body]
fn sha1_digest(data: &[u8]) -> (d: Vec<u8>)
    ensures
        d@ == sha1(data@),
        d@.len() == 20,
{
    sha1::Sha1::digest(data).to_vec()
}

/// The uppercase hexadecimal digit of a value below 16.
pub open spec fn hex_digit_upper(v: int) -> char {
    if v < 10 {
        (('0' as int) + v) as char
    } else {
        (('A' as int) + (v - 10)) as char
    }
}

/// Uppercase hexadecimal text of `bytes`, high nibble first.
pub open spec fn hex_upper(bytes: Seq<u8>) -> Seq<char>
    decreases bytes.len(),
{
    if bytes.len() == 0 {
        Seq::empty()
    } else {
        seq![hex_digit_upper(bytes[0] as int / 16), hex_digit_upper(bytes[0] as int % 16)] + hex_upper(bytes.drop_first())
    }
}

pub proof fn lemma_hex_upper_len(bytes: Seq<u8>)
    ensures
        hex_upper(bytes).len() == 2 * bytes.len(),
    decreases bytes.len(),
{
    if bytes.len() > 0 {
        lemma_hex_upper_len(bytes.drop_first());
    }
}

/// Calls `hex::encode_upper`, which writes each byte as two uppercase
/// hexadecimal digits, high nibble first.
#[verifier::external_body]
fn hex_encode_upper(data: &[u8]) -> (s: String)
    ensures
        s@ == hex_upper(data@),
{
    hex::encode_upper(data)
}

/// The uppercase hexadecimal SHA-1 of a password's UTF-8 bytes.
pub open spec fn pwned_hash(password: Seq<char>) -> Seq<char> {
    hex_upper(sha1(encode_utf8(password)))
}

/// What is sent to the range API and what is looked for in its answer: the
/// first five digits of [`pwned_hash`], and the remaining thirty-five.
pub fn pwned_range_key(password: &str) -> (r: (String, String))
    ensures
        r.0@ == pwned_hash(password@).take(5),
        r.1@ == pwned_hash(password@).skip(5),
        r.0@.len() == 5,
        r.1@.len() == 35,
{
    let digest = sha1_digest(password.as_bytes());
    let hash = hex_encode_upper(&digest);
    proof { lemma_hex_upper_len(digest@); }
    let chars = chars_of(hash.as_str());
    let mut prefix: Vec<char> = Vec::new();
    let mut k: usize = 0;
    while k < 5
        invariant
            k <= 5,
            chars@ == hash@,
            chars@.len() == 40,
            prefix@ == chars@.take(k as int),
        decreases 5 - k,
    {
        prefix.push(chars[k]);
        assert(chars@.take(k as int).push(chars@[k as int]) =~= chars@.take(k + 1));
        k = k + 1;
    }
    let mut suffix: Vec<char> = Vec::new();
    while k < 40
        invariant
            5 <= k <= 40,
            chars@ == hash@,
            chars@.len() == 40,
            suffix@ == chars@.subrange(5, k as int),
        decreases 40 - k,
    {
        suffix.push(chars[k]);
        assert(chars@.subrange(5, k as int).push(chars@[k as int]) =~= chars@.subrange(5, k + 1));
        k = k + 1;
    }
    assert(chars@.subrange(5, 40) =~= chars@.skip(5));
    (string_of(&prefix), string_of(&suffix))
}

/// The address asked for a prefix.
pub fn pwned_range_url(prefix: &str) -> (url: String)
    ensures
        url@ == API_URL@ + seq!['/'] + prefix@,
{
    let base = str_concat(API_URL, "/");
    proof { reveal_strlit("/"); }
    str_concat(base.as_str(), prefix)
}

/// Whether a line of a range answer, `SUFFIX:COUNT`, lists `suffix` with a
/// count other than zero (padding entries carry a zero count).
pub open spec fn line_lists(line: Seq<char>, suffix: Seq<char>) -> bool {
    match split_once(line, ':') {
        Some((candidate, count)) => candidate == suffix && trim(count) != seq!['0'],
        None => false,
    }
}

/// Whether a range answer lists `suffix`.
pub open spec fn range_lists(body: Seq<char>, suffix: Seq<char>) -> bool {
    exists|k: int| 0 <= k < lines(body).len() && #[trigger] line_lists(lines(body)[k], suffix)
}

/// Reads a range answer: the password is compromised when some line lists
/// its suffix with a nonzero count.
pub fn range_lists_suffix(body: &str, suffix: &str) -> (b: bool)
    ensures
        b == range_lists(body@, suffix@),
{
    let chars = chars_of(body);
    let wanted = chars_of(suffix);
    let ls = lines_chars(&chars);
    let zero: Vec<char> = vec!['0'];
    let mut k: usize = 0;
    while k < ls.len()
        invariant
            k <= ls@.len(),
            chars@ == body@,
            wanted@ == suffix@,
            zero@ == seq!['0'],
            ls@.len() == lines(body@).len(),
            forall|m: int| 0 <= m < ls@.len() ==> #[trigger] ls@[m]@ == lines(body@)[m],
            forall|m: int| 0 <= m < k ==> !line_lists(#[trigger] lines(body@)[m], suffix@),
        decreases ls@.len() - k,
    {
        let line = &ls[k];
        assert(line@ == lines(body@)[k as int]);
        match split_once_chars(line, ':') {
            Some((candidate, count)) => {
                let trimmed = trim_chars(&count);
                if chars_eq(&candidate, &wanted) && !chars_eq(&trimmed, &zero) {
                    assert(line_lists(lines(body@)[k as int], suffix@));
                    return true;
                }
            },
            None => {},
        }
        k = k + 1;
    }
    false
}

} // verus!
