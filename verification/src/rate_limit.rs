//! Fixed-window rate limits.
//!
//! Each limited action is checked on one or more independent windows, kept
//! as counters in Redis. A window is incremented on every attempt; it expires
//! `window_secs` after its first attempt, and an attempt beyond `limit`
//! within it is refused with the time left before the window resets. Every
//! window of an action is incremented, so the counts stay accurate whichever
//! trips first, and the action is refused when any of them trips.
use vstd::prelude::*;
use crate::entities::{uuid_string, uuid_text};
use crate::text::{chars_of, lowercase, str_concat, string_of, to_lowercase, trim, trim_chars};
use crate::token::{hash_opaque_token, token_hash};

verus! {

// --- Login ---
pub const LOGIN_IDENTIFIER_LIMIT: i64 = 10;
pub const LOGIN_IP_LIMIT: i64 = 30;
pub const LOGIN_WINDOW_SECS: i64 = 900;

// --- Password reset request ---
// Lower and longer than login: every request that gets through sends a mail
// to an address the caller does not have to prove they own.
pub const FORGOT_EMAIL_LIMIT: i64 = 3;
pub const FORGOT_IP_LIMIT: i64 = 10;
pub const FORGOT_WINDOW_SECS: i64 = 3600;

// --- Password reset submission ---
// Only bounds the hashing cost an unauthenticated caller can trigger.
pub const RESET_IP_LIMIT: i64 = 20;
pub const RESET_WINDOW_SECS: i64 = 3600;

// --- Verification email resend ---
// A short window so the button cannot be hammered, a long one so the volume
// stays bounded.
pub const RESEND_BURST_LIMIT: i64 = 1;
pub const RESEND_BURST_WINDOW_SECS: i64 = 60;
pub const RESEND_HOURLY_LIMIT: i64 = 5;
pub const RESEND_HOURLY_WINDOW_SECS: i64 = 3600;

// --- Setup ---
pub const SETUP_IP_LIMIT: i64 = 5;
pub const SETUP_WINDOW_SECS: i64 = 3600;
pub const SETUP_TEST_EMAIL_IP_LIMIT: i64 = 5;
pub const SETUP_TEST_EMAIL_WINDOW_SECS: i64 = 3600;

#[derive(Debug, Clone, Copy, PartialEq, Eq, Structural)]
pub enum RateLimitDecision {
    Allowed,
    Limited { retry_after_secs: u64 },
}

/// The blocking decision when either tripped, keeping the longest wait so a
/// client that retries after the announced delay is not refused again by
/// the other window.
pub open spec fn stricter(a: RateLimitDecision, b: RateLimitDecision) -> RateLimitDecision {
    match (a, b) {
        (RateLimitDecision::Limited { retry_after_secs: x }, RateLimitDecision::Limited { retry_after_secs: y }) => {
            RateLimitDecision::Limited { retry_after_secs: if x >= y { x } else { y } }
        },
        (RateLimitDecision::Limited { retry_after_secs }, _) => RateLimitDecision::Limited { retry_after_secs },
        (_, RateLimitDecision::Limited { retry_after_secs }) => RateLimitDecision::Limited { retry_after_secs },
        _ => RateLimitDecision::Allowed,
    }
}

pub fn most_restrictive(a: RateLimitDecision, b: RateLimitDecision) -> (r: RateLimitDecision)
    ensures
        r == stricter(a, b),
{
    match (a, b) {
        (RateLimitDecision::Limited { retry_after_secs: x }, RateLimitDecision::Limited { retry_after_secs: y }) => {
            RateLimitDecision::Limited { retry_after_secs: if x >= y { x } else { y } }
        },
        (RateLimitDecision::Limited { retry_after_secs }, _) | (_, RateLimitDecision::Limited { retry_after_secs }) => {
            RateLimitDecision::Limited { retry_after_secs }
        },
        _ => RateLimitDecision::Allowed,
    }
}

/// The decision of all windows of an action, folded left to right.
pub open spec fn combined(ds: Seq<RateLimitDecision>) -> RateLimitDecision
    decreases ds.len(),
{
    if ds.len() == 0 {
        RateLimitDecision::Allowed
    } else {
        stricter(combined(ds.drop_last()), ds.last())
    }
}

pub fn combine(ds: &[RateLimitDecision]) -> (r: RateLimitDecision)
    ensures
        r == combined(ds@),
{
    let mut acc = RateLimitDecision::Allowed;
    let mut i: usize = 0;
    while i < ds.len()
        invariant
            i <= ds@.len(),
            acc == combined(ds@.take(i as int)),
        decreases ds@.len() - i,
    {
        assert(ds@.take(i + 1).drop_last() =~= ds@.take(i as int));
        acc = most_restrictive(acc, ds[i]);
        i = i + 1;
    }
    assert(ds@.take(ds@.len() as int) =~= ds@);
    acc
}

/// What to do once the counter of a window was incremented to `count`.
pub struct WindowStep {
    /// First attempt of the window: start its expiry.
    pub set_expiry: bool,
    /// Over the limit: read the time left, to announce it.
    pub read_ttl: bool,
}

pub fn after_increment(count: i64, limit: i64) -> (step: WindowStep)
    ensures
        step.set_expiry == (count == 1),
        step.read_ttl == (count > limit),
{
    WindowStep { set_expiry: count == 1, read_ttl: count > limit }
}

/// The decision of one window: over the limit means refused for the time
/// left before it resets, never a negative wait.
pub open spec fn window_verdict(count: i64, limit: i64, ttl: i64) -> RateLimitDecision {
    if count > limit {
        RateLimitDecision::Limited { retry_after_secs: if ttl < 0 { 0 } else { ttl as u64 } }
    } else {
        RateLimitDecision::Allowed
    }
}

pub fn window_decision(count: i64, limit: i64, ttl: i64) -> (r: RateLimitDecision)
    ensures
        r == window_verdict(count, limit, ttl),
{
    if count > limit {
        let wait: u64 = if ttl < 0 { 0 } else { ttl as u64 };
        RateLimitDecision::Limited { retry_after_secs: wait }
    } else {
        RateLimitDecision::Allowed
    }
}

/// One counter to increment, with its limit and length.
pub struct Window {
    pub key: String,
    pub limit: i64,
    pub window_secs: i64,
}

impl Window {
    pub open spec fn view(&self) -> (Seq<char>, i64, i64) {
        (self.key@, self.limit, self.window_secs)
    }
}

/// The identifier as it is counted: trimmed and lowercased, so a
/// case-varying attacker cannot spread attempts across buckets.
pub open spec fn canonical_identifier(s: Seq<char>) -> Seq<char> {
    lowercase(trim(s))
}

fn hashed_identifier(identifier: &str) -> (h: String)
    ensures
        h@ == token_hash(canonical_identifier(identifier@)),
{
    let chars = chars_of(identifier);
    let trimmed = string_of(&trim_chars(&chars));
    let lowered = to_lowercase(trimmed.as_str());
    hash_opaque_token(lowered.as_str())
}

/// Hashed rather than stored raw: the identifier is often an email address,
/// and key names should not become another place personal data sits at rest.
pub fn login_identifier_key(identifier: &str) -> (k: String)
    ensures
        k@ == "ratelimit:login:identifier:"@ + token_hash(canonical_identifier(identifier@)),
{
    let h = hashed_identifier(identifier);
    str_concat("ratelimit:login:identifier:", h.as_str())
}

pub fn login_ip_key(ip: &str) -> (k: String)
    ensures
        k@ == "ratelimit:login:ip:"@ + ip@,
{
    str_concat("ratelimit:login:ip:", ip)
}

pub fn forgot_email_key(email: &str) -> (k: String)
    ensures
        k@ == "ratelimit:forgot:email:"@ + token_hash(canonical_identifier(email@)),
{
    let h = hashed_identifier(email);
    str_concat("ratelimit:forgot:email:", h.as_str())
}

pub fn forgot_ip_key(ip: &str) -> (k: String)
    ensures
        k@ == "ratelimit:forgot:ip:"@ + ip@,
{
    str_concat("ratelimit:forgot:ip:", ip)
}

pub fn reset_ip_key(ip: &str) -> (k: String)
    ensures
        k@ == "ratelimit:reset:ip:"@ + ip@,
{
    str_concat("ratelimit:reset:ip:", ip)
}

pub fn email_resend_key(user_id: u128) -> (k: String)
    ensures
        k@ == "ratelimit:resend:user:"@ + uuid_text(user_id),
{
    let id = uuid_string(user_id);
    str_concat("ratelimit:resend:user:", id.as_str())
}

pub fn email_resend_burst_key(user_id: u128) -> (k: String)
    ensures
        k@ == "ratelimit:resend:burst:user:"@ + uuid_text(user_id),
{
    let id = uuid_string(user_id);
    str_concat("ratelimit:resend:burst:user:", id.as_str())
}

pub fn setup_ip_key(ip: &str) -> (k: String)
    ensures
        k@ == "ratelimit:setup:ip:"@ + ip@,
{
    str_concat("ratelimit:setup:ip:", ip)
}

pub fn setup_test_email_ip_key(ip: &str) -> (k: String)
    ensures
        k@ == "ratelimit:setup:test_email:ip:"@ + ip@,
{
    str_concat("ratelimit:setup:test_email:ip:", ip)
}

pub open spec fn windows_view(v: Seq<Window>) -> Seq<(Seq<char>, i64, i64)> {
    v.map_values(|w: Window| w.view())
}

/// Login: the submitted identifier, then the client address.
///
/// The identifier window keys on the submitted string, not on the resolved
/// account, so no database round trip is spent on attempts that are refused
/// cheaply; the address window covers the remainder.
pub fn login_attempt_windows(identifier: &str, ip: &str) -> (v: Vec<Window>)
    ensures
        windows_view(v@) == seq![
            ("ratelimit:login:identifier:"@ + token_hash(canonical_identifier(identifier@)), LOGIN_IDENTIFIER_LIMIT, LOGIN_WINDOW_SECS),
            ("ratelimit:login:ip:"@ + ip@, LOGIN_IP_LIMIT, LOGIN_WINDOW_SECS),
        ],
{
    let mut v: Vec<Window> = Vec::new();
    v.push(Window { key: login_identifier_key(identifier), limit: LOGIN_IDENTIFIER_LIMIT, window_secs: LOGIN_WINDOW_SECS });
    v.push(Window { key: login_ip_key(ip), limit: LOGIN_IP_LIMIT, window_secs: LOGIN_WINDOW_SECS });
    assert(windows_view(v@) =~= seq![
        ("ratelimit:login:identifier:"@ + token_hash(canonical_identifier(identifier@)), LOGIN_IDENTIFIER_LIMIT, LOGIN_WINDOW_SECS),
        ("ratelimit:login:ip:"@ + ip@, LOGIN_IP_LIMIT, LOGIN_WINDOW_SECS),
    ]);
    v
}

/// Password reset requests: the address the mail would go to, then the
/// client address.
pub fn password_forgot_windows(email: &str, ip: &str) -> (v: Vec<Window>)
    ensures
        windows_view(v@) == seq![
            ("ratelimit:forgot:email:"@ + token_hash(canonical_identifier(email@)), FORGOT_EMAIL_LIMIT, FORGOT_WINDOW_SECS),
            ("ratelimit:forgot:ip:"@ + ip@, FORGOT_IP_LIMIT, FORGOT_WINDOW_SECS),
        ],
{
    let mut v: Vec<Window> = Vec::new();
    v.push(Window { key: forgot_email_key(email), limit: FORGOT_EMAIL_LIMIT, window_secs: FORGOT_WINDOW_SECS });
    v.push(Window { key: forgot_ip_key(ip), limit: FORGOT_IP_LIMIT, window_secs: FORGOT_WINDOW_SECS });
    assert(windows_view(v@) =~= seq![
        ("ratelimit:forgot:email:"@ + token_hash(canonical_identifier(email@)), FORGOT_EMAIL_LIMIT, FORGOT_WINDOW_SECS),
        ("ratelimit:forgot:ip:"@ + ip@, FORGOT_IP_LIMIT, FORGOT_WINDOW_SECS),
    ]);
    v
}

/// Password reset submissions, per client address.
pub fn password_reset_windows(ip: &str) -> (v: Vec<Window>)
    ensures
        windows_view(v@) == seq![("ratelimit:reset:ip:"@ + ip@, RESET_IP_LIMIT, RESET_WINDOW_SECS)],
{
    let mut v: Vec<Window> = Vec::new();
    v.push(Window { key: reset_ip_key(ip), limit: RESET_IP_LIMIT, window_secs: RESET_WINDOW_SECS });
    assert(windows_view(v@) =~= seq![("ratelimit:reset:ip:"@ + ip@, RESET_IP_LIMIT, RESET_WINDOW_SECS)]);
    v
}

/// Verification mail resends: hourly, then burst, both per account.
pub fn email_resend_windows(user_id: u128) -> (v: Vec<Window>)
    ensures
        windows_view(v@) == seq![
            ("ratelimit:resend:user:"@ + uuid_text(user_id), RESEND_HOURLY_LIMIT, RESEND_HOURLY_WINDOW_SECS),
            ("ratelimit:resend:burst:user:"@ + uuid_text(user_id), RESEND_BURST_LIMIT, RESEND_BURST_WINDOW_SECS),
        ],
{
    let mut v: Vec<Window> = Vec::new();
    v.push(Window { key: email_resend_key(user_id), limit: RESEND_HOURLY_LIMIT, window_secs: RESEND_HOURLY_WINDOW_SECS });
    v.push(Window { key: email_resend_burst_key(user_id), limit: RESEND_BURST_LIMIT, window_secs: RESEND_BURST_WINDOW_SECS });
    assert(windows_view(v@) =~= seq![
        ("ratelimit:resend:user:"@ + uuid_text(user_id), RESEND_HOURLY_LIMIT, RESEND_HOURLY_WINDOW_SECS),
        ("ratelimit:resend:burst:user:"@ + uuid_text(user_id), RESEND_BURST_LIMIT, RESEND_BURST_WINDOW_SECS),
    ]);
    v
}

/// Setup completion attempts, per client address.
pub fn setup_attempt_windows(ip: &str) -> (v: Vec<Window>)
    ensures
        windows_view(v@) == seq![("ratelimit:setup:ip:"@ + ip@, SETUP_IP_LIMIT, SETUP_WINDOW_SECS)],
{
    let mut v: Vec<Window> = Vec::new();
    v.push(Window { key: setup_ip_key(ip), limit: SETUP_IP_LIMIT, window_secs: SETUP_WINDOW_SECS });
    assert(windows_view(v@) =~= seq![("ratelimit:setup:ip:"@ + ip@, SETUP_IP_LIMIT, SETUP_WINDOW_SECS)]);
    v
}

/// Setup test mails, per client address.
pub fn setup_test_email_windows(ip: &str) -> (v: Vec<Window>)
    ensures
        windows_view(v@) == seq![
            ("ratelimit:setup:test_email:ip:"@ + ip@, SETUP_TEST_EMAIL_IP_LIMIT, SETUP_TEST_EMAIL_WINDOW_SECS),
        ],
{
    let mut v: Vec<Window> = Vec::new();
    v.push(Window { key: setup_test_email_ip_key(ip), limit: SETUP_TEST_EMAIL_IP_LIMIT, window_secs: SETUP_TEST_EMAIL_WINDOW_SECS });
    assert(windows_view(v@) =~= seq![
        ("ratelimit:setup:test_email:ip:"@ + ip@, SETUP_TEST_EMAIL_IP_LIMIT, SETUP_TEST_EMAIL_WINDOW_SECS),
    ]);
    v
}

/// The counters cleared after a successful login: the identifier's only.
/// Clearing the address counter on any success would let an attacker who
/// owns one valid account buy a fresh address-wide budget by logging into
/// it, defeating the window meant to catch one address spraying attempts
/// across many identifiers.
pub fn login_reset_keys(identifier: &str) -> (keys: Vec<String>)
    ensures
        keys@.len() == 1,
        keys@[0]@ == "ratelimit:login:identifier:"@ + token_hash(canonical_identifier(identifier@)),
{
    let mut keys: Vec<String> = Vec::new();
    keys.push(login_identifier_key(identifier));
    keys
}

/// A successful login never clears the counter of a client address.
pub proof fn login_success_keeps_address_counters(identifier: Seq<char>, ip: Seq<char>)
    ensures
        "ratelimit:login:identifier:"@ + token_hash(canonical_identifier(identifier)) != "ratelimit:login:ip:"@ + ip,
{
    reveal_strlit("ratelimit:login:identifier:");
    reveal_strlit("ratelimit:login:ip:");
    let a = "ratelimit:login:identifier:"@ + token_hash(canonical_identifier(identifier));
    let b = "ratelimit:login:ip:"@ + ip;
    assert(a[17] == 'd');
    assert(b[17] == 'p');
}

/// The order of two windows does not matter.
pub proof fn stricter_commutes(a: RateLimitDecision, b: RateLimitDecision)
    ensures
        stricter(a, b) == stricter(b, a),
{
}

/// Nor does the grouping of three.
pub proof fn stricter_associates(a: RateLimitDecision, b: RateLimitDecision, c: RateLimitDecision)
    ensures
        stricter(stricter(a, b), c) == stricter(a, stricter(b, c)),
{
}

/// An action is allowed exactly when every one of its windows allows it, and
/// a refusal announces the longest wait among the windows that tripped.
pub proof fn combined_is_the_longest_wait(ds: Seq<RateLimitDecision>)
    ensures
        (combined(ds) == RateLimitDecision::Allowed) <==> (forall|i: int| 0 <= i < ds.len() ==> ds[i] == RateLimitDecision::Allowed),
        combined(ds) matches RateLimitDecision::Limited { retry_after_secs: w } ==> (
            (exists|i: int| 0 <= i < ds.len() && ds[i] == RateLimitDecision::Limited { retry_after_secs: w })
            && forall|i: int, x: u64| 0 <= i < ds.len() && ds[i] == RateLimitDecision::Limited { retry_after_secs: x } ==> x <= w),
    decreases ds.len(),
{
    if ds.len() > 0 {
        let p = ds.drop_last();
        combined_is_the_longest_wait(p);
        assert forall|i: int| 0 <= i < p.len() implies p[i] == ds[i] by {}
        if combined(ds) == RateLimitDecision::Allowed {
            assert forall|i: int| 0 <= i < ds.len() implies ds[i] == RateLimitDecision::Allowed by {
                if i < ds.len() - 1 {
                    assert(p[i] == ds[i]);
                }
            }
        }
        if let RateLimitDecision::Limited { retry_after_secs: w } = combined(ds) {
            match combined(p) {
                RateLimitDecision::Limited { retry_after_secs: wp } => {
                    let wi = choose|i: int| 0 <= i < p.len() && p[i] == RateLimitDecision::Limited { retry_after_secs: wp };
                    assert(ds[wi] == p[wi]);
                },
                RateLimitDecision::Allowed => {},
            }
            assert forall|i: int, x: u64| 0 <= i < ds.len() && ds[i] == RateLimitDecision::Limited { retry_after_secs: x } implies x <= w by {
                if i < ds.len() - 1 {
                    assert(p[i] == ds[i]);
                }
            }
        }
    }
}

/// A window refuses exactly the attempts beyond its limit.
pub proof fn window_refuses_beyond_limit(count: i64, limit: i64, ttl: i64)
    ensures
        (window_verdict(count, limit, ttl) == RateLimitDecision::Allowed) <==> count <= limit,
{
}

/// Identifiers that differ only in case or surrounding white space share a
/// login window.
pub proof fn identifier_case_does_not_split_buckets(a: Seq<char>, b: Seq<char>)
    requires
        lowercase(trim(a)) == lowercase(trim(b)),
    ensures
        "ratelimit:login:identifier:"@ + token_hash(canonical_identifier(a))
            == "ratelimit:login:identifier:"@ + token_hash(canonical_identifier(b)),
{
}

} // verus!
