//! Decisions of the authentication flows: account state, credentials,
//! address normalization and the order of the registration checks.
//!
//! The flows themselves read and write the database and hash passwords; each
//! decision they take in between is a function here.
use vstd::prelude::*;
use crate::entities::{now_micros, Micros, UserEmailModel, UserModel};
use crate::errors::{AuthError, BlockedEmailError};
use crate::text::{chars_of, contains_char, last_index_of, lemma_last_index_of, lemma_trim_idempotent, lowercase, rfind_char, string_of, to_lowercase, trim, trim_chars, str_eq};

verus! {

/// Whether an account is currently barred: suspended, and either without a
/// deadline or with a deadline still in the future.
pub open spec fn is_barred(suspended_at: Option<Micros>, suspended_until: Option<Micros>, now: Micros) -> bool {
    suspended_at is Some && match suspended_until {
        Some(until) => until > now,
        None => true,
    }
}

/// The refusal owed to a suspended account at instant `now`, if any.
pub fn suspension_error_at(
    suspended_at: Option<Micros>,
    suspended_until: Option<Micros>,
    reason: Option<String>,
    now: Micros,
) -> (r: Option<AuthError>)
    ensures
        r is Some <==> is_barred(suspended_at, suspended_until, now),
        r matches Some(e) ==> (e matches AuthError::AccountSuspended { until, reason: rr }
            && until == suspended_until && rr == reason),
{
    if suspended_at.is_none() {
        return None;
    }
    match suspended_until {
        Some(until) if until <= now => None,
        until => Some(AuthError::AccountSuspended { until, reason }),
    }
}

/// The suspension columns of an account, as cached between requests. All
/// fields `None` means active.
pub struct SuspensionState {
    pub suspended_at: Option<Micros>,
    pub suspended_until: Option<Micros>,
    pub suspended_reason: Option<String>,
}

/// The refusal owed to a suspended account now, if any: the clock is read
/// once and the decision is `suspension_error_at`'s.
pub fn suspension_error(
    suspended_at: Option<Micros>,
    suspended_until: Option<Micros>,
    reason: Option<String>,
) -> (r: Option<AuthError>)
    ensures
        suspended_at is None ==> r is None,
        (suspended_at is Some && suspended_until is None) ==> (r matches Some(AuthError::AccountSuspended { until, reason: rr })
            && until is None && rr == reason),
        r matches Some(e) ==> (e matches AuthError::AccountSuspended { until, reason: rr }
            && until == suspended_until && rr == reason),
        exists|now: Micros| r is Some <==> #[trigger] is_barred(suspended_at, suspended_until, now),
{
    let now = now_micros();
    suspension_error_at(suspended_at, suspended_until, reason, now)
}

impl SuspensionState {
    /// The refusal owed to this state at instant `now`.
    pub fn as_error_at(&self, now: Micros) -> (r: Option<AuthError>)
        ensures
            r is Some <==> is_barred(self.suspended_at, self.suspended_until, now),
            r matches Some(e) ==> (e matches AuthError::AccountSuspended { until, reason }
                && until == self.suspended_until && reason == self.suspended_reason),
    {
        suspension_error_at(self.suspended_at, self.suspended_until, self.suspended_reason.clone(), now)
    }

    /// The refusal owed to this state now.
    pub fn as_error(&self) -> (r: Option<AuthError>)
        ensures
            self.suspended_at is None ==> r is None,
            (self.suspended_at is Some && self.suspended_until is None) ==> r is Some,
            r matches Some(e) ==> (e matches AuthError::AccountSuspended { until, reason }
                && until == self.suspended_until && reason == self.suspended_reason),
            exists|now: Micros| r is Some <==> #[trigger] is_barred(self.suspended_at, self.suspended_until, now),
    {
        let now = now_micros();
        self.as_error_at(now)
    }
}

/// How long the suspension state of an account is cached, in seconds:
/// short enough that a suspension takes effect within seconds even if the
/// explicit invalidation fails.
pub const SUSPENSION_CACHE_TTL_SECS: u64 = 30;

/// The suspension state read from the account row. A valid access token
/// whose account row is gone means the account was deleted while the token
/// was still live: the request is unauthorized.
pub fn suspension_from_row(row: Option<(Option<Micros>, Option<Micros>, Option<String>)>) -> (r: Result<SuspensionState, crate::error::AppError>)
    ensures
        match row {
            None => r matches Err(crate::error::AppError::Unauthorized),
            Some((at, until, reason)) => r matches Ok(s) && s.suspended_at == at
                && s.suspended_until == until && s.suspended_reason == reason,
        },
{
    match row {
        None => Err(crate::error::AppError::Unauthorized),
        Some((suspended_at, suspended_until, suspended_reason)) => Ok(SuspensionState { suspended_at, suspended_until, suspended_reason }),
    }
}

/// The refusal owed to `user` at `now`, if it is barred.
pub fn check_account_suspended_at(user: &UserModel, now: Micros) -> (r: Option<AuthError>)
    ensures
        r is Some <==> is_barred(user.suspended_at, user.suspended_until, now),
        r matches Some(e) ==> (e matches AuthError::AccountSuspended { until, reason }
            && until == user.suspended_until && reason == user.suspended_reason),
{
    suspension_error_at(user.suspended_at, user.suspended_until, user.suspended_reason.clone(), now)
}

/// An address with only its domain lowercased: the local part is
/// case-sensitive per RFC 5321. Cut at the last `@`.
pub open spec fn normalized_email(raw: Seq<char>) -> Seq<char> {
    let t = trim(raw);
    match last_index_of(t, '@') {
        Some(i) => t.take(i) + seq!['@'] + lowercase(t.skip(i + 1)),
        None => t,
    }
}

/// Lowercases the domain only: the local part is case-sensitive per RFC 5321.
pub fn normalize_email(raw: &str) -> (s: String)
    ensures
        s@ == normalized_email(raw@),
{
    let chars = chars_of(raw);
    let t = trim_chars(&chars);
    match rfind_char(&t, '@') {
        Some(i) => {
            proof { lemma_last_index_of(t@, '@'); }
            let n: usize = t.len();
            let mut local: Vec<char> = Vec::new();
            let mut k: usize = 0;
            while k < i
                invariant
                    k <= i < n,
                    n == t@.len(),
                    local@ == t@.take(k as int),
                decreases i - k,
            {
                local.push(t[k]);
                assert(t@.take(k as int).push(t@[k as int]) =~= t@.take(k + 1));
                k = k + 1;
            }
            let mut domain: Vec<char> = Vec::new();
            let mut k: usize = i + 1;
            while k < t.len()
                invariant
                    i < k <= t@.len(),
                    domain@ == t@.subrange(i + 1, k as int),
                decreases t@.len() - k,
            {
                domain.push(t[k]);
                assert(t@.subrange(i + 1, k as int).push(t@[k as int]) =~= t@.subrange(i + 1, k + 1));
                k = k + 1;
            }
            assert(t@.subrange(i + 1, t@.len() as int) =~= t@.skip(i + 1));
            local.push('@');
            let mut s = string_of(&local);
            let d = string_of(&domain);
            let lowered = to_lowercase(d.as_str());
            s.append(lowered.as_str());
            assert(s@ =~= normalized_email(raw@));
            s
        },
        None => string_of(&t),
    }
}

/// The domain of an address: what follows its last `@`.
pub open spec fn email_domain_of(email: Seq<char>) -> Option<Seq<char>> {
    match last_index_of(email, '@') {
        Some(i) => Some(email.skip(i + 1)),
        None => None,
    }
}

/// The domain part of an address, `None` when it holds no `@`.
pub fn email_domain(email: &str) -> (r: Option<String>)
    ensures
        match r {
            Some(d) => email_domain_of(email@) == Some(d@),
            None => email_domain_of(email@) is None,
        },
{
    let t = chars_of(email);
    match rfind_char(&t, '@') {
        Some(i) => {
            proof { lemma_last_index_of(t@, '@'); }
            let n: usize = t.len();
            assert(i < n);
            let mut domain: Vec<char> = Vec::new();
            let mut k: usize = i + 1;
            while k < t.len()
                invariant
                    i < k <= t@.len(),
                    domain@ == t@.subrange(i + 1, k as int),
                decreases t@.len() - k,
            {
                domain.push(t[k]);
                assert(t@.subrange(i + 1, k as int).push(t@[k as int]) =~= t@.subrange(i + 1, k + 1));
                k = k + 1;
            }
            assert(t@.subrange(i + 1, t@.len() as int) =~= t@.skip(i + 1));
            Some(string_of(&domain))
        },
        None => None,
    }
}

/// How a login identifier is looked up.
pub enum LoginLookup {
    /// By primary or secondary address, normalized.
    ByEmail(String),
    /// By username, as typed once trimmed.
    ByUsername(String),
}

/// An identifier holding `@` names an address, anything else a username.
pub fn login_lookup(username_or_email: &str) -> (r: LoginLookup)
    ensures
        trim(username_or_email@).contains('@') ==> (r matches LoginLookup::ByEmail(e)
            && e@ == normalized_email(trim(username_or_email@))),
        !trim(username_or_email@).contains('@') ==> (r matches LoginLookup::ByUsername(u)
            && u@ == trim(username_or_email@)),
{
    let chars = chars_of(username_or_email);
    let t = trim_chars(&chars);
    let identifier = string_of(&t);
    if contains_char(&t, '@') {
        LoginLookup::ByEmail(normalize_email(identifier.as_str()))
    } else {
        LoginLookup::ByUsername(identifier)
    }
}

/// The refusal owed to `user` now: the clock is read once and the decision
/// is `check_account_suspended_at`'s.
pub fn check_account_suspended(user: &UserModel) -> (r: Option<AuthError>)
    ensures
        user.suspended_at is None ==> r is None,
        (user.suspended_at is Some && user.suspended_until is None) ==> r is Some,
        r matches Some(e) ==> (e matches AuthError::AccountSuspended { until, reason }
            && until == user.suspended_until && reason == user.suspended_reason),
        exists|now: Micros| r is Some <==> #[trigger] is_barred(user.suspended_at, user.suspended_until, now),
{
    let now = now_micros();
    check_account_suspended_at(user, now)
}

/// Credentials are accepted only for an existing account whose password
/// matched; the account must then not be barred.
pub fn admit_login(user: Option<&UserModel>, password_valid: bool, now: Micros) -> (r: Result<(), AuthError>)
    ensures
        r is Ok <==> (user matches Some(u) && password_valid && !is_barred(u.suspended_at, u.suspended_until, now)),
        (user is None || !password_valid) ==> (r matches Err(AuthError::InvalidCredentials)),
        user matches Some(u) ==> (password_valid && is_barred(u.suspended_at, u.suspended_until, now)
            ==> (r matches Err(AuthError::AccountSuspended { until, reason })
                && until == u.suspended_until && reason == u.suspended_reason)),
{
    match user {
        Some(u) if password_valid => match check_account_suspended_at(u, now) {
            Some(e) => Err(e),
            None => Ok(()),
        },
        _ => Err(AuthError::InvalidCredentials),
    }
}

/// What the address used for a login allows.
pub enum EmailGate {
    Open,
    /// The address exists but was never verified.
    Unverified,
    /// No address could be found for the account.
    Missing,
}

/// Login requires the address to be verified.
pub fn email_gate(email: Option<&UserEmailModel>) -> (g: EmailGate)
    ensures
        email is None ==> g is Missing,
        email matches Some(e) ==> (e.verified_at is Some <==> g is Open),
        email matches Some(e) ==> (e.verified_at is None <==> g is Unverified),
{
    match email {
        None => EmailGate::Missing,
        Some(e) => if e.verified_at.is_some() {
            EmailGate::Open
        } else {
            EmailGate::Unverified
        },
    }
}

/// A password change must actually change the password.
pub fn check_password_changed(old_password: &str, new_password: &str) -> (r: Result<(), AuthError>)
    ensures
        r is Ok <==> old_password@ != new_password@,
        r matches Err(e) ==> e is PasswordUnchanged,
{
    if str_eq(old_password, new_password) {
        Err(AuthError::PasswordUnchanged)
    } else {
        Ok(())
    }
}

/// The outcome of the breached-password check. `lookup` is `None` when the
/// breach service could not be reached: the check fails open, since it is
/// advisory and an outage must not block every signup.
pub fn compromise_verdict(check_enabled: bool, lookup: Option<bool>) -> (r: Result<(), AuthError>)
    ensures
        r is Err <==> (check_enabled && lookup == Some(true)),
        r matches Err(e) ==> e is PasswordCompromised,
{
    if !check_enabled {
        return Ok(());
    }
    match lookup {
        Some(true) => Err(AuthError::PasswordCompromised),
        _ => Ok(()),
    }
}

/// Whether a reset mail goes out for a password reset request.
pub open spec fn reset_mail_owed(found: bool, barred: bool, verified: bool) -> bool {
    found && !barred && verified
}

/// A reset link is mailed only to a verified address of an account that is
/// not barred. Whatever the answer, the caller replies the same way, so the
/// response never reveals whether the address exists.
pub fn reset_mail_due(account: Option<(&UserModel, &UserEmailModel)>, now: Micros) -> (send: bool)
    ensures
        send == match account {
            Some((u, e)) => reset_mail_owed(true, is_barred(u.suspended_at, u.suspended_until, now), e.verified_at is Some),
            None => reset_mail_owed(false, false, false),
        },
{
    match account {
        Some((user, email)) => {
            if check_account_suspended_at(user, now).is_some() {
                return false;
            }
            email.verified_at.is_some()
        },
        None => false,
    }
}

/// An account that was never suspended is never barred, whatever its
/// deadline column holds.
pub proof fn never_suspended_is_never_barred(until: Option<Micros>, now: Micros)
    ensures
        !is_barred(None, until, now),
{
}

/// A suspension without a deadline bars the account at every instant.
pub proof fn permanent_suspension_always_bars(at: Micros, now: Micros)
    ensures
        is_barred(Some(at), None, now),
{
}

/// A suspension with a deadline bars the account strictly before the
/// deadline and lifts by itself from the deadline on.
pub proof fn suspension_lifts_at_its_deadline(at: Micros, until: Micros, now: Micros)
    ensures
        is_barred(Some(at), Some(until), now) <==> now < until,
{
}

/// An address typed at login, whatever white space surrounds it, is looked
/// up under the very form it was stored in at registration.
pub proof fn login_finds_the_registered_address(raw: Seq<char>)
    ensures
        normalized_email(trim(raw)) == normalized_email(raw),
{
    lemma_trim_idempotent(raw);
}

/// Two spellings of an address that differ only in the case of the domain
/// are stored as one; the local part keeps its case.
pub proof fn domain_case_does_not_matter(x: Seq<char>, y: Seq<char>, i: int)
    requires
        last_index_of(trim(x), '@') == Some(i),
        last_index_of(trim(y), '@') == Some(i),
        trim(x).take(i) == trim(y).take(i),
        lowercase(trim(x).skip(i + 1)) == lowercase(trim(y).skip(i + 1)),
    ensures
        normalized_email(x) == normalized_email(y),
{
}

} // verus!
