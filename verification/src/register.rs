//! The order of the registration checks.
//!
//! A registration is refused at the first check that fails, and every check
//! that needs the database or the breach service is one lookup, run by the
//! caller in the order [`next_register_step`] asks for it. Hashing the
//! password comes last: Argon2 costs about 100 ms with the OWASP parameters,
//! no point spending it on a registration that was going to fail.
use vstd::prelude::*;
use crate::auth::{email_domain, email_domain_of, normalize_email, normalized_email};
use crate::blocked_email::{domain_check_after, next_domain_check, DomainCheck, DomainQuery};
use crate::dto::auth::RegisteredUser;
use crate::entities::{new_v7_id, now_micros, UserEmailModel, UserModel};
use crate::errors::AuthError;
use crate::text::{chars_of, str_contains, has_substring, lemma_trim_idempotent, string_of, trim, trim_chars};

verus! {

/// A lookup the registration needs.
#[derive(Debug, Clone, Copy, PartialEq, Eq, Structural)]
pub enum RegisterQuery {
    /// Whether the instance accepts public signups.
    Settings,
    /// Whether the username is reserved.
    ReservedUsername,
    /// A lookup of the email domain check.
    Domain(DomainQuery),
    /// Whether an account already has this username.
    UsernameExists,
    /// Whether an account already has this address.
    EmailExists,
    /// Whether the password appears in known breaches.
    Breach,
}

/// The answers gathered so far; `None` for a lookup not run yet.
pub struct RegisterAnswers {
    pub public_signup: Option<bool>,
    pub reserved: Option<bool>,
    /// The counts of the domain check, in the order it asked for them.
    pub domain: Vec<u64>,
    pub username_taken: Option<bool>,
    pub email_taken: Option<bool>,
    /// `Some(None)` when the breach service could not be reached.
    pub breached: Option<Option<bool>>,
}

/// What the registration does next.
pub enum RegisterStep {
    Ask(RegisterQuery),
    Refuse(AuthError),
    /// Every check passed: hash the password and create the account.
    Create,
}

/// The breach part of the checks, once everything else passed.
pub open spec fn breach_step(check_pwned_passwords: bool, breached: Option<Option<bool>>) -> RegisterStep {
    if !check_pwned_passwords {
        RegisterStep::Create
    } else {
        match breached {
            None => RegisterStep::Ask(RegisterQuery::Breach),
            Some(Some(true)) => RegisterStep::Refuse(AuthError::PasswordCompromised),
            Some(_) => RegisterStep::Create,
        }
    }
}

/// The uniqueness part of the checks, once the domain passed.
pub open spec fn uniqueness_step(check_pwned_passwords: bool, a: RegisterAnswers) -> RegisterStep {
    match a.username_taken {
        None => RegisterStep::Ask(RegisterQuery::UsernameExists),
        Some(true) => RegisterStep::Refuse(AuthError::UsernameTaken),
        Some(false) => match a.email_taken {
            None => RegisterStep::Ask(RegisterQuery::EmailExists),
            Some(true) => RegisterStep::Refuse(AuthError::EmailTaken),
            Some(false) => breach_step(check_pwned_passwords, a.breached),
        },
    }
}

/// The step owed after the answers `a`, for the normalized address `email`.
pub open spec fn register_step(check_pwned_passwords: bool, block_disposable_emails: bool, email: Seq<char>,
    a: RegisterAnswers) -> RegisterStep
{
    match a.public_signup {
        None => RegisterStep::Ask(RegisterQuery::Settings),
        Some(false) => RegisterStep::Refuse(AuthError::PublicSignupDisabled),
        Some(true) => match a.reserved {
            None => RegisterStep::Ask(RegisterQuery::ReservedUsername),
            Some(true) => RegisterStep::Refuse(AuthError::UsernameReserved),
            Some(false) => if email_domain_of(email) is None {
                RegisterStep::Refuse(AuthError::InvalidEmail)
            } else {
                match domain_check_after(block_disposable_emails, a.domain@) {
                    DomainCheck::Ask(q) => RegisterStep::Ask(RegisterQuery::Domain(q)),
                    DomainCheck::Verdict(Err(e)) => RegisterStep::Refuse(AuthError::BlockedEmail(e)),
                    DomainCheck::Verdict(Ok(())) => uniqueness_step(check_pwned_passwords, a),
                }
            },
        },
    }
}

fn breach_next(check_pwned_passwords: bool, breached: Option<Option<bool>>) -> (s: RegisterStep)
    ensures
        s == breach_step(check_pwned_passwords, breached),
{
    if !check_pwned_passwords {
        return RegisterStep::Create;
    }
    match breached {
        None => RegisterStep::Ask(RegisterQuery::Breach),
        Some(Some(true)) => RegisterStep::Refuse(AuthError::PasswordCompromised),
        Some(_) => RegisterStep::Create,
    }
}

/// Decides the next step of a registration. `email` is the address once
/// normalized, the domain being what follows its last `@`.
pub fn next_register_step(check_pwned_passwords: bool, block_disposable_emails: bool, email: &str,
    a: &RegisterAnswers) -> (s: RegisterStep)
    ensures
        s == register_step(check_pwned_passwords, block_disposable_emails, email@, *a),
{
    match a.public_signup {
        None => return RegisterStep::Ask(RegisterQuery::Settings),
        Some(false) => return RegisterStep::Refuse(AuthError::PublicSignupDisabled),
        Some(true) => {},
    }
    match a.reserved {
        None => return RegisterStep::Ask(RegisterQuery::ReservedUsername),
        Some(true) => return RegisterStep::Refuse(AuthError::UsernameReserved),
        Some(false) => {},
    }
    if email_domain(email).is_none() {
        return RegisterStep::Refuse(AuthError::InvalidEmail);
    }
    match next_domain_check(block_disposable_emails, a.domain.as_slice()) {
        DomainCheck::Ask(q) => return RegisterStep::Ask(RegisterQuery::Domain(q)),
        DomainCheck::Verdict(Err(e)) => return RegisterStep::Refuse(AuthError::BlockedEmail(e)),
        DomainCheck::Verdict(Ok(())) => {},
    }
    match a.username_taken {
        None => RegisterStep::Ask(RegisterQuery::UsernameExists),
        Some(true) => RegisterStep::Refuse(AuthError::UsernameTaken),
        Some(false) => match a.email_taken {
            None => RegisterStep::Ask(RegisterQuery::EmailExists),
            Some(true) => RegisterStep::Refuse(AuthError::EmailTaken),
            Some(false) => breach_next(check_pwned_passwords, a.breached),
        },
    }
}

/// The identity an account is created under: the username trimmed, and the
/// address with its domain lowercased (the local part is case-sensitive per
/// RFC 5321).
pub fn registration_identity(username: &str, email: &str) -> (r: (String, String))
    ensures
        r.0@ == trim(username@),
        r.1@ == normalized_email(email@),
{
    let chars = chars_of(username);
    let trimmed = string_of(&trim_chars(&chars));
    (trimmed, normalize_email(email))
}

/// Whether `r` is a new account created from the submitted username and
/// address, with the given password hash and locale: the username trimmed,
/// the address normalized and primary, linked to the account, not verified,
/// no admin rights and no suspension.
pub open spec fn new_account_rows(r: RegisteredUser, username: Seq<char>, email: Seq<char>, password_hash: Seq<char>,
    locale: Seq<char>) -> bool
{
    &&& r.user.username@ == trim(username)
    &&& r.user.password_hash@ == password_hash
    &&& r.user.locale@ == locale
    &&& !r.user.is_instance_admin
    &&& r.user.suspended_at is None
    &&& r.user.suspension_consistent()
    &&& r.email.email@ == normalized_email(email)
    &&& r.email.user_id == r.user.id
    &&& r.email.is_primary
    &&& r.email.verified_at is None
}

/// The two rows a registration inserts, in one transaction: the account and
/// its primary address. Ids are fresh time-ordered UUIDs; `password_hash` is
/// the Argon2 hash of the submitted password, `locale` the instance default.
pub fn new_account(username: &str, email: &str, password_hash: String, locale: String) -> (r: RegisteredUser)
    ensures
        new_account_rows(r, username@, email@, password_hash@, locale@),
{
    let (name, address) = registration_identity(username, email);
    let user_id = new_v7_id();
    let email_id = new_v7_id();
    let now = now_micros();
    let user = UserModel {
        id: user_id,
        username: name,
        password_hash,
        locale,
        is_instance_admin: false,
        suspended_at: None,
        suspended_until: None,
        suspended_reason: None,
        suspended_by: None,
        created_at: now,
    };
    let email = UserEmailModel { id: email_id, user_id, email: address, is_primary: true, verified_at: None };
    RegisteredUser { user, email }
}

/// The result of a flow whose main change is committed, once its mail was
/// attempted: the mail is best effort, and its failure (or the failure to
/// issue the token it carries) never undoes the change. Used by
/// registration (verification mail), password reset and change (security
/// alert), reset requests and forced resets (reset mail).
pub fn after_best_effort_mail<T, E>(done: T, mail: Result<(), E>) -> (r: T)
    ensures
        r == done,
{
    done
}

/// The constraint guarding usernames.
pub const USERNAME_UNIQUE_CONSTRAINT: &'static str = "users_username_key";
/// The constraint guarding addresses.
pub const EMAIL_UNIQUE_CONSTRAINT: &'static str = "user_emails_email_key";

/// Maps a failed insert to the refusal owed. `unique_violation` is the
/// detail of a unique-constraint violation, `None` for any other store
/// error. The constraints are the real uniqueness guarantee: the lookups
/// before the insert only exist to give a clear answer on the common path.
pub fn map_unique_violation(unique_violation: Option<&str>) -> (e: AuthError)
    ensures
        match unique_violation {
            Some(d) => if has_substring(d@, USERNAME_UNIQUE_CONSTRAINT@) {
                e is UsernameTaken
            } else if has_substring(d@, EMAIL_UNIQUE_CONSTRAINT@) {
                e is EmailTaken
            } else {
                e is Db
            },
            None => e is Db,
        },
{
    match unique_violation {
        Some(detail) => {
            if str_contains(detail, USERNAME_UNIQUE_CONSTRAINT) {
                AuthError::UsernameTaken
            } else if str_contains(detail, EMAIL_UNIQUE_CONSTRAINT) {
                AuthError::EmailTaken
            } else {
                AuthError::Db
            }
        },
        None => AuthError::Db,
    }
}

/// An account is created only once every check passed: signups open, the
/// username neither reserved nor taken, the address well formed, unused and
/// of an accepted domain, and the password not known to be breached.
pub proof fn creation_needs_every_check(check_pwned_passwords: bool, block_disposable_emails: bool,
    email: Seq<char>, a: RegisterAnswers)
    requires
        register_step(check_pwned_passwords, block_disposable_emails, email, a) is Create,
    ensures
        a.public_signup == Some(true),
        a.reserved == Some(false),
        email_domain_of(email) is Some,
        domain_check_after(block_disposable_emails, a.domain@) == DomainCheck::Verdict(Ok(())),
        a.username_taken == Some(false),
        a.email_taken == Some(false),
        check_pwned_passwords ==> a.breached != Some(Some(true)),
{
}

/// An unreachable breach service does not block a registration: the check
/// is advisory.
pub proof fn breach_outage_fails_open(block_disposable_emails: bool, email: Seq<char>, a: RegisterAnswers)
    requires
        a.public_signup == Some(true),
        a.reserved == Some(false),
        email_domain_of(email) is Some,
        domain_check_after(block_disposable_emails, a.domain@) == DomainCheck::Verdict(Ok(())),
        a.username_taken == Some(false),
        a.email_taken == Some(false),
        a.breached == Some(None::<bool>),
    ensures
        register_step(true, block_disposable_emails, email, a) is Create,
{
}

/// The username an account is stored under, typed back at login, is looked
/// up as itself: the login key of a stored username is that username.
pub proof fn login_finds_the_registered_username(submitted: Seq<char>)
    ensures
        trim(trim(submitted)) == trim(submitted),
{
    lemma_trim_idempotent(submitted);
}

/// With the breach check off, the breach service is never consulted: no
/// registration step asks it, none is refused as compromised, and the
/// breach answer, whatever it is, changes nothing.
pub proof fn disabled_breach_check_is_never_consulted(block_disposable_emails: bool, email: Seq<char>,
    a: RegisterAnswers, breached: Option<Option<bool>>)
    ensures
        !(register_step(false, block_disposable_emails, email, a) matches RegisterStep::Ask(RegisterQuery::Breach)),
        !(register_step(false, block_disposable_emails, email, a)
            matches RegisterStep::Refuse(AuthError::PasswordCompromised)),
        register_step(false, block_disposable_emails, email, a)
            == register_step(false, block_disposable_emails, email, RegisterAnswers { breached, ..a }),
{
}

/// Once every other check passed, a registration is created when the breach
/// check is off or the service did not report the password, and refused as
/// compromised exactly when the check is on and it did.
pub proof fn registration_refused_as_compromised_only_when_reported(check_pwned_passwords: bool,
    block_disposable_emails: bool, email: Seq<char>, a: RegisterAnswers)
    requires
        a.public_signup == Some(true),
        a.reserved == Some(false),
        email_domain_of(email) is Some,
        domain_check_after(block_disposable_emails, a.domain@) == DomainCheck::Verdict(Ok(())),
        a.username_taken == Some(false),
        a.email_taken == Some(false),
    ensures
        (register_step(check_pwned_passwords, block_disposable_emails, email, a)
            matches RegisterStep::Refuse(AuthError::PasswordCompromised))
            <==> (check_pwned_passwords && a.breached == Some(Some(true))),
        (!check_pwned_passwords || (a.breached is Some && a.breached != Some(Some(true))))
            ==> register_step(check_pwned_passwords, block_disposable_emails, email, a) is Create,
{
}

} // verus!
