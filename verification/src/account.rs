//! Decisions of the signed-in and emailed-link account flows: login gates,
//! refresh, password change and reset, address verification.
//!
//! Each flow reads rows and asks the breach service; what it decides from
//! the answers is here, in the order the checks run.
use vstd::prelude::*;
use vstd::utf8::encode_utf8;
use crate::auth::{admit_login, is_barred, check_account_suspended_at, EmailGate};
use crate::entities::{Micros, UserEmailModel, UserModel};
use crate::errors::{AuthError, PasswordError};
use crate::password::{argon2_verdict, verify_password};
use crate::text::str_eq;

verus! {

/// The hash a login attempt is verified against: the account's, or the
/// dummy hash when no account matched, so that the answer takes as long
/// either way and timing does not reveal which accounts exist.
pub fn hash_to_verify<'a>(user: Option<&'a UserModel>, dummy: &'a str) -> (h: &'a str)
    ensures
        match user {
            Some(u) => h@ == u.password_hash@,
            None => h@ == dummy@,
        },
{
    match user {
        Some(u) => u.password_hash.as_str(),
        None => dummy,
    }
}

/// The one hash a login verifies: the account's own, or `dummy` when no
/// account matched.
pub open spec fn credential_hash(user: Option<UserModel>, dummy: Seq<char>) -> Seq<char> {
    match user {
        Some(u) => u.password_hash@,
        None => dummy,
    }
}

/// The refusal a login owes on the verdict of its one verification, before
/// the account's state is looked at: a hash that does not parse fails the
/// request, and an unknown account or a wrong password are both
/// `InvalidCredentials`.
pub open spec fn credentials_refusal(user: Option<UserModel>, verdict: Option<bool>) -> Option<AuthError> {
    match verdict {
        None => Some(AuthError::Password(PasswordError::Hashing)),
        Some(v) => if user is Some && v { None } else { Some(AuthError::InvalidCredentials) },
    }
}

/// The credential step of a login: verifies `password` once, against
/// [`hash_to_verify`]'s choice, then refuses or admits the account as
/// [`admit_login`] decides.
pub fn check_credentials(user: Option<&UserModel>, password: String, dummy: &str, now: Micros) -> (r: Result<(), AuthError>)
    ensures
        ({
            let found = match user { Some(u) => Some(*u), None => None };
            let verdict = argon2_verdict(encode_utf8(password@), credential_hash(found, dummy@));
            match credentials_refusal(found, verdict) {
                Some(e) => r == Err::<(), AuthError>(e),
                None => found matches Some(u) && (r is Ok <==> !is_barred(u.suspended_at, u.suspended_until, now))
                    && (r matches Err(e) ==> (e matches AuthError::AccountSuspended { until, reason }
                        && until == u.suspended_until && reason == u.suspended_reason)),
            }
        }),
{
    let hash = hash_to_verify(user, dummy);
    let valid = match verify_password(password, String::from_str(hash)) {
        Ok(b) => b,
        Err(e) => return Err(AuthError::Password(e)),
    };
    admit_login(user, valid, now)
}

/// Login does not reveal whether an account exists. Either way exactly one
/// hash is verified, the account's own or the dummy hash, and an unknown
/// account is refused exactly as a wrong password is, with
/// `InvalidCredentials`.
pub proof fn unknown_account_answers_as_wrong_password(u: UserModel, dummy: Seq<char>, password: Seq<u8>)
    requires
        argon2_verdict(password, dummy) is Some,
        argon2_verdict(password, u.password_hash@) == Some(false),
    ensures
        credential_hash(None, dummy) == dummy,
        credential_hash(Some(u), dummy) == u.password_hash@,
        credentials_refusal(None, argon2_verdict(password, credential_hash(None, dummy)))
            == Some(AuthError::InvalidCredentials),
        credentials_refusal(Some(u), argon2_verdict(password, credential_hash(Some(u), dummy)))
            == credentials_refusal(None, argon2_verdict(password, credential_hash(None, dummy))),
{
}

/// The refusal owed to a login whose credentials and account passed, by the
/// state of the address it used. An unverified address is answered with a
/// token that lets the client ask for a new verification mail.
pub fn login_email_refusal(gate: EmailGate, resend_token: String) -> (r: Result<(), AuthError>)
    ensures
        gate is Open ==> r is Ok,
        gate is Missing ==> r matches Err(AuthError::InvalidCredentials),
        gate is Unverified ==> (r matches Err(AuthError::EmailNotVerified { resend_token: t }) && t == resend_token),
{
    match gate {
        EmailGate::Open => Ok(()),
        EmailGate::Missing => Err(AuthError::InvalidCredentials),
        EmailGate::Unverified => Err(AuthError::EmailNotVerified { resend_token }),
    }
}

/// The refusal owed to a refresh once the session was rotated: the account
/// must still exist, not be barred, and have a primary address.
pub open spec fn refresh_refusal(user: Option<UserModel>, primary_email: Option<UserEmailModel>, now: Micros) -> Option<AuthError> {
    match user {
        None => Some(AuthError::InvalidRefreshToken),
        Some(u) => if is_barred(u.suspended_at, u.suspended_until, now) {
            Some(AuthError::AccountSuspended { until: u.suspended_until, reason: u.suspended_reason })
        } else if primary_email is None {
            Some(AuthError::InvalidRefreshToken)
        } else {
            None
        },
    }
}

pub fn refresh_gate(user: Option<&UserModel>, primary_email: Option<&UserEmailModel>, now: Micros) -> (r: Result<(), AuthError>)
    ensures
        match refresh_refusal(match user { Some(u) => Some(*u), None => None },
            match primary_email { Some(e) => Some(*e), None => None }, now) {
            Some(e) => r == Err::<(), AuthError>(e),
            None => r is Ok,
        },
{
    match user {
        None => Err(AuthError::InvalidRefreshToken),
        Some(u) => {
            match check_account_suspended_at(u, now) {
                Some(e) => return Err(e),
                None => {},
            }
            if primary_email.is_none() {
                Err(AuthError::InvalidRefreshToken)
            } else {
                Ok(())
            }
        },
    }
}

/// The signed-in account needs its row and its primary address; a missing
/// one is answered as bad credentials.
pub fn current_user_gate(user: Option<&UserModel>, primary_email: Option<&UserEmailModel>) -> (r: Result<(), AuthError>)
    ensures
        r is Ok <==> (user is Some && primary_email is Some),
        r is Err ==> r matches Err(AuthError::InvalidCredentials),
{
    if user.is_some() && primary_email.is_some() {
        Ok(())
    } else {
        Err(AuthError::InvalidCredentials)
    }
}

/// A lookup a password change or reset needs.
#[derive(Debug, Clone, Copy, PartialEq, Eq, Structural)]
pub enum PasswordQuery {
    /// Whether the new password appears in known breaches.
    Breach,
    /// Whether the old password matches the stored hash.
    VerifyOld,
}

/// What a password change or reset does next.
pub enum PasswordStep {
    Ask(PasswordQuery),
    Refuse(AuthError),
    /// Hash the new password, store it and revoke the sessions.
    Apply,
}

/// The breach part: `Ok` when the check is off, passed, or could not be
/// run (it is advisory, and an outage must not block password changes).
pub open spec fn breach_gate(check_pwned_passwords: bool, breached: Option<Option<bool>>) -> Result<bool, AuthError> {
    if !check_pwned_passwords {
        Ok(true)
    } else {
        match breached {
            None => Ok(false),
            Some(Some(true)) => Err(AuthError::PasswordCompromised),
            Some(_) => Ok(true),
        }
    }
}

/// The step owed to a password change.
pub open spec fn change_step(found: bool, old_password: Seq<char>, new_password: Seq<char>,
    check_pwned_passwords: bool, breached: Option<Option<bool>>, old_matches: Option<bool>) -> PasswordStep
{
    if !found {
        PasswordStep::Refuse(AuthError::InvalidCredentials)
    } else if old_password == new_password {
        PasswordStep::Refuse(AuthError::PasswordUnchanged)
    } else {
        match breach_gate(check_pwned_passwords, breached) {
            Err(e) => PasswordStep::Refuse(e),
            Ok(false) => PasswordStep::Ask(PasswordQuery::Breach),
            Ok(true) => match old_matches {
                None => PasswordStep::Ask(PasswordQuery::VerifyOld),
                Some(false) => PasswordStep::Refuse(AuthError::InvalidCredentials),
                Some(true) => PasswordStep::Apply,
            },
        }
    }
}

/// Decides the next step of a password change. `found` tells whether the
/// account and its primary address were both found.
pub fn next_change_step(found: bool, old_password: &str, new_password: &str,
    check_pwned_passwords: bool, breached: Option<Option<bool>>, old_matches: Option<bool>) -> (s: PasswordStep)
    ensures
        s == change_step(found, old_password@, new_password@, check_pwned_passwords, breached, old_matches),
{
    if !found {
        return PasswordStep::Refuse(AuthError::InvalidCredentials);
    }
    if str_eq(old_password, new_password) {
        return PasswordStep::Refuse(AuthError::PasswordUnchanged);
    }
    if check_pwned_passwords {
        match breached {
            None => return PasswordStep::Ask(PasswordQuery::Breach),
            Some(Some(true)) => return PasswordStep::Refuse(AuthError::PasswordCompromised),
            Some(_) => {},
        }
    }
    match old_matches {
        None => PasswordStep::Ask(PasswordQuery::VerifyOld),
        Some(false) => PasswordStep::Refuse(AuthError::InvalidCredentials),
        Some(true) => PasswordStep::Apply,
    }
}

/// The step owed to a password reset from a link. The breach check runs
/// before the link is consumed, so a refused password leaves the link
/// usable for another try.
pub open spec fn reset_step(check_pwned_passwords: bool, breached: Option<Option<bool>>,
    token_user: Option<u128>, user_found: bool, token_email: Option<u128>, email_found: bool) -> PasswordStep
{
    match breach_gate(check_pwned_passwords, breached) {
        Err(e) => PasswordStep::Refuse(e),
        Ok(false) => PasswordStep::Ask(PasswordQuery::Breach),
        Ok(true) => if token_user is Some && user_found && token_email is Some && email_found {
            PasswordStep::Apply
        } else {
            PasswordStep::Refuse(AuthError::InvalidCredentials)
        },
    }
}

/// Decides a password reset once the link was consumed (`token_user` and
/// `token_email` are the account and address it was issued for) and the
/// rows looked up.
pub fn next_reset_step(check_pwned_passwords: bool, breached: Option<Option<bool>>,
    token_user: Option<u128>, user_found: bool, token_email: Option<u128>, email_found: bool) -> (s: PasswordStep)
    ensures
        s == reset_step(check_pwned_passwords, breached, token_user, user_found, token_email, email_found),
{
    if check_pwned_passwords {
        match breached {
            None => return PasswordStep::Ask(PasswordQuery::Breach),
            Some(Some(true)) => return PasswordStep::Refuse(AuthError::PasswordCompromised),
            Some(_) => {},
        }
    }
    if token_user.is_some() && user_found && token_email.is_some() && email_found {
        PasswordStep::Apply
    } else {
        PasswordStep::Refuse(AuthError::InvalidCredentials)
    }
}

/// The verification instant of an address after a verification at `now`.
pub open spec fn verified_after(verified_at: Option<Micros>, now: Micros) -> Option<Micros> {
    match verified_at {
        Some(t) => Some(t),
        None => Some(now),
    }
}

/// Marks an address verified at `now`. Idempotent: clicking the link twice
/// is not an error, and the second click keeps the first timestamp.
pub fn mark_verified(email: &mut UserEmailModel, now: Micros)
    ensures
        final(email).verified_at == verified_after(old(email).verified_at, now),
        final(email).id == old(email).id,
        final(email).user_id == old(email).user_id,
        final(email).email == old(email).email,
        final(email).is_primary == old(email).is_primary,
{
    if email.verified_at.is_none() {
        email.verified_at = Some(now);
    }
}

/// A link carries the address it verifies; one without is refused.
pub fn verification_target(token_email: Option<u128>) -> (r: Result<u128, AuthError>)
    ensures
        match token_email {
            Some(id) => r == Ok::<u128, AuthError>(id),
            None => r matches Err(AuthError::InvalidCredentials),
        },
{
    match token_email {
        Some(id) => Ok(id),
        None => Err(AuthError::InvalidCredentials),
    }
}

/// Whether a new verification mail goes out: only for an existing primary
/// address not verified yet. `Err` when there is no primary address.
pub fn resend_due(primary_email: Option<&UserEmailModel>) -> (r: Result<bool, AuthError>)
    ensures
        match primary_email {
            None => r matches Err(AuthError::InvalidCredentials),
            Some(e) => r == Ok::<bool, AuthError>(e.verified_at is None),
        },
{
    match primary_email {
        None => Err(AuthError::InvalidCredentials),
        Some(e) => Ok(e.verified_at.is_none()),
    }
}

/// A password change only goes through with a new password different from
/// the old one, which matched, and which no breach list holds when the check
/// is on and could run.
pub proof fn change_needs_the_old_password(found: bool, old_password: Seq<char>, new_password: Seq<char>,
    check_pwned_passwords: bool, breached: Option<Option<bool>>, old_matches: Option<bool>)
    requires
        change_step(found, old_password, new_password, check_pwned_passwords, breached, old_matches) is Apply,
    ensures
        found,
        old_password != new_password,
        old_matches == Some(true),
        check_pwned_passwords ==> breached != Some(Some(true)),
{
}

/// Verifying an address twice keeps the instant of the first verification.
pub proof fn verification_keeps_its_first_instant(verified_at: Option<Micros>, now: Micros, later: Micros)
    ensures
        verified_after(verified_after(verified_at, now), later) == verified_after(verified_at, now),
{
}

/// The breach check of a password change only ever refuses a password the
/// breach service reported as breached. A new password it cleared, or a
/// lookup it could not answer, leaves the change exactly where it would be
/// with the check off, whatever answer that would have carried.
pub proof fn cleared_new_password_changes_as_unchecked(found: bool, old_password: Seq<char>,
    new_password: Seq<char>, breached: Option<Option<bool>>, old_matches: Option<bool>)
    ensures
        change_step(found, old_password, new_password, true, Some(Some(false)), old_matches)
            == change_step(found, old_password, new_password, false, breached, old_matches),
        change_step(found, old_password, new_password, true, Some(None), old_matches)
            == change_step(found, old_password, new_password, false, breached, old_matches),
{
}

/// A password change is refused as compromised exactly when the check is
/// on and the breach service reported the new password; with the check off
/// the service is never asked. A found account, a new password that differs
/// from the old one and passed or skipped the check, and a matching old
/// password make the change go through.
pub proof fn change_refused_as_compromised_only_when_reported(found: bool, old_password: Seq<char>,
    new_password: Seq<char>, check_pwned_passwords: bool, breached: Option<Option<bool>>, old_matches: Option<bool>)
    ensures
        (change_step(found, old_password, new_password, check_pwned_passwords, breached, old_matches)
            matches PasswordStep::Refuse(AuthError::PasswordCompromised))
            <==> (found && old_password != new_password && check_pwned_passwords && breached == Some(Some(true))),
        !check_pwned_passwords ==> !(change_step(found, old_password, new_password, check_pwned_passwords,
            breached, old_matches) matches PasswordStep::Ask(PasswordQuery::Breach)),
        (found && old_password != new_password && old_matches == Some(true)
            && (!check_pwned_passwords || (breached is Some && breached != Some(Some(true)))))
            ==> change_step(found, old_password, new_password, check_pwned_passwords, breached, old_matches)
                is Apply,
{
}

/// The breach check of a reset only ever refuses a password the breach
/// service reported as breached: a cleared password, or an unanswered
/// lookup, leaves the reset where it would be with the check off.
pub proof fn cleared_new_password_resets_as_unchecked(breached: Option<Option<bool>>, token_user: Option<u128>,
    user_found: bool, token_email: Option<u128>, email_found: bool)
    ensures
        reset_step(true, Some(Some(false)), token_user, user_found, token_email, email_found)
            == reset_step(false, breached, token_user, user_found, token_email, email_found),
        reset_step(true, Some(None), token_user, user_found, token_email, email_found)
            == reset_step(false, breached, token_user, user_found, token_email, email_found),
{
}

/// A reset is refused as compromised exactly when the check is on and the
/// breach service reported the password; with the check off the service is
/// never asked. A password that passed or skipped the check, with the
/// link's account and address found, is applied.
pub proof fn reset_refused_as_compromised_only_when_reported(check_pwned_passwords: bool,
    breached: Option<Option<bool>>, token_user: Option<u128>, user_found: bool, token_email: Option<u128>,
    email_found: bool)
    ensures
        (reset_step(check_pwned_passwords, breached, token_user, user_found, token_email, email_found)
            matches PasswordStep::Refuse(AuthError::PasswordCompromised))
            <==> (check_pwned_passwords && breached == Some(Some(true))),
        !check_pwned_passwords ==> !(reset_step(check_pwned_passwords, breached, token_user, user_found,
            token_email, email_found) matches PasswordStep::Ask(PasswordQuery::Breach)),
        (token_user is Some && user_found && token_email is Some && email_found
            && (!check_pwned_passwords || (breached is Some && breached != Some(Some(true)))))
            ==> reset_step(check_pwned_passwords, breached, token_user, user_found, token_email, email_found)
                is Apply,
{
}

} // verus!
