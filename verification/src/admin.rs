//! Decisions of the administrative actions on accounts: suspension, admin
//! rights and forced password resets.
//!
//! Each action loads its target, decides here, then writes its changes and
//! an audit entry in one transaction.
use vstd::prelude::*;
use crate::auth::is_barred;
use crate::entities::{uuid_string, uuid_text, Micros, UserEmailModel, UserModel};
use crate::errors::AdminError;
use crate::types::{RevokedReason, TokenKind};
use crate::text::str_concat;

verus! {

/// Whether an action aims at the account of the admin performing it.
pub open spec fn self_target(user: UserModel, actor: Option<u128>) -> bool {
    actor == Some(user.id)
}

/// A suspension needs a target, and an admin does not suspend themselves.
pub fn plan_suspend(user: Option<&UserModel>, actor: Option<u128>) -> (r: Result<(), AdminError>)
    ensures
        user is None ==> r matches Err(AdminError::UserNotFound),
        user matches Some(u) ==> (self_target(*u, actor) <==> r matches Err(AdminError::SelfTarget)),
        user matches Some(u) ==> (!self_target(*u, actor) <==> r is Ok),
{
    match user {
        None => Err(AdminError::UserNotFound),
        Some(u) => {
            let is_self = match actor {
                Some(a) => a == u.id,
                None => false,
            };
            if is_self {
                Err(AdminError::SelfTarget)
            } else {
                Ok(())
            }
        },
    }
}

/// Whether `after` is `before` with only its suspension columns set: at
/// `now`, until `until`, for `reason`, by `actor`.
pub open spec fn suspended_copy(before: UserModel, after: UserModel, now: Micros, until: Option<Micros>,
    reason: Seq<char>, actor: Option<u128>) -> bool
{
    &&& after.suspended_at == Some(now)
    &&& after.suspended_until == until
    &&& after.suspended_reason matches Some(r) && r@ == reason
    &&& after.suspended_by == actor
    &&& after.id == before.id
    &&& after.username == before.username
    &&& after.password_hash == before.password_hash
    &&& after.locale == before.locale
    &&& after.is_instance_admin == before.is_instance_admin
    &&& after.created_at == before.created_at
}

/// Writes a suspension into the account's columns.
pub fn apply_suspension(user: &mut UserModel, now: Micros, until: Option<Micros>, reason: &str, actor: Option<u128>)
    ensures
        suspended_copy(*old(user), *final(user), now, until, reason@, actor),
        final(user).suspension_consistent(),
{
    user.suspended_at = Some(now);
    user.suspended_until = until;
    user.suspended_reason = Some(String::from_str(reason));
    user.suspended_by = actor;
}

/// Lifting a suspension needs a target, whether or not it is suspended.
pub fn plan_unsuspend(user: Option<&UserModel>) -> (r: Result<(), AdminError>)
    ensures
        user is None <==> r matches Err(AdminError::UserNotFound),
        r is Ok <==> user is Some,
{
    match user {
        None => Err(AdminError::UserNotFound),
        Some(_) => Ok(()),
    }
}

/// Clears every suspension column, whether the suspension had a deadline
/// or not.
pub fn clear_suspension(user: &mut UserModel)
    ensures
        final(user).suspended_at is None,
        final(user).suspended_until is None,
        final(user).suspended_reason is None,
        final(user).suspended_by is None,
        final(user).suspension_consistent(),
        final(user).id == old(user).id,
        final(user).username == old(user).username,
        final(user).password_hash == old(user).password_hash,
        final(user).locale == old(user).locale,
        final(user).is_instance_admin == old(user).is_instance_admin,
        final(user).created_at == old(user).created_at,
{
    user.suspended_at = None;
    user.suspended_until = None;
    user.suspended_reason = None;
    user.suspended_by = None;
}

/// A deadline given for a suspension must lie in the future: a deadline
/// already past would suspend nothing.
pub fn suspension_deadline_ok(until: Option<Micros>, now: Micros) -> (ok: bool)
    ensures
        ok <==> (until matches Some(t) ==> t > now),
{
    match until {
        Some(t) => t > now,
        None => true,
    }
}

/// Whether an admin-rights change has something to write.
#[derive(Debug, Clone, Copy, PartialEq, Eq, Structural)]
pub enum RightsChange {
    /// The account already has the requested rights: nothing is written and
    /// the action succeeds.
    Unchanged,
    /// Write the new rights and record the change.
    Apply,
}

/// Granting instance-admin rights.
pub fn plan_promote(user: Option<&UserModel>) -> (r: Result<RightsChange, AdminError>)
    ensures
        user is None ==> r matches Err(AdminError::UserNotFound),
        user matches Some(u) ==> (u.is_instance_admin ==> r matches Ok(RightsChange::Unchanged)),
        user matches Some(u) ==> (!u.is_instance_admin ==> r matches Ok(RightsChange::Apply)),
{
    match user {
        None => Err(AdminError::UserNotFound),
        Some(u) => if u.is_instance_admin { Ok(RightsChange::Unchanged) } else { Ok(RightsChange::Apply) },
    }
}

/// The outcome owed to a demotion of `user`, given the number of admins of
/// the instance and who acts.
pub open spec fn demote_outcome(user: UserModel, admin_count: u64, actor: Option<u128>) -> Result<RightsChange, AdminError> {
    if !user.is_instance_admin {
        Ok(RightsChange::Unchanged)
    } else if admin_count == 1 {
        Err(AdminError::LastAdmin)
    } else if self_target(user, actor) {
        Err(AdminError::SelfTarget)
    } else {
        Ok(RightsChange::Apply)
    }
}

/// Revoking instance-admin rights. Refused for the last administrator, and
/// for an admin demoting themselves.
pub fn plan_demote(user: Option<&UserModel>, admin_count: u64, actor: Option<u128>) -> (r: Result<RightsChange, AdminError>)
    ensures
        user is None ==> r matches Err(AdminError::UserNotFound),
        user matches Some(u) ==> match demote_outcome(*u, admin_count, actor) {
            Ok(c) => r == Ok::<RightsChange, AdminError>(c),
            Err(AdminError::LastAdmin) => r matches Err(AdminError::LastAdmin),
            Err(_) => r matches Err(AdminError::SelfTarget),
        },
{
    match user {
        None => Err(AdminError::UserNotFound),
        Some(u) => {
            if !u.is_instance_admin {
                return Ok(RightsChange::Unchanged);
            }
            if admin_count == 1 {
                return Err(AdminError::LastAdmin);
            }
            let is_self = match actor {
                Some(a) => a == u.id,
                None => false,
            };
            if is_self {
                Err(AdminError::SelfTarget)
            } else {
                Ok(RightsChange::Apply)
            }
        },
    }
}

/// A forced reset needs the account and its primary address, to which the
/// reset link is mailed.
pub fn plan_force_password_reset(user: Option<&UserModel>, primary_email: Option<&UserEmailModel>) -> (r: Result<(), AdminError>)
    ensures
        r is Ok <==> (user is Some && primary_email is Some),
        r is Err ==> r matches Err(AdminError::UserNotFound),
{
    match (user, primary_email) {
        (Some(_), Some(_)) => Ok(()),
        _ => Err(AdminError::UserNotFound),
    }
}

/// Replaces the password hash of an account believed compromised with a
/// hash of a secret nobody knows: the account is locked out without a
/// sentinel value in the column, and verification keeps its usual
/// behaviour and timing.
pub fn lock_out(user: &mut UserModel, unusable_hash: String)
    ensures
        final(user).password_hash == unusable_hash,
        final(user).id == old(user).id,
        final(user).username == old(user).username,
        final(user).locale == old(user).locale,
        final(user).is_instance_admin == old(user).is_instance_admin,
        final(user).suspended_at == old(user).suspended_at,
        final(user).suspended_until == old(user).suspended_until,
        final(user).suspended_reason == old(user).suspended_reason,
        final(user).suspended_by == old(user).suspended_by,
        final(user).created_at == old(user).created_at,
{
    user.password_hash = unusable_hash;
}

/// What a forced reset issues once the lockout is committed: a password
/// reset token for the account and its primary address, mailed there so
/// the user has a way back in.
pub fn forced_reset_token(user: &UserModel, primary_email: &UserEmailModel) -> (t: (u128, u128, TokenKind))
    ensures
        t == (user.id, primary_email.id, TokenKind::PasswordReset),
{
    (user.id, primary_email.id, TokenKind::PasswordReset)
}

/// The reason the sessions of an account are revoked by each admin action.
pub fn admin_revocation_reason(forced_reset: bool) -> (r: RevokedReason)
    ensures
        forced_reset ==> r == RevokedReason::AdminForcePasswordReset,
        !forced_reset ==> r == RevokedReason::AdminRevoked,
{
    if forced_reset { RevokedReason::AdminForcePasswordReset } else { RevokedReason::AdminRevoked }
}

/// The cache entry holding the suspension state of an account.
pub fn suspension_cache_key(user_id: u128) -> (k: String)
    ensures
        k@ == "user:"@ + uuid_text(user_id) + ":suspension"@,
{
    let id = uuid_string(user_id);
    let head = str_concat("user:", id.as_str());
    str_concat(head.as_str(), ":suspension")
}

/// What the admin console prints for the failures an operator can act on.
pub fn admin_error_message(e: &AdminError) -> (m: Option<&'static str>)
    ensures
        (*e is UserNotFound) ==> (m matches Some(s) && s@ == "Error: no such user."@),
        (*e is LastAdmin) ==> (m matches Some(s) && s@ == "Error: refusing to leave the instance with no administrator."@),
        (*e is SelfTarget) ==> (m matches Some(s) && s@ == "Error: refusing to target the account you are running as."@),
        !(*e is UserNotFound || *e is LastAdmin || *e is SelfTarget) ==> m is None,
{
    match e {
        AdminError::UserNotFound => Some("Error: no such user."),
        AdminError::LastAdmin => Some("Error: refusing to leave the instance with no administrator."),
        AdminError::SelfTarget => Some("Error: refusing to target the account you are running as."),
        _ => None,
    }
}

/// A suspension with an accepted deadline (none, or one in the future) bars
/// the account from the instant it is written.
pub proof fn accepted_suspension_bars_at_once(before: UserModel, after: UserModel, now: Micros,
    until: Option<Micros>, reason: Seq<char>, actor: Option<u128>)
    requires
        suspended_copy(before, after, now, until, reason, actor),
        until matches Some(t) ==> t > now,
    ensures
        is_barred(after.suspended_at, after.suspended_until, now),
{
}

/// Once a suspension is lifted, the account is barred at no instant.
pub proof fn lifted_suspension_bars_never(after: UserModel, t: Micros)
    requires
        after.suspended_at is None,
    ensures
        !is_barred(after.suspended_at, after.suspended_until, t),
{
}

/// A demotion that goes through leaves at least one administrator: the
/// count it starts from includes the target and is not one.
pub proof fn demotion_keeps_an_admin(user: UserModel, admin_count: u64, actor: Option<u128>)
    requires
        user.is_instance_admin,
        admin_count >= 1,
        demote_outcome(user, admin_count, actor) == Ok::<RightsChange, AdminError>(RightsChange::Apply),
    ensures
        admin_count - 1 >= 1,
{
}

/// An admin never demotes themselves.
pub proof fn no_self_demotion(user: UserModel, admin_count: u64)
    ensures
        demote_outcome(user, admin_count, Some(user.id)) != Ok::<RightsChange, AdminError>(RightsChange::Apply),
{
}

} // verus!
