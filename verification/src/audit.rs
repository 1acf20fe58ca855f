//! Entries of the instance audit log written by the administrative actions
//! and by reuse detection.
//!
//! An entry is written in the same transaction as the change it records,
//! after the sessions were revoked, so that it is never lost while the
//! change holds.
use vstd::prelude::*;
use crate::client_ip::AuditContext;
use crate::dto::auth::SessionContext;
use crate::entities::{IpAddress, Micros, RefreshTokenModel, UserModel};
use crate::types::AuditAction;

verus! {

/// The suspension columns of an account as they were before a change.
pub struct SuspensionColumns {
    pub suspended_at: Option<Micros>,
    pub suspended_until: Option<Micros>,
    pub suspended_reason: Option<String>,
    pub suspended_by: Option<u128>,
}

/// What an entry records beside its action.
pub enum AuditMeta {
    Suspension { previous: SuspensionColumns, applied_until: Option<Micros>, sessions_revoked: u64 },
    Unsuspension { previous: SuspensionColumns },
    AdminRights { previous_is_admin: bool, admin_count_after: u64 },
    SessionsRevoked { sessions_revoked: u64 },
    RefreshReuse { presented_token_id: u128, revoked_reason: Option<String>, sessions_revoked: u64 },
}

/// One entry of the audit log.
pub struct AuditEntry {
    pub action: AuditAction,
    pub actor_id: Option<u128>,
    pub ip_address: Option<IpAddress>,
    pub user_agent: Option<String>,
    pub target_user_id: Option<u128>,
    pub reason: Option<String>,
    pub meta: AuditMeta,
}

fn copy_text(s: &Option<String>) -> (r: Option<String>)
    ensures
        r == *s,
{
    match s {
        Some(t) => Some(t.clone()),
        None => None,
    }
}

fn owned(s: Option<&str>) -> (r: Option<String>)
    ensures
        match s { Some(t) => r matches Some(u) && u@ == t@, None => r is None },
{
    match s {
        Some(t) => Some(String::from_str(t)),
        None => None,
    }
}

/// Whether `e` records `action` by the requester of `ctx` on `target`.
pub open spec fn entry_of(e: AuditEntry, action: AuditAction, ctx: AuditContext, target: u128) -> bool {
    &&& e.action == action
    &&& e.actor_id == ctx.actor_id
    &&& e.ip_address == ctx.ip_address
    &&& e.user_agent == ctx.user_agent
    &&& e.target_user_id == Some(target)
}

/// Whether `p` holds the suspension columns of `u`.
pub open spec fn columns_of(p: SuspensionColumns, u: UserModel) -> bool {
    p.suspended_at == u.suspended_at && p.suspended_until == u.suspended_until
        && p.suspended_reason == u.suspended_reason && p.suspended_by == u.suspended_by
}

fn columns(u: &UserModel) -> (p: SuspensionColumns)
    ensures
        columns_of(p, *u),
{
    SuspensionColumns {
        suspended_at: u.suspended_at,
        suspended_until: u.suspended_until,
        suspended_reason: copy_text(&u.suspended_reason),
        suspended_by: u.suspended_by,
    }
}

fn base(action: AuditAction, ctx: &AuditContext, target: u128, reason: Option<String>, meta: AuditMeta) -> (e: AuditEntry)
    ensures
        entry_of(e, action, *ctx, target),
        e.reason == reason,
        e.meta == meta,
{
    AuditEntry {
        action,
        actor_id: ctx.actor_id,
        ip_address: ctx.ip_address,
        user_agent: copy_text(&ctx.user_agent),
        target_user_id: Some(target),
        reason,
        meta,
    }
}

/// The entry of a suspension: the columns before, the deadline applied and
/// how many sessions were revoked.
pub fn suspend_entry(ctx: &AuditContext, before: &UserModel, until: Option<Micros>, reason: &str, sessions_revoked: u64)
    -> (e: AuditEntry)
    ensures
        entry_of(e, AuditAction::UserSuspend, *ctx, before.id),
        e.reason matches Some(r) && r@ == reason@,
        e.meta matches AuditMeta::Suspension { previous, applied_until, sessions_revoked: n }
            && columns_of(previous, *before) && applied_until == until && n == sessions_revoked,
{
    let meta = AuditMeta::Suspension { previous: columns(before), applied_until: until, sessions_revoked };
    base(AuditAction::UserSuspend, ctx, before.id, Some(String::from_str(reason)), meta)
}

/// The entry of a lifted suspension, with the columns before.
pub fn unsuspend_entry(ctx: &AuditContext, before: &UserModel, reason: Option<&str>) -> (e: AuditEntry)
    ensures
        entry_of(e, AuditAction::UserUnsuspend, *ctx, before.id),
        match reason { Some(t) => e.reason matches Some(r) && r@ == t@, None => e.reason is None },
        e.meta matches AuditMeta::Unsuspension { previous } && columns_of(previous, *before),
{
    let meta = AuditMeta::Unsuspension { previous: columns(before) };
    base(AuditAction::UserUnsuspend, ctx, before.id, owned(reason), meta)
}

/// The entry of a promotion; `admin_count` is the number of admins before
/// it.
pub fn promote_entry(ctx: &AuditContext, before: &UserModel, reason: Option<&str>, admin_count: u64) -> (e: AuditEntry)
    requires
        admin_count < u64::MAX,
    ensures
        entry_of(e, AuditAction::UserPromoteAdmin, *ctx, before.id),
        match reason { Some(t) => e.reason matches Some(r) && r@ == t@, None => e.reason is None },
        e.meta matches AuditMeta::AdminRights { previous_is_admin, admin_count_after }
            && previous_is_admin == before.is_instance_admin && admin_count_after == admin_count + 1,
{
    let meta = AuditMeta::AdminRights { previous_is_admin: before.is_instance_admin, admin_count_after: admin_count + 1 };
    base(AuditAction::UserPromoteAdmin, ctx, before.id, owned(reason), meta)
}

/// The entry of a demotion; `admin_count` is the number of admins before
/// it.
pub fn demote_entry(ctx: &AuditContext, before: &UserModel, reason: Option<&str>, admin_count: u64) -> (e: AuditEntry)
    requires
        admin_count >= 1,
    ensures
        entry_of(e, AuditAction::UserDemoteAdmin, *ctx, before.id),
        match reason { Some(t) => e.reason matches Some(r) && r@ == t@, None => e.reason is None },
        e.meta matches AuditMeta::AdminRights { previous_is_admin, admin_count_after }
            && previous_is_admin == before.is_instance_admin && admin_count_after == admin_count - 1,
{
    let meta = AuditMeta::AdminRights { previous_is_admin: before.is_instance_admin, admin_count_after: admin_count - 1 };
    base(AuditAction::UserDemoteAdmin, ctx, before.id, owned(reason), meta)
}

/// The entry of a sweep of sessions: a forced password reset, or a plain
/// revocation of every session.
pub fn sessions_entry(action: AuditAction, ctx: &AuditContext, user_id: u128, reason: Option<&str>, sessions_revoked: u64)
    -> (e: AuditEntry)
    requires
        action == AuditAction::UserPasswordResetForce || action == AuditAction::UserSessionsRevokeAll,
    ensures
        entry_of(e, action, *ctx, user_id),
        match reason { Some(t) => e.reason matches Some(r) && r@ == t@, None => e.reason is None },
        e.meta matches AuditMeta::SessionsRevoked { sessions_revoked: n } && n == sessions_revoked,
{
    base(action, ctx, user_id, owned(reason), AuditMeta::SessionsRevoked { sessions_revoked })
}

/// The entry of a detected replay: no actor, the request's metadata, the
/// account of the token, the token presented and its recorded reason.
pub open spec fn reuse_record(ctx: SessionContext, presented: RefreshTokenModel, sessions_revoked: u64) -> AuditEntry {
    AuditEntry {
        action: AuditAction::AuthRefreshReuseDetected,
        actor_id: None,
        ip_address: ctx.ip_address,
        user_agent: ctx.user_agent,
        target_user_id: Some(presented.user_id),
        reason: None,
        meta: AuditMeta::RefreshReuse {
            presented_token_id: presented.id,
            revoked_reason: presented.revoked_reason,
            sessions_revoked,
        },
    }
}

/// Builds [`reuse_record`] for a replayed token.
pub fn reuse_entry(ctx: &SessionContext, presented: &RefreshTokenModel, sessions_revoked: u64) -> (e: AuditEntry)
    ensures
        e == reuse_record(*ctx, *presented, sessions_revoked),
{
    AuditEntry {
        action: AuditAction::AuthRefreshReuseDetected,
        actor_id: None,
        ip_address: ctx.ip_address,
        user_agent: copy_text(&ctx.user_agent),
        target_user_id: Some(presented.user_id),
        reason: None,
        meta: AuditMeta::RefreshReuse {
            presented_token_id: presented.id,
            revoked_reason: copy_text(&presented.revoked_reason),
            sessions_revoked,
        },
    }
}

} // verus!
