//! Refresh-token sessions: opening, rotation with reuse detection, and
//! revocation.
//!
//! A session is a row of `refresh_tokens` holding the hash of a random
//! secret. Each refresh replaces the row: the presented one is retired with
//! the reason `rotated` and a new one is opened. A retired token that comes
//! back means the chain was copied, by an attacker or by the legitimate
//! client replaying a stale copy; every live session of the account is then
//! revoked, so that both must sign in again.
use vstd::prelude::*;
use crate::audit::reuse_record;
use crate::dto::auth::SessionContext;
use crate::entities::{new_v7_id, now_micros, Micros, RefreshTokenModel};
use crate::errors::SessionError;
use crate::text::str_eq;
use crate::token::{generate_opaque_token, token_hash};
use crate::types::{revoked_reason_round_trip, AuditAction, RevokedReason};

verus! {

/// The longest lifetime a session may be given, in seconds (ten years).
pub const MAX_SESSION_TTL_SECS: i64 = 315_360_000;

/// Microseconds in a second.
pub const MICROS_PER_SEC: i64 = 1_000_000;

/// The instant `ttl_secs` seconds after `now`, held at the largest instant
/// when it would not fit.
pub open spec fn expiry(now: Micros, ttl_secs: i64) -> int {
    if now + ttl_secs * MICROS_PER_SEC > i64::MAX {
        i64::MAX as int
    } else {
        now + ttl_secs * MICROS_PER_SEC
    }
}

/// The instant a session opened at `now` expires.
pub fn expiry_after(now: Micros, ttl_secs: i64) -> (t: Micros)
    requires
        0 <= ttl_secs <= MAX_SESSION_TTL_SECS,
    ensures
        t == expiry(now, ttl_secs),
{
    let span = ttl_secs * MICROS_PER_SEC;
    if now > i64::MAX - span {
        i64::MAX
    } else {
        now + span
    }
}

/// A session about to be stored: its row, and the secret handed to the
/// client, which is never stored.
pub struct NewSession {
    pub row: RefreshTokenModel,
    pub secret: String,
}

/// Whether `row` is a fresh session of `user_id` for `secret`, opened at its
/// `last_used_at` with the request metadata of `ctx`.
pub open spec fn fresh_session(row: RefreshTokenModel, secret: Seq<char>, user_id: u128, ctx: SessionContext, ttl_secs: i64) -> bool {
    &&& row.user_id == user_id
    &&& row.token_hash@ == token_hash(secret)
    &&& row.revoked_at is None
    &&& row.revoked_reason is None
    &&& row.user_agent == ctx.user_agent
    &&& row.ip_address == ctx.ip_address
    &&& row.last_used_at matches Some(opened) && row.expires_at == expiry(opened, ttl_secs)
}

/// Opens a session: a new random secret, a new time-ordered id, and an
/// expiry `ttl_secs` from now.
pub fn new_session(user_id: u128, ctx: SessionContext, ttl_secs: i64) -> (s: NewSession)
    requires
        0 <= ttl_secs <= MAX_SESSION_TTL_SECS,
    ensures
        fresh_session(s.row, s.secret@, user_id, ctx, ttl_secs),
        s.secret@.len() == 43,
{
    let token = generate_opaque_token();
    let id = new_v7_id();
    let now = now_micros();
    let expires_at = expiry_after(now, ttl_secs);
    let row = RefreshTokenModel {
        id,
        user_id,
        token_hash: token.hash,
        expires_at,
        revoked_at: None,
        revoked_reason: None,
        user_agent: ctx.user_agent,
        ip_address: ctx.ip_address,
        last_used_at: Some(now),
    };
    NewSession { row, secret: token.secret }
}

/// What a refresh does with the row found for the presented secret.
#[derive(Debug, Clone, Copy, PartialEq, Eq, Structural)]
pub enum RotationPlan {
    /// Refuse the refresh.
    Refuse(SessionError),
    /// A rotated token came back: revoke every live session of `user_id`
    /// with the reason `reuse_detected`, record it, and refuse with
    /// [`SessionError::Reused`].
    RevokeChain { user_id: u128, presented_id: u128 },
    /// Open a new session for `user_id` and retire the row `retired_id` as
    /// `rotated`, in one transaction.
    Rotate { user_id: u128, retired_id: u128 },
}

/// Whether a revocation reason reads `reason`.
pub open spec fn revoked_for(row: RefreshTokenModel, reason: RevokedReason) -> bool {
    row.revoked_reason matches Some(r) && r@ == reason.text()
}

/// The plan owed for the row found, at instant `now`.
pub open spec fn rotation_plan(row: Option<RefreshTokenModel>, now: Micros) -> RotationPlan {
    match row {
        None => RotationPlan::Refuse(SessionError::NotFound),
        Some(t) => if t.revoked_at is Some {
            if revoked_for(t, RevokedReason::Rotated) {
                RotationPlan::RevokeChain { user_id: t.user_id, presented_id: t.id }
            } else {
                RotationPlan::Refuse(SessionError::NotFound)
            }
        } else if t.expires_at < now {
            RotationPlan::Refuse(SessionError::Expired)
        } else {
            RotationPlan::Rotate { user_id: t.user_id, retired_id: t.id }
        },
    }
}

/// Decides a refresh from the row whose hash matches the presented secret.
/// A token revoked for any other reason than rotation is answered as if it
/// did not exist.
pub fn plan_rotation(row: Option<&RefreshTokenModel>, now: Micros) -> (p: RotationPlan)
    ensures
        p == rotation_plan(match row { Some(t) => Some(*t), None => None }, now),
{
    match row {
        None => RotationPlan::Refuse(SessionError::NotFound),
        Some(t) => {
            if t.revoked_at.is_some() {
                let rotated = match &t.revoked_reason {
                    Some(r) => str_eq(r.as_str(), RevokedReason::Rotated.as_str()),
                    None => false,
                };
                if rotated {
                    RotationPlan::RevokeChain { user_id: t.user_id, presented_id: t.id }
                } else {
                    RotationPlan::Refuse(SessionError::NotFound)
                }
            } else if t.expires_at < now {
                RotationPlan::Refuse(SessionError::Expired)
            } else {
                RotationPlan::Rotate { user_id: t.user_id, retired_id: t.id }
            }
        },
    }
}

/// The error a refresh answers under `plan`: the refusal itself, `Reused`
/// for a replay, none for a rotation.
pub open spec fn refusal_of(plan: RotationPlan) -> Option<SessionError> {
    match plan {
        RotationPlan::Refuse(e) => Some(e),
        RotationPlan::RevokeChain { .. } => Some(SessionError::Reused),
        RotationPlan::Rotate { .. } => None,
    }
}

/// The error a refresh answers once its plan is carried out.
pub fn plan_refusal(plan: RotationPlan) -> (e: Option<SessionError>)
    ensures
        e == refusal_of(plan),
{
    match plan {
        RotationPlan::Refuse(e) => Some(e),
        RotationPlan::RevokeChain { .. } => Some(SessionError::Reused),
        RotationPlan::Rotate { .. } => None,
    }
}

/// The columns a revocation writes: the instant and the reason.
pub struct Revocation {
    pub revoked_at: Micros,
    pub revoked_reason: String,
}

/// Marks a row revoked at `now` for `reason`.
pub fn revoke_row(row: &mut RefreshTokenModel, reason: RevokedReason, now: Micros)
    ensures
        final(row).revoked_at == Some(now),
        revoked_for(*final(row), reason),
        final(row).id == old(row).id,
        final(row).user_id == old(row).user_id,
        final(row).token_hash == old(row).token_hash,
        final(row).expires_at == old(row).expires_at,
        final(row).user_agent == old(row).user_agent,
        final(row).ip_address == old(row).ip_address,
        final(row).last_used_at == old(row).last_used_at,
{
    row.revoked_at = Some(now);
    row.revoked_reason = Some(String::from_str(reason.as_str()));
}

/// Whether a sweep over the sessions of `user_id` revokes `row`: one of the
/// account's sessions, not revoked yet, and not the one spared.
pub open spec fn swept(row: RefreshTokenModel, user_id: u128, except: Option<u128>) -> bool {
    row.user_id == user_id && row.revoked_at is None && except != Some(row.id)
}

/// How many of `rows` a sweep revokes.
pub open spec fn count_swept(rows: Seq<RefreshTokenModel>, user_id: u128, except: Option<u128>) -> nat
    decreases rows.len(),
{
    if rows.len() == 0 {
        0
    } else {
        count_swept(rows.drop_last(), user_id, except) + if swept(rows.last(), user_id, except) { 1nat } else { 0nat }
    }
}

/// Whether `after` is `before` revoked at `now` for `reason`, every other
/// column kept.
pub open spec fn revoked_copy(before: RefreshTokenModel, after: RefreshTokenModel, reason: RevokedReason, now: Micros) -> bool {
    &&& after.revoked_at == Some(now)
    &&& revoked_for(after, reason)
    &&& after.id == before.id
    &&& after.user_id == before.user_id
    &&& after.token_hash == before.token_hash
    &&& after.expires_at == before.expires_at
    &&& after.user_agent == before.user_agent
    &&& after.ip_address == before.ip_address
    &&& after.last_used_at == before.last_used_at
}

/// Revokes every session of `user_id` not revoked yet, at `now` for
/// `reason`, except the one whose id is `except`; returns how many were
/// revoked. Used on a detected replay, on password reset and change, on
/// suspension and on forced resets.
pub fn revoke_all(rows: &mut Vec<RefreshTokenModel>, user_id: u128, reason: RevokedReason, except: Option<u128>, now: Micros)
    -> (n: u64)
    requires
        old(rows)@.len() <= u64::MAX,
    ensures
        final(rows)@.len() == old(rows)@.len(),
        forall|i: int| 0 <= i < old(rows)@.len() ==> (#[trigger] swept(old(rows)@[i], user_id, except) ==>
            revoked_copy(old(rows)@[i], final(rows)@[i], reason, now)),
        forall|i: int| 0 <= i < old(rows)@.len() ==> (!swept(old(rows)@[i], user_id, except) ==>
            #[trigger] final(rows)@[i] == old(rows)@[i]),
        n == count_swept(old(rows)@, user_id, except),
{
    let ghost start = rows@;
    let mut n: u64 = 0;
    let mut i: usize = 0;
    while i < rows.len()
        invariant
            start.len() <= u64::MAX,
            rows@.len() == start.len(),
            i <= rows@.len(),
            forall|k: int| 0 <= k < i ==> (#[trigger] swept(start[k], user_id, except) ==>
                revoked_copy(start[k], rows@[k], reason, now)),
            forall|k: int| 0 <= k < i ==> (!swept(start[k], user_id, except) ==> #[trigger] rows@[k] == start[k]),
            forall|k: int| i <= k < rows@.len() ==> #[trigger] rows@[k] == start[k],
            n == count_swept(start.take(i as int), user_id, except),
            n <= i,
        decreases rows@.len() - i,
    {
        assert(start.take(i + 1).drop_last() =~= start.take(i as int));
        let hit = rows[i].user_id == user_id && rows[i].revoked_at.is_none() && match except {
            Some(e) => e != rows[i].id,
            None => true,
        };
        if hit {
            revoke_row(&mut rows[i], reason, now);
            n = n + 1;
        }
        i = i + 1;
    }
    assert(start.take(start.len() as int) =~= start);
    n
}

/// The session a password change spares: the caller's own, found by the
/// secret it presented, and only if that session belongs to the account
/// and is live. Presenting another account's cookie spares nothing.
pub fn session_to_spare(presented: Option<&RefreshTokenModel>, user_id: u128) -> (spare: Option<u128>)
    ensures
        match presented {
            Some(t) => if t.user_id == user_id && t.revoked_at is None { spare == Some(t.id) } else { spare is None },
            None => spare is None,
        },
{
    match presented {
        Some(t) => if t.user_id == user_id && t.revoked_at.is_none() { Some(t.id) } else { None },
        None => None,
    }
}

/// After a sweep that spares nothing, as on a detected replay, no session
/// of the account is left unrevoked.
pub proof fn sweep_leaves_no_live_session(before: Seq<RefreshTokenModel>, after: Seq<RefreshTokenModel>,
    user_id: u128, reason: RevokedReason, now: Micros)
    requires
        after.len() == before.len(),
        forall|i: int| 0 <= i < before.len() ==> (#[trigger] swept(before[i], user_id, None) ==>
            revoked_copy(before[i], after[i], reason, now)),
        forall|i: int| 0 <= i < before.len() ==> (!swept(before[i], user_id, None) ==> #[trigger] after[i] == before[i]),
    ensures
        forall|i: int| 0 <= i < after.len() && #[trigger] after[i].user_id == user_id ==> after[i].revoked_at is Some,
{
    assert forall|i: int| 0 <= i < after.len() && #[trigger] after[i].user_id == user_id implies after[i].revoked_at is Some by {
        if swept(before[i], user_id, None) {
        } else {
            assert(after[i] == before[i]);
        }
    }
}

/// A password change keeps only the session the caller signed in with:
/// every other session of the account is revoked, and a spared session is
/// always one of the account's own live ones.
pub proof fn password_change_spares_only_the_caller(presented: Option<RefreshTokenModel>, user_id: u128,
    spare: Option<u128>, row: RefreshTokenModel)
    requires
        match presented {
            Some(t) => if t.user_id == user_id && t.revoked_at is None { spare == Some(t.id) } else { spare is None },
            None => spare is None,
        },
        row.user_id == user_id,
        row.revoked_at is None,
        presented matches Some(t) ==> t.id != row.id,
    ensures
        swept(row, user_id, spare),
{
}

/// What a logout does with the row found for the presented secret.
#[derive(Debug, Clone, Copy, PartialEq, Eq, Structural)]
pub enum RevokePlan {
    /// No such session.
    Refuse(SessionError),
    /// Already revoked: nothing to write, and the logout succeeds.
    Nothing,
    /// Revoke the row with this id.
    Revoke(u128),
}

pub open spec fn revoke_plan_for(row: Option<RefreshTokenModel>) -> RevokePlan {
    match row {
        None => RevokePlan::Refuse(SessionError::NotFound),
        Some(t) => if t.revoked_at is Some { RevokePlan::Nothing } else { RevokePlan::Revoke(t.id) },
    }
}

/// Decides a logout. Idempotent: a revoked session stays as it is.
pub fn plan_revoke(row: Option<&RefreshTokenModel>) -> (p: RevokePlan)
    ensures
        p == revoke_plan_for(match row { Some(t) => Some(*t), None => None }),
{
    match row {
        None => RevokePlan::Refuse(SessionError::NotFound),
        Some(t) => if t.revoked_at.is_some() { RevokePlan::Nothing } else { RevokePlan::Revoke(t.id) },
    }
}

/// A freshly opened session, presented at any instant up to its expiry, is
/// rotated into a new one for the same account.
pub proof fn fresh_session_rotates(row: RefreshTokenModel, secret: Seq<char>, user_id: u128, ctx: SessionContext,
    ttl_secs: i64, now: Micros)
    requires
        fresh_session(row, secret, user_id, ctx, ttl_secs),
        now <= row.expires_at,
    ensures
        rotation_plan(Some(row), now) == (RotationPlan::Rotate { user_id, retired_id: row.id }),
{
}

/// A token retired by a rotation, presented again at any later instant, is
/// a replay: the whole chain of its account is revoked.
pub proof fn replayed_rotation_revokes_the_chain(row: RefreshTokenModel, retired: RefreshTokenModel, at: Micros, later: Micros)
    requires
        retired.revoked_at == Some(at),
        revoked_for(retired, RevokedReason::Rotated),
        retired.id == row.id,
        retired.user_id == row.user_id,
    ensures
        rotation_plan(Some(retired), later) == (RotationPlan::RevokeChain { user_id: row.user_id, presented_id: row.id }),
{
}

/// A token revoked for any reason other than rotation is refused exactly as
/// an unknown one.
pub proof fn other_revocations_look_unknown(row: RefreshTokenModel, now: Micros)
    requires
        row.revoked_at is Some,
        !revoked_for(row, RevokedReason::Rotated),
    ensures
        rotation_plan(Some(row), now) == rotation_plan(None, now),
{
}

/// Logging out twice is logging out once: once a session is revoked, a
/// second logout finds it revoked and writes nothing.
pub proof fn logout_is_idempotent(row: RefreshTokenModel, reason: RevokedReason, now: Micros, after: RefreshTokenModel)
    requires
        revoke_plan_for(Some(row)) == RevokePlan::Revoke(row.id),
        after.revoked_at == Some(now),
        revoked_for(after, reason),
        after.id == row.id,
    ensures
        revoke_plan_for(Some(after)) == RevokePlan::Nothing,
{
}

/// Only a rotation marks a token as rotated: a token revoked at logout, by
/// a password change or by an admin is never mistaken for a replayed one.
pub proof fn only_rotation_marks_rotated(row: RefreshTokenModel, reason: RevokedReason)
    requires
        revoked_for(row, reason),
        revoked_for(row, RevokedReason::Rotated),
    ensures
        reason == RevokedReason::Rotated,
{
    revoked_reason_round_trip(reason);
    revoked_reason_round_trip(RevokedReason::Rotated);
}

/// A refresh token rotates once. After a rotation has retired the session
/// `p`, presenting its token again at any instant is answered `Reused`; the
/// sweep that follows, sparing nothing, leaves no session of the account
/// unrevoked and marks every session that was still live `reuse_detected`;
/// and the audit entry recorded is a replay aimed at the account.
pub proof fn second_rotation_is_refused_as_reuse(p: RefreshTokenModel, first_at: Micros, retired: RefreshTokenModel,
    at: Micros, later: Micros, before: Seq<RefreshTokenModel>, after: Seq<RefreshTokenModel>, ctx: SessionContext,
    n: u64)
    requires
        rotation_plan(Some(p), first_at) == (RotationPlan::Rotate { user_id: p.user_id, retired_id: p.id }),
        revoked_copy(p, retired, RevokedReason::Rotated, at),
        after.len() == before.len(),
        forall|i: int| 0 <= i < before.len() ==> (#[trigger] swept(before[i], p.user_id, None) ==>
            revoked_copy(before[i], after[i], RevokedReason::ReuseDetected, later)),
        forall|i: int| 0 <= i < before.len() ==> (!swept(before[i], p.user_id, None) ==> #[trigger] after[i] == before[i]),
    ensures
        rotation_plan(Some(retired), later) == (RotationPlan::RevokeChain { user_id: p.user_id, presented_id: p.id }),
        refusal_of(rotation_plan(Some(retired), later)) == Some(SessionError::Reused),
        forall|i: int| 0 <= i < after.len() && #[trigger] after[i].user_id == p.user_id ==> after[i].revoked_at is Some,
        forall|i: int| 0 <= i < before.len() && #[trigger] swept(before[i], p.user_id, None) ==>
            revoked_for(after[i], RevokedReason::ReuseDetected),
        reuse_record(ctx, retired, n).action == AuditAction::AuthRefreshReuseDetected,
        reuse_record(ctx, retired, n).target_user_id == Some(p.user_id),
{
    replayed_rotation_revokes_the_chain(p, retired, at, later);
    sweep_leaves_no_live_session(before, after, p.user_id, RevokedReason::ReuseDetected, later);
}

} // verus!
