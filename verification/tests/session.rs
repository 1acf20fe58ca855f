use pwnforge::cleanup::{instant_before, purge_auth_token, purge_refresh_row, AUTH_TOKEN_RETENTION_SECS, BATCH_SIZE};
use pwnforge::dto::auth::SessionContext;
use pwnforge::entities::{IpAddress, RefreshTokenModel};
use pwnforge::errors::SessionError;
use pwnforge::session::{
    expiry_after, new_session, plan_refusal, plan_revoke, plan_rotation, revoke_all, revoke_row, session_to_spare, RevokePlan,
    RotationPlan, MICROS_PER_SEC,
};
use pwnforge::token::hash_opaque_token;
use pwnforge::types::RevokedReason;

fn row(revoked: Option<(i64, &str)>, expires_at: i64) -> RefreshTokenModel {
    RefreshTokenModel {
        id: 10,
        user_id: 20,
        token_hash: "h".into(),
        expires_at,
        revoked_at: revoked.map(|r| r.0),
        revoked_reason: revoked.map(|r| r.1.to_string()),
        user_agent: None,
        ip_address: None,
        last_used_at: None,
    }
}

#[test]
fn expiry_is_ttl_seconds_later() {
    assert_eq!(expiry_after(1_000, 2), 1_000 + 2 * MICROS_PER_SEC);
    assert_eq!(expiry_after(i64::MAX - 5, 1), i64::MAX);
}

#[test]
fn new_session_stores_only_the_hash() {
    let ctx = SessionContext { user_agent: Some("ua".into()), ip_address: Some(IpAddress::V4(7)) };
    let s = new_session(42, ctx, 3600);
    assert_eq!(s.row.user_id, 42);
    assert_eq!(s.row.token_hash, hash_opaque_token(&s.secret));
    assert_ne!(s.row.token_hash, s.secret);
    assert!(s.row.revoked_at.is_none());
    let opened = s.row.last_used_at.unwrap();
    assert_eq!(s.row.expires_at, opened + 3600 * MICROS_PER_SEC);
    assert_eq!(s.row.user_agent.as_deref(), Some("ua"));
    assert_eq!(s.row.ip_address, Some(IpAddress::V4(7)));
    assert_eq!(s.secret.len(), 43);
    let other = new_session(42, SessionContext { user_agent: None, ip_address: None }, 3600);
    assert_ne!(other.row.id, s.row.id);
}

#[test]
fn rotation_decisions() {
    assert_eq!(plan_rotation(None, 5), RotationPlan::Refuse(SessionError::NotFound));
    assert_eq!(plan_rotation(Some(&row(None, 100)), 50), RotationPlan::Rotate { user_id: 20, retired_id: 10 });
    assert_eq!(plan_rotation(Some(&row(None, 100)), 100), RotationPlan::Rotate { user_id: 20, retired_id: 10 });
    assert_eq!(plan_rotation(Some(&row(None, 100)), 101), RotationPlan::Refuse(SessionError::Expired));
}

#[test]
fn replayed_rotated_token_revokes_the_chain() {
    let mut r = row(None, 100);
    revoke_row(&mut r, RevokedReason::Rotated, 60);
    assert_eq!(r.revoked_reason.as_deref(), Some("rotated"));
    assert_eq!(plan_rotation(Some(&r), 70), RotationPlan::RevokeChain { user_id: 20, presented_id: 10 });
    // Even once expired: the replay itself is what matters.
    assert_eq!(plan_rotation(Some(&r), 1_000), RotationPlan::RevokeChain { user_id: 20, presented_id: 10 });
}

#[test]
fn tokens_revoked_otherwise_look_unknown() {
    let r = row(Some((60, "user_logout")), 100);
    assert_eq!(plan_rotation(Some(&r), 70), RotationPlan::Refuse(SessionError::NotFound));
}

#[test]
fn logout_is_idempotent() {
    assert_eq!(plan_revoke(None), RevokePlan::Refuse(SessionError::NotFound));
    let mut r = row(None, 100);
    assert_eq!(plan_revoke(Some(&r)), RevokePlan::Revoke(10));
    revoke_row(&mut r, RevokedReason::UserLogout, 5);
    assert_eq!(plan_revoke(Some(&r)), RevokePlan::Nothing);
}

#[test]
fn cleanup_keeps_revoked_tokens_for_a_session_lifetime() {
    let now = 1_000_000_000;
    let ttl = 100;
    let recent = row(Some((now - 50 * MICROS_PER_SEC, "rotated")), now + 1);
    assert!(!purge_refresh_row(&recent, now, ttl));
    // Expired already, but revoked recently: kept, so a replay is still seen.
    let recent_expired = row(Some((now - 50 * MICROS_PER_SEC, "rotated")), now - 10 * MICROS_PER_SEC);
    assert!(!purge_refresh_row(&recent_expired, now, ttl));
    let old = row(Some((now - 101 * MICROS_PER_SEC, "rotated")), now + 1);
    assert!(purge_refresh_row(&old, now, ttl));
    let expired = row(None, now - 1);
    assert!(purge_refresh_row(&expired, now, ttl));
    let live = row(None, now + 1);
    assert!(!purge_refresh_row(&live, now, ttl));
}

#[test]
fn cleanup_of_single_use_tokens() {
    let now = 10 * 24 * 3600 * MICROS_PER_SEC;
    let cutoff = instant_before(now, AUTH_TOKEN_RETENTION_SECS);
    assert_eq!(cutoff, 3 * 24 * 3600 * MICROS_PER_SEC);
    assert!(purge_auth_token(cutoff - 1, now));
    assert!(!purge_auth_token(cutoff, now));
    assert_eq!(BATCH_SIZE, 1000);
    assert_eq!(instant_before(i64::MIN + 3, 1), i64::MIN);
}

fn session(id: u128, user_id: u128, revoked: bool) -> RefreshTokenModel {
    let mut r = row(None, 1_000);
    r.id = id;
    r.user_id = user_id;
    if revoked {
        r.revoked_at = Some(1);
        r.revoked_reason = Some("user_logout".into());
    }
    r
}

#[test]
fn revoke_all_sweeps_the_live_sessions_of_one_account() {
    let mut rows = vec![session(1, 7, false), session(2, 7, true), session(3, 8, false), session(4, 7, false)];
    let n = revoke_all(&mut rows, 7, RevokedReason::ReuseDetected, None, 50);
    assert_eq!(n, 2);
    assert_eq!((rows[0].revoked_at, rows[0].revoked_reason.as_deref()), (Some(50), Some("reuse_detected")));
    assert_eq!((rows[1].revoked_at, rows[1].revoked_reason.as_deref()), (Some(1), Some("user_logout")));
    assert_eq!(rows[2].revoked_at, None);
    assert_eq!(rows[3].revoked_reason.as_deref(), Some("reuse_detected"));
}

#[test]
fn password_change_spares_only_the_callers_own_session() {
    let mine = session(1, 7, false);
    let theirs = session(9, 8, false);
    assert_eq!(session_to_spare(Some(&mine), 7), Some(1));
    assert_eq!(session_to_spare(Some(&theirs), 7), None);
    assert_eq!(session_to_spare(None, 7), None);
    let mut rows = vec![session(1, 7, false), session(4, 7, false)];
    let n = revoke_all(&mut rows, 7, RevokedReason::PasswordChange, session_to_spare(Some(&mine), 7), 60);
    assert_eq!(n, 1);
    assert!(rows[0].revoked_at.is_none());
    assert_eq!(rows[1].revoked_reason.as_deref(), Some("password_change"));
}

#[test]
fn a_second_rotation_of_one_token_is_a_replay() {
    let ctx = SessionContext { user_agent: Some("ua".into()), ip_address: Some(IpAddress::V4(7)) };
    let mut first = session(1, 20, false);
    let plan = plan_rotation(Some(&first), 0);
    assert_eq!(plan, RotationPlan::Rotate { user_id: 20, retired_id: 1 });
    assert_eq!(plan_refusal(plan), None);
    revoke_row(&mut first, RevokedReason::Rotated, 5);
    let again = plan_rotation(Some(&first), 9);
    assert_eq!(again, RotationPlan::RevokeChain { user_id: 20, presented_id: 1 });
    assert_eq!(plan_refusal(again), Some(SessionError::Reused));
    let mut table = vec![first, session(2, 20, false), session(3, 21, false)];
    assert_eq!(revoke_all(&mut table, 20, RevokedReason::ReuseDetected, None, 9), 1);
    assert!(table.iter().filter(|r| r.user_id == 20).all(|r| r.revoked_at.is_some()));
    assert_eq!(table[1].revoked_reason.as_deref(), Some("reuse_detected"));
    assert_eq!(table[0].revoked_reason.as_deref(), Some("rotated"));
    assert!(table[2].revoked_at.is_none());
    let e = pwnforge::audit::reuse_entry(&ctx, &table[0], 1);
    assert_eq!(e.action.as_str(), "auth.refresh_reuse_detected");
    assert_eq!(e.target_user_id, Some(20));
    assert_eq!(plan_refusal(RotationPlan::Refuse(SessionError::Expired)), Some(SessionError::Expired));
}
