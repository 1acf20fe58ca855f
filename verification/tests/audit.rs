use pwnforge::admin::{admin_revocation_reason, forced_reset_token, lock_out};
use pwnforge::audit::{
    demote_entry, promote_entry, reuse_entry, sessions_entry, suspend_entry, unsuspend_entry, AuditMeta,
};
use pwnforge::client_ip::AuditContext;
use pwnforge::dto::auth::SessionContext;
use pwnforge::entities::{IpAddress, RefreshTokenModel, UserEmailModel, UserModel};
use pwnforge::errors::AuthError;
use pwnforge::password::{hash_password, verify_password};
use pwnforge::register::{after_best_effort_mail, new_account};
use pwnforge::types::{AuditAction, RevokedReason, TokenKind};

fn ctx() -> AuditContext {
    AuditContext { actor_id: Some(1), ip_address: Some(IpAddress::V4(9)), user_agent: Some("cli".into()) }
}

fn user() -> UserModel {
    UserModel {
        id: 5,
        username: "eve".into(),
        password_hash: "h".into(),
        locale: "en".into(),
        is_instance_admin: true,
        suspended_at: Some(3),
        suspended_until: Some(4),
        suspended_reason: Some("old".into()),
        suspended_by: Some(2),
        created_at: 0,
    }
}

#[test]
fn suspension_entry_records_the_previous_state() {
    let e = suspend_entry(&ctx(), &user(), Some(99), "abuse", 3);
    assert_eq!((e.action, e.actor_id, e.target_user_id), (AuditAction::UserSuspend, Some(1), Some(5)));
    assert_eq!(e.reason.as_deref(), Some("abuse"));
    assert_eq!(e.user_agent.as_deref(), Some("cli"));
    match e.meta {
        AuditMeta::Suspension { previous, applied_until, sessions_revoked } => {
            assert_eq!((previous.suspended_at, previous.suspended_until), (Some(3), Some(4)));
            assert_eq!(previous.suspended_reason.as_deref(), Some("old"));
            assert_eq!((applied_until, sessions_revoked), (Some(99), 3));
        }
        _ => panic!("expected a suspension entry"),
    }
    let u = unsuspend_entry(&ctx(), &user(), None);
    assert_eq!(u.action, AuditAction::UserUnsuspend);
    assert!(u.reason.is_none());
}

#[test]
fn rights_entries_count_admins_after_the_change() {
    let p = promote_entry(&ctx(), &user(), Some("new ops"), 2);
    assert!(matches!(p.meta, AuditMeta::AdminRights { previous_is_admin: true, admin_count_after: 3 }));
    let d = demote_entry(&ctx(), &user(), None, 2);
    assert!(matches!(d.meta, AuditMeta::AdminRights { admin_count_after: 1, .. }));
    assert_eq!(d.action, AuditAction::UserDemoteAdmin);
}

#[test]
fn session_sweep_and_reuse_entries() {
    let f = sessions_entry(AuditAction::UserPasswordResetForce, &ctx(), 5, None, 4);
    assert!(matches!(f.meta, AuditMeta::SessionsRevoked { sessions_revoked: 4 }));
    let token = RefreshTokenModel {
        id: 11,
        user_id: 5,
        token_hash: "h".into(),
        expires_at: 10,
        revoked_at: Some(3),
        revoked_reason: Some("rotated".into()),
        user_agent: None,
        ip_address: None,
        last_used_at: None,
    };
    let s = SessionContext { user_agent: None, ip_address: Some(IpAddress::V6(1)) };
    let r = reuse_entry(&s, &token, 2);
    assert_eq!((r.action, r.actor_id, r.target_user_id), (AuditAction::AuthRefreshReuseDetected, None, Some(5)));
    match r.meta {
        AuditMeta::RefreshReuse { presented_token_id, revoked_reason, sessions_revoked } => {
            assert_eq!((presented_token_id, revoked_reason.as_deref(), sessions_revoked), (11, Some("rotated"), 2));
        }
        _ => panic!("expected a reuse entry"),
    }
}

#[test]
fn new_account_rows() {
    let hash = hash_password("correct horse 1".into()).unwrap();
    let r = new_account("  bob ", " Bob@EXAMPLE.com", hash.clone(), "fr".into());
    assert_eq!(r.user.username, "bob");
    assert_eq!(r.email.email, "Bob@example.com");
    assert!(r.email.is_primary && r.email.verified_at.is_none());
    assert_eq!(r.email.user_id, r.user.id);
    assert_eq!(r.user.locale, "fr");
    assert!(!r.user.is_instance_admin && r.user.suspended_at.is_none());
    assert!(verify_password("correct horse 1".into(), r.user.password_hash.clone()).unwrap());
}

#[test]
fn mail_failure_never_undoes_the_change() {
    let kept = after_best_effort_mail(7u8, Err::<(), AuthError>(AuthError::Db));
    assert_eq!(kept, 7);
    let kept: Result<(), ()> = after_best_effort_mail(Ok(()), Err::<(), &str>("smtp down"));
    assert!(kept.is_ok());
}

#[test]
fn forced_reset_pieces() {
    let mut u = user();
    lock_out(&mut u, "$argon2id$locked".into());
    assert_eq!(u.password_hash, "$argon2id$locked");
    assert_eq!(u.username, "eve");
    let e = UserEmailModel { id: 6, user_id: 5, email: "e@x.y".into(), is_primary: true, verified_at: None };
    assert_eq!(forced_reset_token(&u, &e), (5, 6, TokenKind::PasswordReset));
    assert_eq!(admin_revocation_reason(true), RevokedReason::AdminForcePasswordReset);
    assert_eq!(admin_revocation_reason(false), RevokedReason::AdminRevoked);
}
