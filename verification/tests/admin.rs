use pwnforge::admin::{
    admin_error_message, apply_suspension, clear_suspension, plan_demote, plan_force_password_reset, plan_promote,
    plan_suspend, plan_unsuspend, suspension_cache_key, suspension_deadline_ok, RightsChange,
};
use pwnforge::auth::check_account_suspended_at;
use pwnforge::entities::{UserEmailModel, UserModel};
use pwnforge::errors::AdminError;

fn user(id: u128, admin: bool) -> UserModel {
    UserModel {
        id,
        username: "u".into(),
        password_hash: "h".into(),
        locale: "en".into(),
        is_instance_admin: admin,
        suspended_at: None,
        suspended_until: None,
        suspended_reason: None,
        suspended_by: None,
        created_at: 0,
    }
}

#[test]
fn suspension_guards() {
    assert!(matches!(plan_suspend(None, Some(1)), Err(AdminError::UserNotFound)));
    assert!(matches!(plan_suspend(Some(&user(1, true)), Some(1)), Err(AdminError::SelfTarget)));
    assert!(plan_suspend(Some(&user(2, false)), Some(1)).is_ok());
    assert!(plan_suspend(Some(&user(2, false)), None).is_ok());
}

#[test]
fn suspension_applies_at_once_and_lifts_entirely() {
    let mut u = user(2, false);
    apply_suspension(&mut u, 100, None, "abuse", Some(1));
    assert_eq!((u.suspended_at, u.suspended_until, u.suspended_by), (Some(100), None, Some(1)));
    assert_eq!(u.suspended_reason.as_deref(), Some("abuse"));
    assert!(check_account_suspended_at(&u, 100).is_some());
    clear_suspension(&mut u);
    assert!(u.suspended_at.is_none() && u.suspended_reason.is_none() && u.suspended_by.is_none());
    assert!(check_account_suspended_at(&u, 100).is_none());
    assert!(plan_unsuspend(Some(&u)).is_ok());
    assert!(matches!(plan_unsuspend(None), Err(AdminError::UserNotFound)));
}

#[test]
fn deadline_must_lie_ahead() {
    assert!(suspension_deadline_ok(None, 10));
    assert!(suspension_deadline_ok(Some(11), 10));
    assert!(!suspension_deadline_ok(Some(10), 10));
}

#[test]
fn promotion_is_idempotent() {
    assert_eq!(plan_promote(Some(&user(2, false))).ok(), Some(RightsChange::Apply));
    assert_eq!(plan_promote(Some(&user(2, true))).ok(), Some(RightsChange::Unchanged));
    assert!(matches!(plan_promote(None), Err(AdminError::UserNotFound)));
}

#[test]
fn demotion_guards() {
    assert_eq!(plan_demote(Some(&user(2, false)), 1, Some(1)).ok(), Some(RightsChange::Unchanged));
    assert!(matches!(plan_demote(Some(&user(2, true)), 1, Some(1)), Err(AdminError::LastAdmin)));
    assert!(matches!(plan_demote(Some(&user(1, true)), 3, Some(1)), Err(AdminError::SelfTarget)));
    assert_eq!(plan_demote(Some(&user(2, true)), 2, Some(1)).ok(), Some(RightsChange::Apply));
    assert!(matches!(plan_demote(None, 2, None), Err(AdminError::UserNotFound)));
}

#[test]
fn forced_reset_needs_a_primary_address() {
    let e = UserEmailModel { id: 3, user_id: 2, email: "a@b.c".into(), is_primary: true, verified_at: None };
    assert!(plan_force_password_reset(Some(&user(2, false)), Some(&e)).is_ok());
    assert!(matches!(plan_force_password_reset(Some(&user(2, false)), None), Err(AdminError::UserNotFound)));
}

#[test]
fn cache_key_and_messages() {
    assert_eq!(
        suspension_cache_key(0x0190_0000_0000_7000_8000_0000_0000_0001),
        "user:01900000-0000-7000-8000-000000000001:suspension"
    );
    assert_eq!(admin_error_message(&AdminError::UserNotFound), Some("Error: no such user."));
    assert_eq!(
        admin_error_message(&AdminError::LastAdmin),
        Some("Error: refusing to leave the instance with no administrator.")
    );
    assert_eq!(admin_error_message(&AdminError::Db), None);
}
