use pwnforge::auth::{
    admit_login, check_account_suspended_at, suspension_error, suspension_error_at, SuspensionState,
};
use pwnforge::entities::{Micros, UserModel};
use pwnforge::errors::AuthError;

const DAY: Micros = 24 * 60 * 60 * 1_000_000;

fn now() -> Micros {
    chrono::Utc::now().timestamp_micros()
}

fn state(at: Option<Micros>, until: Option<Micros>) -> SuspensionState {
    SuspensionState { suspended_at: at, suspended_until: until, suspended_reason: None }
}

#[test]
fn active_account_is_not_rejected() {
    assert!(state(None, None).as_error().is_none());
}

#[test]
fn permanent_suspension_is_rejected() {
    let at = now();
    assert!(state(Some(at), None).as_error().is_some());
}

#[test]
fn future_deadline_is_rejected() {
    let at = now();
    let until = now() + DAY;
    assert!(state(Some(at), Some(until)).as_error().is_some());
}

#[test]
fn expired_suspension_does_not_block() {
    let at = now() - 2 * DAY;
    let until = now() - DAY;
    assert!(state(Some(at), Some(until)).as_error().is_none());
}

#[test]
fn suspension_carries_deadline_and_reason() {
    let s = SuspensionState {
        suspended_at: Some(10),
        suspended_until: Some(500),
        suspended_reason: Some("spam".to_string()),
    };
    match s.as_error_at(100) {
        Some(AuthError::AccountSuspended { until, reason }) => {
            assert_eq!(until, Some(500));
            assert_eq!(reason.as_deref(), Some("spam"));
        }
        _ => panic!("expected a suspension"),
    }
}

#[test]
fn deadline_lifts_exactly_at_its_instant() {
    assert!(suspension_error_at(Some(0), Some(100), None, 99).is_some());
    assert!(suspension_error_at(Some(0), Some(100), None, 100).is_none());
    assert!(suspension_error_at(Some(0), Some(100), None, 101).is_none());
}

#[test]
fn never_suspended_ignores_a_stray_deadline() {
    assert!(suspension_error_at(None, Some(1_000), None, 0).is_none());
    assert!(suspension_error(None, Some(i64::MAX), None).is_none());
}

fn user(at: Option<Micros>, until: Option<Micros>) -> UserModel {
    UserModel {
        id: 7,
        username: "alice".to_string(),
        password_hash: "$argon2id$".to_string(),
        locale: "en".to_string(),
        is_instance_admin: false,
        suspended_at: at,
        suspended_until: until,
        suspended_reason: None,
        suspended_by: None,
        created_at: 0,
    }
}

#[test]
fn login_admission_order() {
    let active = user(None, None);
    let barred = user(Some(0), None);
    assert!(matches!(admit_login(None, true, 5), Err(AuthError::InvalidCredentials)));
    assert!(matches!(admit_login(Some(&active), false, 5), Err(AuthError::InvalidCredentials)));
    assert!(matches!(admit_login(Some(&barred), false, 5), Err(AuthError::InvalidCredentials)));
    assert!(matches!(admit_login(Some(&barred), true, 5), Err(AuthError::AccountSuspended { .. })));
    assert!(admit_login(Some(&active), true, 5).is_ok());
    assert!(check_account_suspended_at(&barred, 5).is_some());
}

#[test]
fn missing_account_row_is_unauthorized() {
    use_row();
}

fn use_row() {
    assert!(matches!(
        pwnforge::auth::suspension_from_row(None),
        Err(pwnforge::error::AppError::Unauthorized)
    ));
    let s = pwnforge::auth::suspension_from_row(Some((Some(1), Some(2), Some("r".into())))).ok().unwrap();
    assert_eq!((s.suspended_at, s.suspended_until, s.suspended_reason.as_deref()), (Some(1), Some(2), Some("r")));
}
