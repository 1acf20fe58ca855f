use pwnforge::account::{
    check_credentials, current_user_gate, hash_to_verify, login_email_refusal, mark_verified, next_change_step, next_reset_step,
    refresh_gate, resend_due, verification_target, PasswordQuery, PasswordStep,
};
use pwnforge::auth::{
    check_password_changed, compromise_verdict, email_domain, email_gate, login_lookup, normalize_email,
    reset_mail_due, EmailGate, LoginLookup,
};
use pwnforge::blocked_email::DomainQuery;
use pwnforge::entities::{Micros, UserEmailModel, UserModel};
use pwnforge::errors::{AuthError, BlockedEmailError};
use pwnforge::register::{
    map_unique_violation, next_register_step, registration_identity, RegisterAnswers, RegisterQuery, RegisterStep,
};

fn user(suspended_at: Option<Micros>) -> UserModel {
    UserModel {
        id: 1,
        username: "alice".into(),
        password_hash: "stored".into(),
        locale: "fr".into(),
        is_instance_admin: false,
        suspended_at,
        suspended_until: None,
        suspended_reason: None,
        suspended_by: None,
        created_at: 0,
    }
}

fn email(verified_at: Option<Micros>) -> UserEmailModel {
    UserEmailModel { id: 2, user_id: 1, email: "alice@example.com".into(), is_primary: true, verified_at }
}

#[test]
fn only_the_domain_is_lowercased() {
    assert_eq!(normalize_email("  Alice.Smith@EXAMPLE.Com "), "Alice.Smith@example.com");
    assert_eq!(normalize_email("a@b@Example.ORG"), "a@b@example.org");
    assert_eq!(normalize_email("no-at-sign "), "no-at-sign");
}

#[test]
fn domain_is_what_follows_the_last_at() {
    assert_eq!(email_domain("x@y@mail.example").as_deref(), Some("mail.example"));
    assert_eq!(email_domain("nobody"), None);
    assert_eq!(email_domain("trailing@").as_deref(), Some(""));
}

#[test]
fn login_identifier_kinds() {
    assert!(matches!(login_lookup(" Bob@Example.com "), LoginLookup::ByEmail(e) if e == "Bob@example.com"));
    assert!(matches!(login_lookup("  bob "), LoginLookup::ByUsername(u) if u == "bob"));
}

#[test]
fn unknown_accounts_are_checked_against_the_dummy_hash() {
    let u = user(None);
    assert_eq!(hash_to_verify(Some(&u), "dummy"), "stored");
    assert_eq!(hash_to_verify(None, "dummy"), "dummy");
}

#[test]
fn login_needs_a_verified_address() {
    assert!(matches!(email_gate(None), EmailGate::Missing));
    assert!(matches!(email_gate(Some(&email(None))), EmailGate::Unverified));
    assert!(matches!(email_gate(Some(&email(Some(3)))), EmailGate::Open));
    assert!(login_email_refusal(EmailGate::Open, "t".into()).is_ok());
    assert!(matches!(login_email_refusal(EmailGate::Missing, "t".into()), Err(AuthError::InvalidCredentials)));
    assert!(matches!(
        login_email_refusal(EmailGate::Unverified, "t".into()),
        Err(AuthError::EmailNotVerified { resend_token }) if resend_token == "t"
    ));
}

#[test]
fn breach_check_fails_open() {
    assert!(compromise_verdict(false, Some(true)).is_ok());
    assert!(compromise_verdict(true, None).is_ok());
    assert!(compromise_verdict(true, Some(false)).is_ok());
    assert!(matches!(compromise_verdict(true, Some(true)), Err(AuthError::PasswordCompromised)));
}

#[test]
fn password_change_must_change_it() {
    assert!(matches!(check_password_changed("same", "same"), Err(AuthError::PasswordUnchanged)));
    assert!(check_password_changed("old", "new").is_ok());
}

#[test]
fn reset_mail_goes_only_to_verified_unbarred_accounts() {
    let active = user(None);
    let barred = user(Some(0));
    assert!(reset_mail_due(Some((&active, &email(Some(1)))), 10));
    assert!(!reset_mail_due(Some((&active, &email(None))), 10));
    assert!(!reset_mail_due(Some((&barred, &email(Some(1)))), 10));
    assert!(!reset_mail_due(None, 10));
}

fn answers() -> RegisterAnswers {
    RegisterAnswers {
        public_signup: None,
        reserved: None,
        domain: Vec::new(),
        username_taken: None,
        email_taken: None,
        breached: None,
    }
}

/// Drives a registration against fixed facts; returns the lookups asked and
/// the final step.
fn run_register(
    signup: bool, reserved: bool, domain_counts: &[u64], user_taken: bool, email_taken: bool,
    breached: Option<bool>, email: &str,
) -> (Vec<RegisterQuery>, RegisterStep) {
    let mut a = answers();
    let mut asked = Vec::new();
    loop {
        match next_register_step(true, true, email, &a) {
            RegisterStep::Ask(q) => {
                asked.push(q);
                match q {
                    RegisterQuery::Settings => a.public_signup = Some(signup),
                    RegisterQuery::ReservedUsername => a.reserved = Some(reserved),
                    RegisterQuery::Domain(_) => a.domain.push(domain_counts[a.domain.len()]),
                    RegisterQuery::UsernameExists => a.username_taken = Some(user_taken),
                    RegisterQuery::EmailExists => a.email_taken = Some(email_taken),
                    RegisterQuery::Breach => a.breached = Some(breached),
                }
            }
            step => return (asked, step),
        }
    }
}

#[test]
fn registration_runs_every_check_in_order() {
    let (asked, step) = run_register(true, false, &[0, 0, 0], false, false, Some(false), "a@example.com");
    assert!(matches!(step, RegisterStep::Create));
    assert_eq!(
        asked,
        vec![
            RegisterQuery::Settings,
            RegisterQuery::ReservedUsername,
            RegisterQuery::Domain(DomainQuery::ManualBlock),
            RegisterQuery::Domain(DomainQuery::Allowed),
            RegisterQuery::Domain(DomainQuery::AnyBlock),
            RegisterQuery::UsernameExists,
            RegisterQuery::EmailExists,
            RegisterQuery::Breach,
        ]
    );
}

#[test]
fn registration_stops_at_the_first_failure() {
    let (asked, step) = run_register(false, false, &[0, 0, 0], false, false, None, "a@example.com");
    assert!(matches!(step, RegisterStep::Refuse(AuthError::PublicSignupDisabled)));
    assert_eq!(asked, vec![RegisterQuery::Settings]);
    let (_, step) = run_register(true, true, &[0, 0, 0], false, false, None, "a@example.com");
    assert!(matches!(step, RegisterStep::Refuse(AuthError::UsernameReserved)));
    let (_, step) = run_register(true, false, &[0, 0, 0], false, false, None, "no-domain");
    assert!(matches!(step, RegisterStep::Refuse(AuthError::InvalidEmail)));
    let (_, step) = run_register(true, false, &[0, 0, 1], false, false, None, "a@mailinator.com");
    assert!(matches!(step, RegisterStep::Refuse(AuthError::BlockedEmail(BlockedEmailError::DomainNotAllowed))));
    let (_, step) = run_register(true, false, &[0, 0, 0], true, false, None, "a@example.com");
    assert!(matches!(step, RegisterStep::Refuse(AuthError::UsernameTaken)));
    let (_, step) = run_register(true, false, &[0, 0, 0], false, true, None, "a@example.com");
    assert!(matches!(step, RegisterStep::Refuse(AuthError::EmailTaken)));
    let (_, step) = run_register(true, false, &[0, 0, 0], false, false, Some(true), "a@example.com");
    assert!(matches!(step, RegisterStep::Refuse(AuthError::PasswordCompromised)));
}

#[test]
fn breach_service_outage_does_not_block_registration() {
    let (_, step) = run_register(true, false, &[0, 0, 0], false, false, None, "a@example.com");
    assert!(matches!(step, RegisterStep::Create));
}

#[test]
fn registration_identity_trims_and_normalizes() {
    let (u, e) = registration_identity("  bob  ", " Bob@Example.COM");
    assert_eq!(u, "bob");
    assert_eq!(e, "Bob@example.com");
}

#[test]
fn unique_violations_map_to_the_taken_field() {
    assert!(matches!(
        map_unique_violation(Some("duplicate key value violates unique constraint \"users_username_key\"")),
        AuthError::UsernameTaken
    ));
    assert!(matches!(map_unique_violation(Some("... \"user_emails_email_key\" ...")), AuthError::EmailTaken));
    assert!(matches!(map_unique_violation(Some("other_key")), AuthError::Db));
    assert!(matches!(map_unique_violation(None), AuthError::Db));
}

#[test]
fn refresh_needs_a_live_account_with_an_address() {
    let u = user(None);
    let e = email(Some(1));
    assert!(refresh_gate(Some(&u), Some(&e), 5).is_ok());
    assert!(matches!(refresh_gate(None, Some(&e), 5), Err(AuthError::InvalidRefreshToken)));
    assert!(matches!(refresh_gate(Some(&u), None, 5), Err(AuthError::InvalidRefreshToken)));
    let barred = user(Some(0));
    assert!(matches!(refresh_gate(Some(&barred), None, 5), Err(AuthError::AccountSuspended { .. })));
    assert!(current_user_gate(Some(&u), Some(&e)).is_ok());
    assert!(matches!(current_user_gate(Some(&u), None), Err(AuthError::InvalidCredentials)));
}

#[test]
fn password_change_steps() {
    assert!(matches!(next_change_step(false, "a", "b", true, None, None), PasswordStep::Refuse(AuthError::InvalidCredentials)));
    assert!(matches!(next_change_step(true, "a", "a", true, None, None), PasswordStep::Refuse(AuthError::PasswordUnchanged)));
    assert!(matches!(next_change_step(true, "a", "b", true, None, None), PasswordStep::Ask(PasswordQuery::Breach)));
    assert!(matches!(next_change_step(true, "a", "b", true, Some(Some(true)), None), PasswordStep::Refuse(AuthError::PasswordCompromised)));
    assert!(matches!(next_change_step(true, "a", "b", true, Some(None), None), PasswordStep::Ask(PasswordQuery::VerifyOld)));
    assert!(matches!(next_change_step(true, "a", "b", false, None, Some(false)), PasswordStep::Refuse(AuthError::InvalidCredentials)));
    assert!(matches!(next_change_step(true, "a", "b", false, None, Some(true)), PasswordStep::Apply));
}

#[test]
fn password_reset_steps() {
    assert!(matches!(next_reset_step(true, None, None, false, None, false), PasswordStep::Ask(PasswordQuery::Breach)));
    assert!(matches!(next_reset_step(true, Some(Some(true)), Some(1), true, Some(2), true), PasswordStep::Refuse(AuthError::PasswordCompromised)));
    assert!(matches!(next_reset_step(false, None, Some(1), true, None, false), PasswordStep::Refuse(AuthError::InvalidCredentials)));
    assert!(matches!(next_reset_step(false, None, Some(1), true, Some(2), true), PasswordStep::Apply));
}

#[test]
fn verification_is_idempotent() {
    let mut e = email(None);
    mark_verified(&mut e, 100);
    assert_eq!(e.verified_at, Some(100));
    mark_verified(&mut e, 200);
    assert_eq!(e.verified_at, Some(100));
    assert_eq!(verification_target(Some(9)).ok(), Some(9));
    assert!(matches!(verification_target(None), Err(AuthError::InvalidCredentials)));
}

#[test]
fn resend_only_for_unverified_primary() {
    assert_eq!(resend_due(Some(&email(None))).ok(), Some(true));
    assert_eq!(resend_due(Some(&email(Some(1)))).ok(), Some(false));
    assert!(matches!(resend_due(None), Err(AuthError::InvalidCredentials)));
}

#[test]
fn login_key_is_the_registered_form() {
    let (_, stored) = registration_identity("bob", "Bob@Example.COM");
    assert!(matches!(login_lookup("  Bob@example.com\t"), LoginLookup::ByEmail(e) if e == stored));
    assert_ne!(normalize_email("bob@example.com"), stored);
}

#[test]
fn unknown_account_and_wrong_password_answer_alike() {
    let dummy = pwnforge::password::dummy_hash().unwrap();
    let stored = pwnforge::password::hash_password("right horse 7".into()).unwrap();
    let with_hash = |h: &str, suspended_at: Option<Micros>| {
        let mut u = user(suspended_at);
        u.password_hash = h.to_string();
        u
    };
    let alice = with_hash(&stored, None);
    let unknown = check_credentials(None, "right horse 7".into(), &dummy, 0);
    let wrong = check_credentials(Some(&alice), "wrong horse 7".into(), &dummy, 0);
    assert!(matches!(unknown, Err(AuthError::InvalidCredentials)));
    assert!(matches!(wrong, Err(AuthError::InvalidCredentials)));
    assert!(check_credentials(Some(&alice), "right horse 7".into(), &dummy, 0).is_ok());
    let barred = with_hash(&stored, Some(1));
    assert!(matches!(
        check_credentials(Some(&barred), "right horse 7".into(), &dummy, 2),
        Err(AuthError::AccountSuspended { until: None, .. })
    ));
    let broken = with_hash("not a phc string", None);
    assert!(matches!(
        check_credentials(Some(&broken), "right horse 7".into(), &dummy, 0),
        Err(AuthError::Password(_))
    ));
}
