use pwnforge::dto::auth::{
    EmailResendRequest, EmailVerifyRequest, LoginRequest, PasswordChangeRequest, PasswordForgotRequest,
    PasswordResetRequest, RegisterRequest,
};
use pwnforge::dto::contact::{default_locale, ContactRequest};
use pwnforge::dto::legal::LegalAcceptanceInput;
use pwnforge::dto::setup::{SetupRequest, TestEmailRequest, ValidateAdminRequest};
use pwnforge::types::ContactCategory;
use pwnforge::validation::{
    check_email, check_length, check_username_grammar, password_composition, ValidationErrors,
};

fn codes(e: &ValidationErrors) -> Vec<(String, Vec<String>)> {
    e.fields
        .iter()
        .map(|f| (f.field.to_string(), f.codes.iter().map(|c| c.to_string()).collect()))
        .collect()
}

fn legal() -> LegalAcceptanceInput {
    LegalAcceptanceInput { terms_version: "1.0".into(), privacy_version: "1.0".into() }
}

#[test]
fn username_grammar_follows_the_pattern() {
    assert!(check_username_grammar("alice_01-x"));
    assert!(check_username_grammar("9lives"));
    assert!(!check_username_grammar("_alice"));
    assert!(!check_username_grammar("-alice"));
    assert!(!check_username_grammar("al ice"));
    assert!(!check_username_grammar("élodie"));
    assert!(!check_username_grammar(""));
    assert!(!check_username_grammar("alice\n"));
}

#[test]
fn password_composition_needs_a_digit_and_a_symbol() {
    assert!(password_composition("correct horse 1"));
    assert!(!password_composition("correcthorse1"));
    assert!(!password_composition("correct horse"));
    // `é` is a letter, not a symbol.
    assert!(!password_composition("élodie1234567"));
    // A digit outside ASCII does not count.
    assert!(!password_composition("abc ٣٣٣"));
}

#[test]
fn lengths_count_characters() {
    assert!(check_length("ééé", Some(3), Some(3)));
    assert!(!check_length("ab", Some(3), None));
    assert!(!check_length("abcd", None, Some(3)));
    assert!(check_length("", None, None));
}

#[test]
fn email_check_uses_the_html5_rules() {
    assert!(check_email("alice@example.com"));
    assert!(!check_email("alice"));
    assert!(!check_email("alice@"));
}

#[test]
fn valid_registration_passes() {
    let r = RegisterRequest {
        email: "alice@example.com".into(),
        username: "alice".into(),
        password: "correct horse 1".into(),
        legal: legal(),
        turnstile_token: "t".into(),
    };
    assert!(r.validate().is_ok());
}

#[test]
fn registration_reports_each_failed_field_in_order() {
    let r = RegisterRequest {
        email: "nope".into(),
        username: "_a".into(),
        password: "short".into(),
        legal: LegalAcceptanceInput { terms_version: "".into(), privacy_version: "1.0".into() },
        turnstile_token: "t".into(),
    };
    let e = r.validate().unwrap_err();
    assert_eq!(
        codes(&e),
        vec![
            ("email".to_string(), vec!["email".to_string()]),
            ("username".to_string(), vec!["length".to_string(), "regex".to_string()]),
            ("password".to_string(), vec!["length".to_string(), "password_composition".to_string()]),
        ]
    );
    assert_eq!(e.nested.len(), 1);
    assert_eq!(e.nested[0].field, "legal");
    assert_eq!(e.nested[0].fields[0].field, "terms_version");
    assert_eq!(e.nested[0].fields[0].codes, vec!["length"]);
}

#[test]
fn login_does_not_apply_the_composition_rule() {
    let ok = LoginRequest { username_or_email: "alice".into(), password: "aaaaaaaaaaaa".into(), turnstile_token: "".into() };
    assert!(ok.validate().is_ok());
    let short = LoginRequest { username_or_email: "alice".into(), password: "a".into(), turnstile_token: "".into() };
    let e = short.validate().unwrap_err();
    assert_eq!(codes(&e), vec![("password".to_string(), vec!["length".to_string()])]);
}

#[test]
fn password_flows_apply_the_composition_rule() {
    let reset = PasswordResetRequest { token: "abc".into(), new_password: "aaaaaaaaaaaa".into() };
    assert_eq!(
        codes(&reset.validate().unwrap_err()),
        vec![("new_password".to_string(), vec!["password_composition".to_string()])]
    );
    let change = PasswordChangeRequest { current_password: "old".into(), new_password: "new password 1".into() };
    assert!(change.validate().is_ok());
    let forgot = PasswordForgotRequest { email: "x".into(), turnstile_token: "".into() };
    assert_eq!(codes(&forgot.validate().unwrap_err()), vec![("email".to_string(), vec!["email".to_string()])]);
}

#[test]
fn tokens_must_be_present_and_bounded() {
    assert!(EmailVerifyRequest { token: "".into() }.validate().is_err());
    assert!(EmailVerifyRequest { token: "t".into() }.validate().is_ok());
    assert!(EmailResendRequest { token: "x".repeat(129) }.validate().is_err());
}

#[test]
fn contact_form_rules() {
    let c = ContactRequest {
        name: "".into(),
        email: "bob@example.com".into(),
        category: ContactCategory::General,
        message: "too short".into(),
        turnstile_token: "".into(),
        locale: default_locale(),
    };
    assert_eq!(
        codes(&c.validate().unwrap_err()),
        vec![("name".to_string(), vec!["length".to_string()]), ("message".to_string(), vec!["length".to_string()])]
    );
    assert_eq!(default_locale(), "en");
}

#[test]
fn legal_input_versions_are_bounded() {
    assert!(legal().validate().is_ok());
    let long = LegalAcceptanceInput { terms_version: "1".repeat(33), privacy_version: "".into() };
    let e = long.validate().unwrap_err();
    assert_eq!(e.fields.len(), 2);
}

#[test]
fn setup_bodies() {
    assert!(TestEmailRequest { to: "ops@example.com".into() }.validate().is_ok());
    assert!(TestEmailRequest { to: "ops".into() }.validate().is_err());
    let admin = ValidateAdminRequest {
        admin_username: "root".into(),
        admin_email: "root@example.com".into(),
        admin_password: "correct horse 1".into(),
    };
    assert!(admin.validate().is_ok());
    let setup = SetupRequest {
        admin_username: "root".into(),
        admin_email: "root@example.com".into(),
        admin_password: "weak".into(),
        default_locale: "en".into(),
        default_timezone: "UTC".into(),
        allow_public_signup: true,
        hide_landing_page: false,
    };
    assert!(setup.validate().is_err());
}
