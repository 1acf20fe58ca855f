use pwnforge::config::{Config, ConfigError, EmailBackend, RawConfig, SmtpTls};

fn raw() -> RawConfig {
    RawConfig {
        port: None,
        public_url: Some("https://forge.example".into()),
        cors_origin: Some("https://forge.example".into()),
        setup_token: None,
        database_url: Some("postgres://db".into()),
        redis_url: Some("redis://cache".into()),
        jwt_secret: Some("secret".into()),
        encryption_key: Some("key".into()),
        cookie_secure: None,
        trusted_proxy_count: None,
        block_disposable_emails: None,
        check_pwned_passwords: None,
        email_backend: None,
        email_from: None,
        smtp_host: None,
        smtp_port: None,
        smtp_username: None,
        smtp_password: None,
        smtp_tls: None,
        resend_api_key: None,
    }
}

fn message(r: Result<Config, ConfigError>) -> String {
    match r {
        Ok(_) => panic!("expected a refusal"),
        Err(e) => e.message(),
    }
}

#[test]
fn defaults_apply_to_unset_variables() {
    let c = Config::from_raw(raw()).unwrap_or_else(|e| panic!("{}", e.message()));
    assert_eq!(c.port, 3000);
    assert!(c.cookie_secure && c.block_disposable_emails && c.check_pwned_passwords);
    assert_eq!(c.trusted_proxy_count, 0);
    assert_eq!(c.email_backend, EmailBackend::Console);
    assert_eq!(c.smtp_port, 587);
    assert_eq!(c.smtp_tls, SmtpTls::StartTls);
    assert_eq!(c.email_from, "");
    assert!(c.setup_token.is_none());
}

#[test]
fn required_variables() {
    let mut r = raw();
    r.database_url = None;
    assert_eq!(message(Config::from_raw(r)), "DATABASE_URL must be set");
    let mut r = raw();
    r.public_url = None;
    assert_eq!(message(Config::from_raw(r)), "PUBLIC_URL must be set");
}

#[test]
fn malformed_values_name_their_variable() {
    let mut r = raw();
    r.port = Some("http".into());
    assert!(message(Config::from_raw(r)).starts_with("PORT is invalid: "));
    let mut r = raw();
    r.port = Some("70000".into());
    assert!(message(Config::from_raw(r)).starts_with("PORT is invalid: "));
    let mut r = raw();
    r.cookie_secure = Some("yes".into());
    assert!(message(Config::from_raw(r)).starts_with("COOKIE_SECURE is invalid: "));
    let mut r = raw();
    r.email_backend = Some("sendmail".into());
    assert_eq!(message(Config::from_raw(r)), "EMAIL_BACKEND is invalid: invalid email backend: sendmail");
    let mut r = raw();
    r.smtp_tls = Some("ssl".into());
    assert_eq!(message(Config::from_raw(r)), "SMTP_TLS is invalid: invalid SMTP TLS mode: ssl");
}

#[test]
fn values_are_read() {
    let mut r = raw();
    r.port = Some("+8080".into());
    r.trusted_proxy_count = Some("2".into());
    r.cookie_secure = Some("false".into());
    r.smtp_tls = Some("none".into());
    let c = Config::from_raw(r).unwrap_or_else(|e| panic!("{}", e.message()));
    assert_eq!(c.port, 8080);
    assert_eq!(c.trusted_proxy_count, 2);
    assert!(!c.cookie_secure);
    assert_eq!(c.smtp_tls, SmtpTls::NoTls);
}

#[test]
fn cross_field_rules() {
    let mut r = raw();
    r.email_backend = Some("smtp".into());
    assert_eq!(message(Config::from_raw(r)), "SMTP_HOST must be set when EMAIL_BACKEND is 'smtp'");
    let mut r = raw();
    r.email_backend = Some("resend".into());
    assert_eq!(message(Config::from_raw(r)), "RESEND_API_KEY must be set when EMAIL_BACKEND is 'resend'");
    let mut r = raw();
    r.email_backend = Some("smtp".into());
    r.smtp_host = Some("localhost".into());
    assert_eq!(message(Config::from_raw(r)), "EMAIL_FROM must be set unless EMAIL_BACKEND is 'console'");
    let mut r = raw();
    r.email_backend = Some("smtp".into());
    r.smtp_host = Some("localhost".into());
    r.email_from = Some("noreply@forge.example".into());
    assert!(Config::from_raw(r).is_ok());
}

#[test]
fn setup_token_length_counts_bytes() {
    let mut r = raw();
    r.setup_token = Some("a".repeat(31));
    assert_eq!(message(Config::from_raw(r)), "SETUP_TOKEN must be at least 32 characters");
    let mut r = raw();
    r.setup_token = Some("a".repeat(32));
    assert!(Config::from_raw(r).is_ok());
    let mut r = raw();
    r.setup_token = Some("é".repeat(16));
    assert!(Config::from_raw(r).is_ok());
}

#[test]
fn backend_and_tls_names() {
    assert_eq!(EmailBackend::parse("resend").ok(), Some(EmailBackend::Resend));
    assert!(matches!(EmailBackend::parse("Console"), Err(ConfigError::InvalidEmailBackend(v)) if v == "Console"));
    assert_eq!(SmtpTls::parse("implicit").ok(), Some(SmtpTls::Implicit));
    assert!(matches!(SmtpTls::parse(""), Err(ConfigError::InvalidSmtpTls(v)) if v.is_empty()));
}

#[test]
fn log_line_redacts_every_secret() {
    let mut r = raw();
    r.setup_token = Some("s".repeat(40));
    r.email_backend = Some("smtp".into());
    r.smtp_host = Some("mail.example".into());
    r.email_from = Some("noreply@forge.example".into());
    r.smtp_password = Some("hunter2".into());
    let c = Config::from_raw(r).unwrap_or_else(|e| panic!("{}", e.message()));
    let line = c.redacted();
    assert_eq!(
        line,
        "Config { port: 3000, public_url: \"https://forge.example\", cors_origin: \"https://forge.example\", \
setup_token: \"[redacted]\", database_url: \"[redacted]\", redis_url: \"[redacted]\", jwt_secret: \"[redacted]\", \
encryption_key: \"[redacted]\", cookie_secure: true, trusted_proxy_count: 0, block_disposable_emails: true, \
email_backend: Smtp, email_from: \"noreply@forge.example\", smtp_host: \"mail.example\", smtp_port: 587, \
smtp_username: \"\", smtp_password: \"[redacted]\", smtp_tls: StartTls, resend_api_key: \"[redacted]\" }"
    );
    assert!(!line.contains("hunter2") && !line.contains("postgres://"));
}

#[test]
fn decimal_text() {
    assert_eq!(pwnforge::config::decimal(0), "0");
    assert_eq!(pwnforge::config::decimal(65535), "65535");
    assert_eq!(pwnforge::config::decimal(u64::MAX), u64::MAX.to_string());
}
