use pwnforge::cookies::{auth_cookies, cleared_auth_cookies};
use pwnforge::dto::alerts::PublicAlertResponse;
use pwnforge::dto::health::{health_status_code, HealthResponse};
use pwnforge::entities::AlertModel;
use pwnforge::errors::SetupError;
use pwnforge::logging::{default_log_filter, is_production, quiet_request};
use pwnforge::seed::{chunk_ranges, parse_domains, parse_usernames, CHUNK_SIZE};
use pwnforge::setup::{ensure_pending, presented_setup_token};
use pwnforge::text::{str_contains, split_once_chars};

#[test]
fn session_cookies() {
    let (a, r) = auth_cookies(true, "acc", "ref", 900, 3600);
    assert_eq!((a.name, a.path, a.value.as_str(), a.max_age_secs), ("access_token", "/", "acc", Some(900)));
    assert_eq!((r.name, r.path, r.value.as_str(), r.max_age_secs), ("refresh_token", "/api/v1/auth", "ref", Some(3600)));
    assert!(a.http_only && a.secure && a.same_site_strict);
    let (ca, cr) = cleared_auth_cookies(false);
    assert_eq!((ca.name, ca.path), (a.name, a.path));
    assert_eq!((cr.name, cr.path), (r.name, r.path));
    assert!(ca.value.is_empty() && ca.max_age_secs == Some(0) && !ca.secure);
}

#[test]
fn health_probe() {
    let h = HealthResponse::new(true, false);
    assert_eq!((h.status, h.db, h.redis), ("down", "ok", "down"));
    assert_eq!(health_status_code(true, false), 503);
    assert_eq!(health_status_code(true, true), 200);
    let ok = HealthResponse::new(true, true);
    assert_eq!(ok.status, "ok");
}

#[test]
fn public_alert_hides_authorship() {
    let row = AlertModel {
        id: 5,
        kind: "warning".into(),
        message: "Maintenance tonight".into(),
        link_url: None,
        starts_at: 1,
        ends_at: Some(2),
        is_active: true,
        created_by: Some(9),
        created_at: 0,
    };
    let p = PublicAlertResponse::from(row);
    assert_eq!((p.id, p.kind.as_str(), p.starts_at, p.ends_at), (5, "warning", 1, Some(2)));
}

#[test]
fn setup_guards() {
    assert_eq!(presented_setup_token(Some("tok")).ok(), Some("tok"));
    assert!(matches!(presented_setup_token(None), Err(SetupError::InvalidToken)));
    assert!(matches!(ensure_pending(true), Err(SetupError::AlreadyCompleted)));
    assert!(ensure_pending(false).is_ok());
}

#[test]
fn log_settings() {
    assert!(is_production(Some("production")));
    assert!(!is_production(Some("staging")));
    assert!(!is_production(None));
    assert_eq!(default_log_filter(true), "info,sqlx=warn");
    assert_eq!(default_log_filter(false), "debug,sqlx=warn,hyper=info");
    assert!(quiet_request("/api/v1/health"));
    assert!(!quiet_request("/api/v1/auth/login"));
}

#[test]
fn list_files_skip_blanks_and_comments() {
    let raw = "# disposable\n\nMailinator.com\n  yopmail.com  \r\n#x\n10minutemail.com";
    assert_eq!(parse_domains(raw), vec!["mailinator.com", "yopmail.com", "10minutemail.com"]);
    assert_eq!(parse_usernames("Admin\nroot\n"), vec!["admin", "root"]);
    assert!(parse_domains("").is_empty());
}

#[test]
fn seeding_chunks_cover_the_list() {
    assert!(chunk_ranges(0, CHUNK_SIZE).is_empty());
    assert_eq!(chunk_ranges(2500, 1000), vec![(0, 1000), (1000, 2000), (2000, 2500)]);
    assert_eq!(chunk_ranges(1000, 1000), vec![(0, 1000)]);
}

#[test]
fn text_helpers() {
    assert!(str_contains("users_username_key violated", "username_key"));
    assert!(!str_contains("abc", "abcd"));
    assert!(str_contains("abc", ""));
    let (a, b) = split_once_chars(&['k', ':', 'v', ':', 'w'], ':').unwrap();
    assert_eq!((a, b), (vec!['k'], vec!['v', ':', 'w']));
    assert!(split_once_chars(&['k'], ':').is_none());
}
