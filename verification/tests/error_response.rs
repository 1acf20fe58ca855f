use pwnforge::error::AppError;
use pwnforge::errors::{AuthError, BlockedEmailError, JsonRejection, LegalError, SessionError, SetupError};

fn answer(e: AppError) -> (u16, &'static str) {
    let r = e.into_response();
    (r.status, r.body.error)
}

#[test]
fn refresh_failures_share_one_code() {
    for s in [SessionError::NotFound, SessionError::Expired, SessionError::Reused] {
        assert_eq!(answer(AppError::Auth(AuthError::Session(s))), (401, "invalid_refresh_token"));
    }
    assert_eq!(answer(AppError::Auth(AuthError::Session(SessionError::Db))), (500, "internal_error"));
}

#[test]
fn account_state_is_answered_as_bad_credentials() {
    assert_eq!(answer(AppError::Auth(AuthError::InvalidCredentials)), (401, "invalid_credentials"));
    assert_eq!(
        answer(AppError::Auth(AuthError::AccountSuspended { until: Some(5), reason: Some("x".into()) })),
        (401, "invalid_credentials")
    );
    assert_eq!(answer(AppError::Auth(AuthError::PendingDeletion)), (401, "invalid_credentials"));
}

#[test]
fn rate_limited_answers_carry_the_wait() {
    let r = AppError::RateLimited { retry_after_secs: 90 }.into_response();
    assert_eq!((r.status, r.body.error), (429, "rate_limited"));
    assert_eq!(r.body.retry_after_secs, Some(90));
    assert_eq!(r.retry_after, Some(90));
}

#[test]
fn unverified_address_carries_the_resend_token() {
    let r = AppError::Auth(AuthError::EmailNotVerified { resend_token: "tok".into() }).into_response();
    assert_eq!((r.status, r.body.error), (403, "email_not_verified"));
    assert_eq!(r.body.resend_token.as_deref(), Some("tok"));
}

#[test]
fn json_rejections() {
    assert_eq!(answer(AppError::JsonBody(JsonRejection::JsonSyntaxError)), (400, "malformed_json"));
    assert_eq!(answer(AppError::JsonBody(JsonRejection::JsonDataError)), (422, "invalid_body"));
    assert_eq!(answer(AppError::JsonBody(JsonRejection::MissingJsonContentType)), (415, "unsupported_media_type"));
    assert_eq!(answer(AppError::JsonBody(JsonRejection::Other)), (400, "invalid_body"));
}

#[test]
fn blocked_domain_and_store_failures() {
    assert_eq!(
        answer(AppError::Auth(AuthError::BlockedEmail(BlockedEmailError::DomainNotAllowed))),
        (422, "email_domain_not_allowed")
    );
    assert_eq!(answer(AppError::Auth(AuthError::BlockedEmail(BlockedEmailError::Db))), (500, "internal_error"));
    assert_eq!(answer(AppError::Db), (500, "internal_error"));
}

#[test]
fn legal_and_setup() {
    let r = AppError::Legal(LegalError::VersionStale).into_response();
    assert_eq!((r.status, r.body.error), (409, "legal_version_stale"));
    assert_eq!(r.body.current_terms_version, Some("1.0"));
    assert_eq!(answer(AppError::Setup(SetupError::AlreadyCompleted)), (404, "not_found"));
    assert_eq!(answer(AppError::Setup(SetupError::InvalidToken)), (404, "not_found"));
    assert_eq!(answer(AppError::ServiceUnavailable), (503, "service_unavailable"));
    assert_eq!(answer(AppError::Unauthorized), (401, "unauthorized"));
}

#[test]
fn failed_extraction_goes_through_the_envelope() {
    use_json_body();
}

fn use_json_body() {
    let ok = pwnforge::error::json_body::<u8>(Ok(3));
    assert!(matches!(ok, Ok(pwnforge::error::JsonBody(3))));
    let bad = pwnforge::error::json_body::<u8>(Err(JsonRejection::JsonSyntaxError));
    assert!(matches!(bad, Err(AppError::JsonBody(JsonRejection::JsonSyntaxError))));
}
