//! The single error type of the HTTP layer and the response each error is
//! answered with.
//!
//! Every response carries a JSON body with a stable, machine-readable
//! `error` code. Internal failures are answered with an opaque
//! `internal_error`: their cause is for the logs, not for the client.
use vstd::prelude::*;
use crate::errors::{
    AlertError, AuthError, AuthTokenError, BlockedEmailError, ContactError, EmailError,
    InstanceError, JsonRejection, LegalError, SessionError, SetupError,
};
use crate::validation::{FieldError, ValidationErrors};

verus! {

pub enum AppError {
    Validation(ValidationErrors),
    JsonBody(JsonRejection),
    Auth(AuthError),
    RateLimited { retry_after_secs: u64 },
    Unauthorized,
    ServiceUnavailable,
    Email(EmailError),
    Instance(InstanceError),
    Setup(SetupError),
    Alert(AlertError),
    Legal(LegalError),
    Contact(ContactError),
    Db,
}

/// A request body, deserialized. A body that fails to deserialize is
/// answered through [`AppError`], so that every response leaving the API
/// carries the same JSON envelope and a machine-readable code, never the
/// framework's plain-text message naming the expected fields.
pub struct JsonBody<T>(pub T);

/// The body, or the error a failed extraction is answered with.
pub fn json_body<T>(parsed: Result<T, JsonRejection>) -> (r: Result<JsonBody<T>, AppError>)
    ensures
        match parsed {
            Ok(v) => r matches Ok(JsonBody(w)) && w == v,
            Err(j) => r matches Err(AppError::JsonBody(k)) && k == j,
        },
{
    match parsed {
        Ok(v) => Ok(JsonBody(v)),
        Err(j) => Err(AppError::JsonBody(j)),
    }
}

/// The JSON body of an error response. Absent fields are not serialized.
pub struct ErrorBody {
    pub error: &'static str,
    /// Field name to the codes it failed, on `validation_failed`.
    pub fields: Option<Vec<FieldError>>,
    pub retry_after_secs: Option<u64>,
    pub resend_token: Option<String>,
    pub current_terms_version: Option<&'static str>,
    pub current_privacy_version: Option<&'static str>,
}

/// Status, body and the `Retry-After` header value, if any.
pub struct ErrorResponse {
    pub status: u16,
    pub body: ErrorBody,
    pub retry_after: Option<u64>,
}

/// Status and code for a failed JSON extraction.
pub open spec fn json_rejection_answer(r: JsonRejection) -> (u16, Seq<char>) {
    match r {
        JsonRejection::JsonDataError => (422, "invalid_body"@),
        JsonRejection::JsonSyntaxError => (400, "malformed_json"@),
        JsonRejection::MissingJsonContentType => (415, "unsupported_media_type"@),
        JsonRejection::Other => (400, "invalid_body"@),
    }
}

/// Status and code for an authentication failure.
pub open spec fn auth_answer(e: AuthError) -> (u16, Seq<char>) {
    match e {
        AuthError::UsernameTaken => (409, "username_taken"@),
        AuthError::EmailTaken => (409, "email_taken"@),
        AuthError::UsernameReserved => (409, "username_reserved"@),
        AuthError::InvalidEmail => (422, "invalid_email"@),
        AuthError::BlockedEmail(BlockedEmailError::DomainNotAllowed) => (422, "email_domain_not_allowed"@),
        AuthError::PublicSignupDisabled => (403, "public_signup_disabled"@),
        AuthError::InvalidCredentials => (401, "invalid_credentials"@),
        AuthError::AccountSuspended { .. } => (401, "invalid_credentials"@),
        AuthError::PendingDeletion => (401, "invalid_credentials"@),
        AuthError::EmailNotVerified { .. } => (403, "email_not_verified"@),
        AuthError::InvalidRefreshToken => (401, "invalid_refresh_token"@),
        AuthError::Session(SessionError::NotFound) => (401, "invalid_refresh_token"@),
        AuthError::Session(SessionError::Expired) => (401, "invalid_refresh_token"@),
        AuthError::Session(SessionError::Reused) => (401, "invalid_refresh_token"@),
        AuthError::PasswordCompromised => (422, "password_compromised"@),
        AuthError::PasswordUnchanged => (422, "password_unchanged"@),
        AuthError::AuthToken(AuthTokenError::NotFound) => (422, "token_invalid"@),
        AuthError::AuthToken(AuthTokenError::Expired) => (422, "token_expired"@),
        AuthError::AuthToken(AuthTokenError::Consumed) => (422, "token_consumed"@),
        AuthError::Turnstile => (400, "turnstile_failed"@),
        _ => (500, "internal_error"@),
    }
}

/// Status and code for a failure of the setup wizard. Only the registration
/// rules that can fire during setup get a code of their own.
pub open spec fn setup_answer(e: SetupError) -> (u16, Seq<char>) {
    match e {
        SetupError::AlreadyCompleted => (404, "not_found"@),
        SetupError::InvalidToken => (404, "not_found"@),
        SetupError::InvalidTimezone => (422, "invalid_timezone"@),
        SetupError::Email(_) => (502, "email_send_failed"@),
        SetupError::Auth(AuthError::UsernameTaken) => (409, "username_taken"@),
        SetupError::Auth(AuthError::UsernameReserved) => (409, "username_reserved"@),
        SetupError::Auth(AuthError::EmailTaken) => (409, "email_taken"@),
        SetupError::Auth(AuthError::PasswordCompromised) => (422, "password_compromised"@),
        SetupError::Auth(AuthError::BlockedEmail(_)) => (422, "email_domain_not_allowed"@),
        SetupError::Auth(AuthError::InvalidEmail) => (422, "invalid_email"@),
        _ => (500, "internal_error"@),
    }
}

pub open spec fn alert_answer(e: AlertError) -> (u16, Seq<char>) {
    match e {
        AlertError::NotFound => (404, "not_found"@),
        _ => (500, "internal_error"@),
    }
}

pub open spec fn legal_answer(e: LegalError) -> (u16, Seq<char>) {
    match e {
        LegalError::VersionStale => (409, "legal_version_stale"@),
        LegalError::AcceptanceRequired => (403, "legal_acceptance_required"@),
        LegalError::Db => (500, "internal_error"@),
    }
}

pub open spec fn contact_answer(e: ContactError) -> (u16, Seq<char>) {
    match e {
        ContactError::RateLimited { .. } => (429, "rate_limited"@),
        ContactError::Turnstile => (400, "turnstile_failed"@),
        _ => (500, "internal_error"@),
    }
}

/// Status and `error` code of the response to `e`.
pub open spec fn answer(e: AppError) -> (u16, Seq<char>) {
    match e {
        AppError::Validation(_) => (422, "validation_failed"@),
        AppError::JsonBody(r) => json_rejection_answer(r),
        AppError::Auth(a) => auth_answer(a),
        AppError::RateLimited { .. } => (429, "rate_limited"@),
        AppError::Unauthorized => (401, "unauthorized"@),
        AppError::ServiceUnavailable => (503, "service_unavailable"@),
        AppError::Email(_) => (502, "email_send_failed"@),
        AppError::Instance(_) => (500, "internal_error"@),
        AppError::Setup(s) => setup_answer(s),
        AppError::Alert(a) => alert_answer(a),
        AppError::Legal(l) => legal_answer(l),
        AppError::Contact(c) => contact_answer(c),
        AppError::Db => (500, "internal_error"@),
    }
}

/// The wait announced to a rate-limited client, in the body and in the
/// `Retry-After` header.
pub open spec fn announced_wait(e: AppError) -> Option<u64> {
    match e {
        AppError::RateLimited { retry_after_secs } => Some(retry_after_secs),
        AppError::Contact(ContactError::RateLimited { retry_after_secs }) => Some(retry_after_secs),
        _ => None,
    }
}

/// The `Retry-After` header: only the generic rate limit sets it.
pub open spec fn retry_after_header(e: AppError) -> Option<u64> {
    match e {
        AppError::RateLimited { retry_after_secs } => Some(retry_after_secs),
        _ => None,
    }
}

/// The resend token carried by `email_not_verified`.
pub open spec fn resend_token_of(e: AppError) -> Option<Seq<char>> {
    match e {
        AppError::Auth(AuthError::EmailNotVerified { resend_token }) => Some(resend_token@),
        _ => None,
    }
}

/// Whether the body carries the versions currently in force.
pub open spec fn carries_versions(e: AppError) -> bool {
    e matches AppError::Legal(LegalError::VersionStale)
}

fn simple(status: u16, code: &'static str) -> (r: ErrorResponse)
    ensures
        r.status == status,
        r.body.error == code,
        r.body.fields is None,
        r.body.retry_after_secs is None,
        r.body.resend_token is None,
        r.body.current_terms_version is None,
        r.body.current_privacy_version is None,
        r.retry_after is None,
{
    ErrorResponse {
        status,
        body: ErrorBody {
            error: code,
            fields: None,
            retry_after_secs: None,
            resend_token: None,
            current_terms_version: None,
            current_privacy_version: None,
        },
        retry_after: None,
    }
}

fn json_rejection_response(r: JsonRejection) -> (resp: ErrorResponse)
    ensures
        (resp.status, resp.body.error@) == json_rejection_answer(r),
        resp.body.fields is None && resp.body.retry_after_secs is None && resp.body.resend_token is None,
        resp.body.current_terms_version is None && resp.body.current_privacy_version is None,
        resp.retry_after is None,
{
    match r {
        JsonRejection::JsonDataError => simple(422, "invalid_body"),
        JsonRejection::JsonSyntaxError => simple(400, "malformed_json"),
        JsonRejection::MissingJsonContentType => simple(415, "unsupported_media_type"),
        JsonRejection::Other => simple(400, "invalid_body"),
    }
}

fn auth_response(e: AuthError) -> (resp: ErrorResponse)
    ensures
        (resp.status, resp.body.error@) == auth_answer(e),
        resp.body.fields is None && resp.body.retry_after_secs is None,
        resp.body.current_terms_version is None && resp.body.current_privacy_version is None,
        resp.retry_after is None,
        match e {
            AuthError::EmailNotVerified { resend_token } => resp.body.resend_token matches Some(t) && t@ == resend_token@,
            _ => resp.body.resend_token is None,
        },
{
    match e {
        AuthError::UsernameTaken => simple(409, "username_taken"),
        AuthError::EmailTaken => simple(409, "email_taken"),
        AuthError::UsernameReserved => simple(409, "username_reserved"),
        AuthError::InvalidEmail => simple(422, "invalid_email"),
        AuthError::BlockedEmail(BlockedEmailError::DomainNotAllowed) => simple(422, "email_domain_not_allowed"),
        AuthError::PublicSignupDisabled => simple(403, "public_signup_disabled"),
        AuthError::InvalidCredentials | AuthError::AccountSuspended { .. } | AuthError::PendingDeletion => {
            simple(401, "invalid_credentials")
        },
        AuthError::EmailNotVerified { resend_token } => {
            let mut r = simple(403, "email_not_verified");
            r.body.resend_token = Some(resend_token);
            r
        },
        AuthError::InvalidRefreshToken => simple(401, "invalid_refresh_token"),
        AuthError::Session(s) => match s {
            // One code for all three: the client cannot act on the
            // distinction, and telling them apart would leak whether a token
            // ever existed.
            SessionError::NotFound | SessionError::Expired | SessionError::Reused => {
                simple(401, "invalid_refresh_token")
            },
            SessionError::Db | SessionError::Audit => simple(500, "internal_error"),
        },
        AuthError::PasswordCompromised => simple(422, "password_compromised"),
        AuthError::PasswordUnchanged => simple(422, "password_unchanged"),
        AuthError::AuthToken(t) => match t {
            AuthTokenError::NotFound => simple(422, "token_invalid"),
            AuthTokenError::Expired => simple(422, "token_expired"),
            AuthTokenError::Consumed => simple(422, "token_consumed"),
            AuthTokenError::Db => simple(500, "internal_error"),
        },
        AuthError::Legal(_) => simple(500, "internal_error"),
        AuthError::Turnstile => simple(400, "turnstile_failed"),
        _ => simple(500, "internal_error"),
    }
}

fn setup_response(e: SetupError) -> (resp: ErrorResponse)
    ensures
        (resp.status, resp.body.error@) == setup_answer(e),
        resp.body.fields is None && resp.body.retry_after_secs is None && resp.body.resend_token is None,
        resp.body.current_terms_version is None && resp.body.current_privacy_version is None,
        resp.retry_after is None,
{
    match e {
        SetupError::AlreadyCompleted | SetupError::InvalidToken => simple(404, "not_found"),
        SetupError::InvalidTimezone => simple(422, "invalid_timezone"),
        SetupError::Email(_) => simple(502, "email_send_failed"),
        SetupError::Auth(AuthError::UsernameTaken) => simple(409, "username_taken"),
        SetupError::Auth(AuthError::UsernameReserved) => simple(409, "username_reserved"),
        SetupError::Auth(AuthError::EmailTaken) => simple(409, "email_taken"),
        SetupError::Auth(AuthError::PasswordCompromised) => simple(422, "password_compromised"),
        SetupError::Auth(AuthError::BlockedEmail(_)) => simple(422, "email_domain_not_allowed"),
        SetupError::Auth(AuthError::InvalidEmail) => simple(422, "invalid_email"),
        _ => simple(500, "internal_error"),
    }
}

impl AppError {
    /// The response the API answers this error with.
    pub fn into_response(self) -> (resp: ErrorResponse)
        ensures
            (resp.status, resp.body.error@) == answer(self),
            resp.body.retry_after_secs == announced_wait(self),
            resp.retry_after == retry_after_header(self),
            match resp.body.resend_token {
                Some(t) => resend_token_of(self) == Some(t@),
                None => resend_token_of(self) is None,
            },
            match self {
                AppError::Validation(errs) => resp.body.fields matches Some(f) && f@ == errs.fields@,
                _ => resp.body.fields is None,
            },
            carries_versions(self) ==> (resp.body.current_terms_version matches Some(t)
                && t@ == crate::legal::CURRENT_TERMS_VERSION@),
            carries_versions(self) ==> (resp.body.current_privacy_version matches Some(p)
                && p@ == crate::legal::CURRENT_PRIVACY_VERSION@),
            !carries_versions(self) ==> resp.body.current_terms_version is None
                && resp.body.current_privacy_version is None,
    {
        match self {
            AppError::Validation(errors) => {
                let mut r = simple(422, "validation_failed");
                // Only the fields of the body itself are listed: a client
                // places these messages under its own inputs.
                r.body.fields = Some(errors.fields);
                r
            },
            AppError::JsonBody(rejection) => json_rejection_response(rejection),
            AppError::Auth(err) => auth_response(err),
            AppError::RateLimited { retry_after_secs } => {
                let mut r = simple(429, "rate_limited");
                r.body.retry_after_secs = Some(retry_after_secs);
                r.retry_after = Some(retry_after_secs);
                r
            },
            AppError::Unauthorized => simple(401, "unauthorized"),
            AppError::Db => simple(500, "internal_error"),
            AppError::ServiceUnavailable => simple(503, "service_unavailable"),
            AppError::Setup(err) => setup_response(err),
            AppError::Instance(_) => simple(500, "internal_error"),
            AppError::Email(_) => simple(502, "email_send_failed"),
            AppError::Alert(err) => match err {
                AlertError::NotFound => simple(404, "not_found"),
                AlertError::Audit | AlertError::Db => simple(500, "internal_error"),
            },
            AppError::Legal(err) => match err {
                LegalError::VersionStale => {
                    // Carry the current versions so the client can re-prompt
                    // without a second round trip.
                    let mut r = simple(409, "legal_version_stale");
                    r.body.current_terms_version = Some(crate::legal::CURRENT_TERMS_VERSION);
                    r.body.current_privacy_version = Some(crate::legal::CURRENT_PRIVACY_VERSION);
                    r
                },
                LegalError::AcceptanceRequired => simple(403, "legal_acceptance_required"),
                LegalError::Db => simple(500, "internal_error"),
            },
            AppError::Contact(err) => match err {
                ContactError::RateLimited { retry_after_secs } => {
                    let mut r = simple(429, "rate_limited");
                    r.body.retry_after_secs = Some(retry_after_secs);
                    r
                },
                ContactError::Turnstile => simple(400, "turnstile_failed"),
                ContactError::Email(_) | ContactError::Redis => simple(500, "internal_error"),
            },
        }
    }
}


/// A refresh token that was never issued, that expired, or that was replayed
/// is answered exactly like an invalid one: the response does not tell which.
pub proof fn refresh_failures_are_indistinguishable(s: SessionError)
    requires
        s == SessionError::NotFound || s == SessionError::Expired || s == SessionError::Reused,
    ensures
        answer(AppError::Auth(AuthError::Session(s))) == answer(AppError::Auth(AuthError::InvalidRefreshToken)),
{
}

/// A suspended account, or one pending deletion, is answered exactly like
/// wrong credentials, so a login attempt does not reveal the account state.
pub proof fn account_state_is_not_revealed(until: Option<crate::entities::Micros>, reason: Option<String>)
    ensures
        answer(AppError::Auth(AuthError::AccountSuspended { until, reason })) == answer(AppError::Auth(AuthError::InvalidCredentials)),
        answer(AppError::Auth(AuthError::PendingDeletion)) == answer(AppError::Auth(AuthError::InvalidCredentials)),
{
}

/// Every store failure is answered with an opaque `internal_error`.
pub proof fn store_failures_are_opaque()
    ensures
        answer(AppError::Db) == (500u16, "internal_error"@),
        answer(AppError::Auth(AuthError::Db)) == (500u16, "internal_error"@),
        answer(AppError::Auth(AuthError::Session(SessionError::Db))) == (500u16, "internal_error"@),
        answer(AppError::Auth(AuthError::AuthToken(AuthTokenError::Db))) == (500u16, "internal_error"@),
        answer(AppError::Auth(AuthError::BlockedEmail(BlockedEmailError::Db))) == (500u16, "internal_error"@),
        answer(AppError::Setup(SetupError::Db)) == (500u16, "internal_error"@),
        answer(AppError::Alert(AlertError::Db)) == (500u16, "internal_error"@),
        answer(AppError::Legal(LegalError::Db)) == (500u16, "internal_error"@),
        answer(AppError::Instance(InstanceError::Db)) == (500u16, "internal_error"@),
{
}

/// Every `429` tells the client how long to wait.
pub proof fn rate_limited_answers_carry_a_wait(e: AppError)
    ensures
        answer(e).0 == 429 ==> announced_wait(e) is Some,
{
}

} // verus!
