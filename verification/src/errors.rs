//! Failures of the services whose outcome reaches an API response.
//!
//! Variants that in a running server wrap a store or transport error keep
//! only their kind: the cause is logged, never sent to the client.
use vstd::prelude::*;
use crate::entities::Micros;

verus! {

/// How a request body failed to deserialize.
#[derive(Debug, Clone, Copy, PartialEq, Eq, Structural)]
pub enum JsonRejection {
    /// Valid JSON, wrong shape: unknown field, wrong type, missing field.
    JsonDataError,
    /// Not valid JSON at all.
    JsonSyntaxError,
    /// The request did not declare a JSON body.
    MissingJsonContentType,
    /// Anything else, such as a body that could not be read.
    Other,
}

#[derive(Debug, Clone, Copy, PartialEq, Eq, Structural)]
pub enum BlockedEmailError {
    DomainNotAllowed,
    NotFound,
    DisposableListEntry,
    Db,
}

#[derive(Debug, Clone, Copy, PartialEq, Eq, Structural)]
pub enum SessionError {
    NotFound,
    Expired,
    Reused,
    Audit,
    Db,
}

#[derive(Debug, Clone, Copy, PartialEq, Eq, Structural)]
pub enum AuthTokenError {
    NotFound,
    Expired,
    Consumed,
    Db,
}

pub enum EmailError {
    Transport,
    Render,
    Rejected(String),
    Smtp,
    Message,
    Address,
}

#[derive(Debug, Clone, Copy, PartialEq, Eq, Structural)]
pub enum PasswordError {
    Hashing,
    Join,
}

#[derive(Debug, Clone, Copy, PartialEq, Eq, Structural)]
pub enum LegalError {
    VersionStale,
    AcceptanceRequired,
    Db,
}

#[derive(Debug, Clone, Copy, PartialEq, Eq, Structural)]
pub enum AlertError {
    NotFound,
    Audit,
    Db,
}

pub enum ContactError {
    RateLimited { retry_after_secs: u64 },
    Turnstile,
    Email(EmailError),
    Redis,
}

#[derive(Debug, Clone, Copy, PartialEq, Eq, Structural)]
pub enum InstanceError {
    Db,
}

pub enum AuthError {
    BlockedEmail(BlockedEmailError),
    PublicSignupDisabled,
    UsernameTaken,
    EmailTaken,
    UsernameReserved,
    InvalidEmail,
    InvalidCredentials,
    EmailNotVerified { resend_token: String },
    AccountSuspended { until: Option<Micros>, reason: Option<String> },
    PendingDeletion,
    Password(PasswordError),
    PasswordCompromised,
    PasswordUnchanged,
    InvalidRefreshToken,
    Session(SessionError),
    Email(EmailError),
    AuthToken(AuthTokenError),
    Jwt,
    Instance(InstanceError),
    Legal(LegalError),
    Turnstile,
    Db,
}

/// Failures of the administrative actions.
pub enum AdminError {
    /// The target row is gone. Surfaced as 404, never 403: a non-admin must
    /// not learn that the admin surface exists.
    UserNotFound,
    /// Refused so an instance cannot be left with no administrator.
    LastAdmin,
    /// An admin acting on their own account, where it makes no sense.
    SelfTarget,
    Session(SessionError),
    AuthToken(AuthTokenError),
    Email(EmailError),
    Audit,
    Db,
    Password(PasswordError),
}

pub enum SetupError {
    AlreadyCompleted,
    InvalidToken,
    InvalidTimezone,
    Email(EmailError),
    Auth(AuthError),
    Instance(InstanceError),
    Db,
}

} // verus!
