//! The shapes of the error bodies, as documented to API clients.
use vstd::prelude::*;
use crate::validation::FieldError;

verus! {

/// `{ "error": "invalid_credentials" }` and every other single-code failure.
pub struct SimpleErrorResponse {
    /// Stable machine-readable code, never a human sentence.
    pub error: String,
}

/// `validation_failed`, with the offending fields mapped to their codes.
pub struct ValidationErrorResponse {
    pub error: String,
    pub fields: Vec<FieldError>,
}

/// `rate_limited`, mirrored by the Retry-After header.
pub struct RateLimitedErrorResponse {
    pub error: String,
    pub retry_after_secs: u64,
}

/// `email_not_verified`, carrying the token needed to request a new
/// verification mail without a second round trip.
pub struct EmailNotVerifiedErrorResponse {
    pub error: String,
    pub resend_token: String,
}

/// `legal_version_stale`, carrying the current versions so the client can
/// re-prompt immediately.
pub struct LegalVersionStaleErrorResponse {
    pub error: String,
    pub current_terms_version: String,
    pub current_privacy_version: String,
}

} // verus!
