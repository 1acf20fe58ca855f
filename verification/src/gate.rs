//! How each rate-limited endpoint answers the decision of its windows, and
//! which address it counts against.
use vstd::prelude::*;
use crate::entities::IpAddress;
use crate::error::AppError;
use crate::rate_limit::RateLimitDecision;

verus! {

/// The endpoints guarded by a rate limit.
#[derive(Debug, Clone, Copy, PartialEq, Eq, Structural)]
pub enum LimitedEndpoint {
    Login,
    PasswordForgot,
    PasswordReset,
    EmailResend,
    SetupAttempt,
    SetupTestEmail,
}

/// Whether the endpoint lets requests through when the counter store cannot
/// be reached. Login and reset keep a password or a 256-bit token check
/// underneath; the endpoints that send mail to an address nobody proved,
/// and the setup wizard, would be open to abuse without a limit, so they
/// refuse instead.
pub open spec fn fails_open(e: LimitedEndpoint) -> bool {
    match e {
        LimitedEndpoint::Login | LimitedEndpoint::PasswordReset | LimitedEndpoint::EmailResend => true,
        _ => false,
    }
}

/// The answer owed for the store's decision, `None` when the store could
/// not be reached.
pub open spec fn gate_outcome(e: LimitedEndpoint, decision: Option<RateLimitDecision>) -> Result<(), AppError> {
    match decision {
        Some(RateLimitDecision::Allowed) => Ok(()),
        Some(RateLimitDecision::Limited { retry_after_secs }) => Err(AppError::RateLimited { retry_after_secs }),
        None => if fails_open(e) { Ok(()) } else { Err(AppError::ServiceUnavailable) },
    }
}

pub fn rate_limit_gate(e: LimitedEndpoint, decision: Option<RateLimitDecision>) -> (r: Result<(), AppError>)
    ensures
        r == gate_outcome(e, decision),
{
    match decision {
        Some(RateLimitDecision::Allowed) => Ok(()),
        Some(RateLimitDecision::Limited { retry_after_secs }) => Err(AppError::RateLimited { retry_after_secs }),
        None => {
            let open = match e {
                LimitedEndpoint::Login | LimitedEndpoint::PasswordReset | LimitedEndpoint::EmailResend => true,
                _ => false,
            };
            if open { Ok(()) } else { Err(AppError::ServiceUnavailable) }
        },
    }
}

/// The address a request is counted against: the client resolved through
/// the trusted proxies, else the TCP peer, so that a malformed
/// `X-Forwarded-For` cannot be used to dodge the limit.
pub fn rate_limit_address(client_ip: Option<IpAddress>, peer: IpAddress) -> (a: IpAddress)
    ensures
        a == match client_ip { Some(c) => c, None => peer },
{
    match client_ip {
        Some(c) => c,
        None => peer,
    }
}

/// A refused decision is always answered with its wait, whatever the
/// endpoint and whether or not it fails open.
pub proof fn limited_is_always_refused(e: LimitedEndpoint, retry_after_secs: u64)
    ensures
        gate_outcome(e, Some(RateLimitDecision::Limited { retry_after_secs }))
            matches Err(AppError::RateLimited { retry_after_secs: w }) && w == retry_after_secs,
{
}

/// The endpoints that mail unproven addresses, and the setup wizard, never
/// run unlimited.
pub proof fn mailers_fail_closed()
    ensures
        gate_outcome(LimitedEndpoint::PasswordForgot, None) matches Err(AppError::ServiceUnavailable),
        gate_outcome(LimitedEndpoint::SetupTestEmail, None) matches Err(AppError::ServiceUnavailable),
        gate_outcome(LimitedEndpoint::SetupAttempt, None) matches Err(AppError::ServiceUnavailable),
{
}

} // verus!
