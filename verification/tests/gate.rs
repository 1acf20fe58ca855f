use pwnforge::entities::IpAddress;
use pwnforge::error::AppError;
use pwnforge::gate::{rate_limit_address, rate_limit_gate, LimitedEndpoint};
use pwnforge::rate_limit::RateLimitDecision;

#[test]
fn limited_requests_are_refused_with_their_wait() {
    for e in [LimitedEndpoint::Login, LimitedEndpoint::PasswordForgot, LimitedEndpoint::SetupAttempt] {
        let r = rate_limit_gate(e, Some(RateLimitDecision::Limited { retry_after_secs: 42 }));
        assert!(matches!(r, Err(AppError::RateLimited { retry_after_secs: 42 })));
        assert!(rate_limit_gate(e, Some(RateLimitDecision::Allowed)).is_ok());
    }
}

#[test]
fn store_outage_policy_per_endpoint() {
    assert!(rate_limit_gate(LimitedEndpoint::Login, None).is_ok());
    assert!(rate_limit_gate(LimitedEndpoint::PasswordReset, None).is_ok());
    assert!(rate_limit_gate(LimitedEndpoint::EmailResend, None).is_ok());
    assert!(matches!(rate_limit_gate(LimitedEndpoint::PasswordForgot, None), Err(AppError::ServiceUnavailable)));
    assert!(matches!(rate_limit_gate(LimitedEndpoint::SetupAttempt, None), Err(AppError::ServiceUnavailable)));
    assert!(matches!(rate_limit_gate(LimitedEndpoint::SetupTestEmail, None), Err(AppError::ServiceUnavailable)));
}

#[test]
fn resolved_client_wins_over_the_peer() {
    let peer = IpAddress::V4(1);
    assert_eq!(rate_limit_address(Some(IpAddress::V4(2)), peer), IpAddress::V4(2));
    assert_eq!(rate_limit_address(None, peer), peer);
}
