//! Guards of the first-run setup wizard.
use vstd::prelude::*;
use crate::errors::SetupError;

verus! {

/// The header the setup token is presented in: a header rather than the
/// body, so read-only routes are covered by the same check.
pub const SETUP_TOKEN_HEADER: &'static str = "x-setup-token";

/// Proof that the caller presented the boot token. A value of it is only
/// made once the token was checked, so requiring one in a handler's
/// arguments makes the requirement visible and impossible to forget.
pub struct SetupToken;

/// The presented token, or the refusal owed when the header is absent or
/// not text.
pub fn presented_setup_token(header: Option<&str>) -> (r: Result<&str, SetupError>)
    ensures
        match header {
            Some(h) => r matches Ok(t) && t@ == h@,
            None => r matches Err(SetupError::InvalidToken),
        },
{
    match header {
        Some(h) => Ok(h),
        None => Err(SetupError::InvalidToken),
    }
}

/// Refuses once the wizard has run. Answered as not found: the setup
/// surface is not advertised at all after initialisation.
pub fn ensure_pending(completed: bool) -> (r: Result<(), SetupError>)
    ensures
        completed ==> r matches Err(SetupError::AlreadyCompleted),
        !completed ==> r is Ok,
{
    if completed {
        Err(SetupError::AlreadyCompleted)
    } else {
        Ok(())
    }
}

} // verus!
