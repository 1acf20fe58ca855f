//! Log settings: how verbose the server is in each environment, and which
//! requests are logged quietly.
use vstd::prelude::*;
use crate::text::str_eq;

verus! {

/// The path of the health probe, polled every few seconds.
pub const HEALTH_PATH: &'static str = "/api/v1/health";

/// Whether the server runs in production: `BACKEND_ENV` reads
/// `production`. Unset means development.
pub fn is_production(backend_env: Option<&str>) -> (p: bool)
    ensures
        p == (backend_env matches Some(e) && e@ == "production"@),
{
    match backend_env {
        Some(e) => str_eq(e, "production"),
        None => false,
    }
}

/// The log filter used when none is given: terse in production, verbose
/// elsewhere, with the database driver quiet in both.
pub fn default_log_filter(production: bool) -> (f: &'static str)
    ensures
        production ==> f@ == "info,sqlx=warn"@,
        !production ==> f@ == "debug,sqlx=warn,hyper=info"@,
{
    if production { "info,sqlx=warn" } else { "debug,sqlx=warn,hyper=info" }
}

/// Whether a request is logged at debug level rather than info: health
/// checks at info level would bury everything else.
pub fn quiet_request(path: &str) -> (q: bool)
    ensures
        q == (path@ == HEALTH_PATH@),
{
    str_eq(path, HEALTH_PATH)
}

} // verus!
