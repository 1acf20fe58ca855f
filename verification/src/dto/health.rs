//! Health probe body.
use vstd::prelude::*;

verus! {

/// Reported as strings rather than booleans: a monitoring probe reads the
/// same shape whether it looks at the top-level status or a single component.
pub struct HealthResponse {
    /// "ok" when every component is reachable, "down" otherwise.
    pub status: &'static str,
    pub db: &'static str,
    pub redis: &'static str,
}

pub open spec fn state_text(ok: bool) -> Seq<char> {
    if ok {
        "ok"@
    } else {
        "down"@
    }
}

fn state(ok: bool) -> (s: &'static str)
    ensures
        s@ == state_text(ok),
{
    if ok {
        "ok"
    } else {
        "down"
    }
}

impl HealthResponse {
    pub fn new(db_ok: bool, redis_ok: bool) -> (r: Self)
        ensures
            r.status@ == state_text(db_ok && redis_ok),
            r.db@ == state_text(db_ok),
            r.redis@ == state_text(redis_ok),
    {
        HealthResponse { status: state(db_ok && redis_ok), db: state(db_ok), redis: state(redis_ok) }
    }
}

/// The status code of the probe: 200 when every component is reachable,
/// 503 otherwise, so that a load balancer can act on the code alone.
pub fn health_status_code(db_ok: bool, redis_ok: bool) -> (code: u16)
    ensures
        code == (if db_ok && redis_ok { 200u16 } else { 503u16 }),
{
    if db_ok && redis_ok { 200 } else { 503 }
}

/// The overall status reads "ok" exactly when every component does.
pub proof fn health_ok_iff_all_ok(db_ok: bool, redis_ok: bool)
    ensures
        (state_text(db_ok && redis_ok) == "ok"@) <==> (state_text(db_ok) == "ok"@ && state_text(redis_ok) == "ok"@),
{
    reveal_strlit("ok");
    reveal_strlit("down");
    assert("ok"@.len() == 2);
    assert("down"@.len() == 4);
}

} // verus!
