//! Which stored tokens the periodic cleanup deletes.
//!
//! The cleanup runs hourly and deletes in batches; a row goes once nothing
//! can use it any more.
use vstd::prelude::*;
use crate::entities::{Micros, RefreshTokenModel};
use crate::session::{MAX_SESSION_TTL_SECS, MICROS_PER_SEC};

verus! {

/// Expired single-use tokens are kept for a week: long enough to catch most
/// accidental replays, short enough not to bloat the database.
pub const AUTH_TOKEN_RETENTION_SECS: i64 = 7 * 24 * 60 * 60;

/// Rows deleted per statement: one unbounded DELETE on a large table holds
/// locks long enough to stall concurrent logins.
pub const BATCH_SIZE: u64 = 1000;

/// The instant `secs` seconds before `now`, held at the smallest instant
/// when it would not fit.
pub open spec fn before(now: Micros, secs: i64) -> int {
    if now - secs * MICROS_PER_SEC < i64::MIN {
        i64::MIN as int
    } else {
        now - secs * MICROS_PER_SEC
    }
}

pub fn instant_before(now: Micros, secs: i64) -> (t: Micros)
    requires
        0 <= secs <= MAX_SESSION_TTL_SECS,
    ensures
        t == before(now, secs),
{
    let span = secs * MICROS_PER_SEC;
    if now < i64::MIN + span {
        i64::MIN
    } else {
        now - span
    }
}

/// Whether the cleanup deletes a refresh-token row at `now`. A revoked row
/// is kept for a full session lifetime after its revocation, expired or not,
/// so that a replayed token is still recognised as a replay and not
/// answered as unknown; a row never revoked goes once it has expired.
pub open spec fn refresh_row_purged(row: RefreshTokenModel, now: Micros, session_ttl_secs: i64) -> bool {
    match row.revoked_at {
        Some(r) => r < before(now, session_ttl_secs),
        None => row.expires_at < now,
    }
}

pub fn purge_refresh_row(row: &RefreshTokenModel, now: Micros, session_ttl_secs: i64) -> (purge: bool)
    requires
        0 <= session_ttl_secs <= MAX_SESSION_TTL_SECS,
    ensures
        purge == refresh_row_purged(*row, now, session_ttl_secs),
{
    match row.revoked_at {
        Some(r) => {
            let cutoff = instant_before(now, session_ttl_secs);
            r < cutoff
        },
        None => row.expires_at < now,
    }
}

/// Whether the cleanup deletes a single-use token expiring at `expires_at`.
pub open spec fn auth_token_purged(expires_at: Micros, now: Micros) -> bool {
    expires_at < before(now, AUTH_TOKEN_RETENTION_SECS)
}

pub fn purge_auth_token(expires_at: Micros, now: Micros) -> (purge: bool)
    ensures
        purge == auth_token_purged(expires_at, now),
{
    let cutoff = instant_before(now, AUTH_TOKEN_RETENTION_SECS);
    expires_at < cutoff
}

/// A revoked token is still stored a full session lifetime after its
/// revocation, whether or not it has expired meanwhile: the cleanup never
/// turns a replay into an unknown token within that time. Once the lifetime
/// has passed, the row goes.
pub proof fn revoked_tokens_are_kept_a_lifetime(row: RefreshTokenModel, ttl_secs: i64, revoked_at: Micros, now: Micros)
    requires
        0 <= ttl_secs <= MAX_SESSION_TTL_SECS,
        row.revoked_at == Some(revoked_at),
    ensures
        revoked_at >= now - ttl_secs * MICROS_PER_SEC ==> !refresh_row_purged(row, now, ttl_secs),
        revoked_at < now - ttl_secs * MICROS_PER_SEC && now - ttl_secs * MICROS_PER_SEC >= i64::MIN
            ==> refresh_row_purged(row, now, ttl_secs),
{
}

} // verus!
