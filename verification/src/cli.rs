//! Decisions and texts of the admin console: how a user is named on the
//! command line, how dates are read, and what the commands print.
use vstd::prelude::*;
use crate::auth::{normalize_email, normalized_email};
use crate::entities::{uuid_text, Micros};
use crate::errors::{AlertError, BlockedEmailError};
use crate::text::{chars_of, contains_char, str_concat};

verus! {

/// The 128-bit value of the UUID written in `s`, as `uuid::Uuid::parse_str`
/// reads it (simple, hyphenated, URN or braced form), `None` when `s` is
/// not a UUID.
pub uninterp spec fn uuid_parsed(s: Seq<char>) -> Option<u128>;

/// Calls `uuid::Uuid::parse_str`. Its result is the named `uuid_parsed`;
/// the hyphenated text `Uuid` displays is read back as the same UUID.
#[verifier::external_body]
fn parse_uuid(s: &str) -> (r: Option<u128>)
    ensures
        r == uuid_parsed(s@),
        forall|id: u128| s@ == #[trigger] uuid_text(id) ==> r == Some(id),
{
    match uuid::Uuid::parse_str(s) {
        Ok(u) => Some(u.as_u128()),
        Err(_) => None,
    }
}

/// How a user named on the command line is found.
pub enum UserLookup {
    /// A UUID: unambiguous, no query needed.
    Id(u128),
    /// An address, normalized.
    Email(String),
    /// A username, as typed.
    Username(String),
}

/// Reads an identifier: a UUID first, then an address if it holds `@`,
/// else a username. Shared by every command that targets a user, so the
/// ways to name one stay consistent.
pub fn classify_identifier(identifier: &str) -> (r: UserLookup)
    ensures
        uuid_parsed(identifier@) matches Some(id) ==> (r matches UserLookup::Id(i) && i == id),
        uuid_parsed(identifier@) is None && identifier@.contains('@') ==>
            (r matches UserLookup::Email(e) && e@ == normalized_email(identifier@)),
        uuid_parsed(identifier@) is None && !identifier@.contains('@') ==>
            (r matches UserLookup::Username(u) && u@ == identifier@),
{
    match parse_uuid(identifier) {
        Some(id) => UserLookup::Id(id),
        None => {
            let chars = chars_of(identifier);
            if contains_char(&chars, '@') {
                UserLookup::Email(normalize_email(identifier))
            } else {
                UserLookup::Username(String::from_str(identifier))
            }
        },
    }
}

/// The error printed when no account matches.
pub fn no_user_matching(identifier: &str) -> (m: String)
    ensures
        m@ == "no user matching '"@ + identifier@ + "'"@,
{
    let head = str_concat("no user matching '", identifier);
    str_concat(head.as_str(), "'")
}

/// The instant an RFC 3339 timestamp denotes, in microseconds since the
/// epoch, as `chrono::DateTime::parse_from_rfc3339` reads it.
pub uninterp spec fn rfc3339_instant(s: Seq<char>) -> Option<Micros>;

/// Midnight UTC of a `YYYY-MM-DD` date, as `chrono::NaiveDate::parse_from_str`
/// with `%Y-%m-%d` reads it.
pub uninterp spec fn bare_date_instant(s: Seq<char>) -> Option<Micros>;

/// Calls `DateTime::parse_from_rfc3339` and takes the instant in UTC. The
/// result is the named `rfc3339_instant`.
#[verifier::external_body]
fn parse_rfc3339(s: &str) -> (r: Option<Micros>)
    ensures
        r == rfc3339_instant(s@),
{
    match chrono::DateTime::parse_from_rfc3339(s) {
        Ok(dt) => Some(dt.timestamp_micros()),
        Err(_) => None,
    }
}

/// Calls `NaiveDate::parse_from_str` with `%Y-%m-%d` and takes midnight UTC
/// of that date. The result is the named `bare_date_instant`.
#[verifier::external_body]
fn parse_bare_date(s: &str) -> (r: Option<Micros>)
    ensures
        r == bare_date_instant(s@),
{
    match chrono::NaiveDate::parse_from_str(s, "%Y-%m-%d") {
        Ok(d) => Some(d.and_time(chrono::NaiveTime::MIN).and_utc().timestamp_micros()),
        Err(_) => None,
    }
}

/// The error printed for a date that reads neither way.
pub open spec fn invalid_datetime_text(s: Seq<char>) -> Seq<char> {
    "'"@ + s + "' is not a valid date/time; use RFC 3339 (2026-08-30T14:00:00Z) or a bare date (2026-08-30)"@
}

/// Reads a date flag: a full RFC 3339 timestamp, or a bare date taken as
/// midnight UTC. Typing a full timestamp by hand is needless friction most
/// of the time.
pub fn parse_datetime(s: &str) -> (r: Result<Micros, String>)
    ensures
        match rfc3339_instant(s@) {
            Some(t) => r == Ok::<Micros, String>(t),
            None => match bare_date_instant(s@) {
                Some(t) => r == Ok::<Micros, String>(t),
                None => r matches Err(m) && m@ == invalid_datetime_text(s@),
            },
        },
{
    match parse_rfc3339(s) {
        Some(t) => Ok(t),
        None => match parse_bare_date(s) {
            Some(t) => Ok(t),
            None => {
                let head = str_concat("'", s);
                Err(str_concat(head.as_str(),
                    "' is not a valid date/time; use RFC 3339 (2026-08-30T14:00:00Z) or a bare date (2026-08-30)"))
            },
        },
    }
}

/// The status column of the user listings.
pub fn status_label(suspended_at: Option<Micros>) -> (s: &'static str)
    ensures
        suspended_at is Some ==> s@ == "suspended"@,
        suspended_at is None ==> s@ == "active"@,
{
    if suspended_at.is_some() { "suspended" } else { "active" }
}

/// An optional column, or `-` when absent.
pub fn or_dash(value: Option<&str>) -> (s: String)
    ensures
        s@ == match value { Some(v) => v@, None => "-"@ },
{
    match value {
        Some(v) => String::from_str(v),
        None => String::from_str("-"),
    }
}

/// The reason echoed after an action, or `none`.
pub fn reason_or_none(reason: Option<&str>) -> (s: String)
    ensures
        s@ == match reason { Some(r) => r@, None => "none"@ },
{
    match reason {
        Some(r) => String::from_str(r),
        None => String::from_str("none"),
    }
}

/// How an account is deleted.
#[derive(Debug, Clone, Copy, PartialEq, Eq, Structural)]
pub enum DeletionKind {
    /// Scheduled in 30 days; the data stays exportable until then.
    Standard,
    /// Immediate and final.
    IllicitContent,
    /// Immediate and final.
    SecurityThreat,
}

/// Whether a deletion of this kind happens at once.
pub open spec fn immediate(kind: DeletionKind) -> bool {
    !(kind is Standard)
}

/// The confirmation asked before a deletion of the account `id`.
pub fn deletion_prompt(kind: DeletionKind, id: &str) -> (p: String)
    ensures
        !immediate(kind) ==> p@ == "This schedules user "@ + id@
            + " for deletion in 30 days (data stays exportable until then). Continue?"@,
        immediate(kind) ==> p@ == "This permanently deletes user "@ + id@
            + " immediately and cannot be undone. Continue?"@,
{
    match kind {
        DeletionKind::Standard => {
            let head = str_concat("This schedules user ", id);
            str_concat(head.as_str(), " for deletion in 30 days (data stays exportable until then). Continue?")
        },
        _ => {
            let head = str_concat("This permanently deletes user ", id);
            str_concat(head.as_str(), " immediately and cannot be undone. Continue?")
        },
    }
}

/// What a deletion did, as the console reports it.
pub fn deletion_outcome(kind: DeletionKind) -> (s: &'static str)
    ensures
        !immediate(kind) ==> s@ == "scheduled for deletion in 30 days"@,
        immediate(kind) ==> s@ == "deleted immediately"@,
{
    match kind {
        DeletionKind::Standard => "scheduled for deletion in 30 days",
        _ => "deleted immediately",
    }
}

/// A field of an update: `None` leaves it untouched, `Some(None)` clears
/// it, `Some(Some(v))` sets it. Clearing wins over a value.
pub fn field_update<T>(clear: bool, value: Option<T>) -> (u: Option<Option<T>>)
    ensures
        clear ==> u == Some(None::<T>),
        !clear ==> u == match value { Some(v) => Some(Some(v)), None => None },
{
    if clear {
        Some(None)
    } else {
        match value {
            Some(v) => Some(Some(v)),
            None => None,
        }
    }
}

/// The only export format of the audit log.
pub fn check_export_format(format: &str) -> (r: Result<(), String>)
    ensures
        format@ == "json"@ ==> r is Ok,
        format@ != "json"@ ==> (r matches Err(m) && m@ == "unsupported export format: "@ + format@
            + " (only 'json' is supported)"@),
{
    if crate::text::str_eq(format, "json") {
        Ok(())
    } else {
        let head = str_concat("unsupported export format: ", format);
        Err(str_concat(head.as_str(), " (only 'json' is supported)"))
    }
}

/// What the console prints for a refused change to the blocked list.
pub fn blocked_email_error_message(e: BlockedEmailError) -> (m: Option<&'static str>)
    ensures
        e is NotFound ==> (m matches Some(s) && s@ == "Error: domain not found in the blocked list."@),
        e is DisposableListEntry ==> (m matches Some(s)
            && s@ == "Error: this domain comes from the disposable list, use 'refresh-disposable' instead."@),
        !(e is NotFound || e is DisposableListEntry) ==> m is None,
{
    match e {
        BlockedEmailError::NotFound => Some("Error: domain not found in the blocked list."),
        BlockedEmailError::DisposableListEntry => Some(
            "Error: this domain comes from the disposable list, use 'refresh-disposable' instead.",
        ),
        _ => None,
    }
}

/// What the console prints for an alert that does not exist.
pub fn alert_error_message(e: AlertError) -> (m: Option<&'static str>)
    ensures
        e is NotFound ==> (m matches Some(s) && s@ == "Error: no alert with that id."@),
        !(e is NotFound) ==> m is None,
{
    match e {
        AlertError::NotFound => Some("Error: no alert with that id."),
        _ => None,
    }
}

/// Commands of `email`: the blocked and allowed domain lists.
pub enum EmailCommand {
    /// Block a domain by hand.
    BlockDomain { domain: String, reason: String },
    /// Unblock a domain blocked by hand (refused for entries of the
    /// disposable list).
    UnblockDomain { domain: String },
    ListBlocked,
    AllowDomain { domain: String, reason: String },
    DisallowDomain { domain: String },
    ListAllowed,
    /// Re-seed the disposable-list entries.
    RefreshDisposable,
}

/// Arguments of `email`.
pub struct EmailArgs {
    pub command: EmailCommand,
}

/// Commands of `stats`.
pub enum StatsCommand {
    /// Total registered users.
    Users,
    /// Signups per day over the last `days` days.
    Signups { days: u64 },
}

/// Arguments of `stats`.
pub struct StatsArgs {
    pub command: StatsCommand,
}

/// The window of `stats signups` when none is given, in days.
pub const DEFAULT_SIGNUP_DAYS: u64 = 30;

} // verus!
