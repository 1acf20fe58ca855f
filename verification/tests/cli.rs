use pwnforge::cli::{alert_error_message, blocked_email_error_message};
use pwnforge::errors::{AlertError, BlockedEmailError};
use pwnforge::cli::{
    check_export_format, classify_identifier, deletion_outcome, deletion_prompt, field_update, no_user_matching,
    or_dash, parse_datetime, reason_or_none, status_label, DeletionKind, UserLookup,
};

#[test]
fn identifiers_are_uuids_first() {
    assert!(matches!(
        classify_identifier("01900000-0000-7000-8000-000000000001"),
        UserLookup::Id(0x0190_0000_0000_7000_8000_0000_0000_0001)
    ));
    assert!(matches!(classify_identifier(" Bob@EXAMPLE.com"), UserLookup::Email(e) if e == "Bob@example.com"));
    assert!(matches!(classify_identifier("bob"), UserLookup::Username(u) if u == "bob"));
    assert_eq!(no_user_matching("bob"), "no user matching 'bob'");
}

#[test]
fn dates_read_as_rfc3339_or_bare() {
    assert_eq!(parse_datetime("1970-01-01T00:00:01Z"), Ok(1_000_000));
    assert_eq!(parse_datetime("1970-01-02"), Ok(86_400_000_000));
    assert_eq!(parse_datetime("2026-08-30T16:00:00+02:00"), parse_datetime("2026-08-30T14:00:00Z"));
    assert_eq!(
        parse_datetime("tomorrow"),
        Err("'tomorrow' is not a valid date/time; use RFC 3339 (2026-08-30T14:00:00Z) or a bare date (2026-08-30)".to_string())
    );
}

#[test]
fn console_texts() {
    assert_eq!(status_label(Some(1)), "suspended");
    assert_eq!(status_label(None), "active");
    assert_eq!(or_dash(None), "-");
    assert_eq!(or_dash(Some("x")), "x");
    assert_eq!(reason_or_none(None), "none");
    assert_eq!(
        deletion_prompt(DeletionKind::Standard, "u1"),
        "This schedules user u1 for deletion in 30 days (data stays exportable until then). Continue?"
    );
    assert_eq!(
        deletion_prompt(DeletionKind::SecurityThreat, "u1"),
        "This permanently deletes user u1 immediately and cannot be undone. Continue?"
    );
    assert_eq!(deletion_outcome(DeletionKind::IllicitContent), "deleted immediately");
    assert_eq!(deletion_outcome(DeletionKind::Standard), "scheduled for deletion in 30 days");
}

#[test]
fn update_fields() {
    assert_eq!(field_update(true, Some("x")), Some(None));
    assert_eq!(field_update(false, Some("x")), Some(Some("x")));
    assert_eq!(field_update::<&str>(false, None), None);
}

#[test]
fn export_format() {
    assert!(check_export_format("json").is_ok());
    assert_eq!(
        check_export_format("csv"),
        Err("unsupported export format: csv (only 'json' is supported)".to_string())
    );
}

#[test]
fn console_error_messages() {
    assert_eq!(
        blocked_email_error_message(BlockedEmailError::NotFound),
        Some("Error: domain not found in the blocked list.")
    );
    assert_eq!(
        blocked_email_error_message(BlockedEmailError::DisposableListEntry),
        Some("Error: this domain comes from the disposable list, use 'refresh-disposable' instead.")
    );
    assert_eq!(blocked_email_error_message(BlockedEmailError::Db), None);
    assert_eq!(alert_error_message(AlertError::NotFound), Some("Error: no alert with that id."));
    assert_eq!(alert_error_message(AlertError::Db), None);
}
