use pwnforge::legal::{AcceptanceMethod, LegalDocument, CURRENT_PRIVACY_VERSION, CURRENT_TERMS_VERSION};
use pwnforge::dto::legal::current_versions;
use pwnforge::types::{AlertKind, AuditAction, BlockSource, ContactCategory, ReservedSource, RevokedReason, TokenKind};

#[test]
fn stored_texts() {
    assert_eq!(BlockSource::Manual.as_str(), "manual");
    assert_eq!(BlockSource::DisposableList.as_str(), "disposable-list");
    assert_eq!(ReservedSource::ReservedList.as_str(), "reserved-list");
    assert_eq!(RevokedReason::Rotated.as_str(), "rotated");
    assert_eq!(RevokedReason::AdminForcePasswordReset.as_str(), "admin_force_password_reset");
    assert_eq!(TokenKind::EmailVerification.as_str(), "email_verification");
    assert_eq!(AuditAction::AuthRefreshReuseDetected.as_str(), "auth.refresh_reuse_detected");
    assert_eq!(AuditAction::UserSuspend.as_str(), "user.suspend");
    assert_eq!(ContactCategory::Billing.as_str(), "Billing & sales");
}

#[test]
fn alert_kinds_round_trip() {
    for k in [AlertKind::Info, AlertKind::Warning, AlertKind::Danger, AlertKind::Maintenance] {
        assert_eq!(AlertKind::parse(k.as_str()), Some(k));
    }
    assert_eq!(AlertKind::parse("INFO"), None);
    assert_eq!(AlertKind::parse(""), None);
}

#[test]
fn legal_documents() {
    for d in LegalDocument::all() {
        assert_eq!(LegalDocument::parse(d.as_str()), Some(d));
        assert!(d.is_valid(d.current_version()));
        assert_eq!(d.valid_versions(), vec!["1.0"]);
    }
    assert_eq!(LegalDocument::parse("cookies"), None);
    assert!(!LegalDocument::Terms.is_valid("0.9"));
    assert_eq!(AcceptanceMethod::Explicit.as_str(), "explicit");
    assert_eq!(AcceptanceMethod::Operator.as_str(), "operator");
    let v = current_versions();
    assert_eq!((v.terms_version, v.privacy_version), (CURRENT_TERMS_VERSION, CURRENT_PRIVACY_VERSION));
}

#[test]
fn audit_action_names_are_unique() {
    let all = [
        AuditAction::UserSuspend, AuditAction::UserUnsuspend, AuditAction::UserDeleteByAdmin,
        AuditAction::UserDeletionScheduled, AuditAction::UserPurged, AuditAction::UserDeletionCancelled,
        AuditAction::UserPromoteAdmin, AuditAction::UserDemoteAdmin, AuditAction::UserPasswordResetForce,
        AuditAction::UserSessionsRevokeAll, AuditAction::AuthRefreshReuseDetected,
        AuditAction::SignupDisposableBlocked, AuditAction::SignupRateLimited,
        AuditAction::InstanceSetupCompleted, AuditAction::AlertCreated, AuditAction::AlertUpdated,
        AuditAction::AlertDeleted,
    ];
    let mut names: Vec<&str> = all.iter().map(|a| a.as_str()).collect();
    names.sort();
    names.dedup();
    assert_eq!(names.len(), all.len());
}

#[test]
fn audit_action_names_read_scope_dot_name() {
    let all = [
        AuditAction::UserSuspend, AuditAction::UserUnsuspend, AuditAction::UserDeleteByAdmin,
        AuditAction::UserDeletionScheduled, AuditAction::UserPurged, AuditAction::UserDeletionCancelled,
        AuditAction::UserPromoteAdmin, AuditAction::UserDemoteAdmin, AuditAction::UserPasswordResetForce,
        AuditAction::UserSessionsRevokeAll, AuditAction::AuthRefreshReuseDetected,
        AuditAction::SignupDisposableBlocked, AuditAction::SignupRateLimited,
        AuditAction::InstanceSetupCompleted, AuditAction::AlertCreated, AuditAction::AlertUpdated,
        AuditAction::AlertDeleted,
    ];
    for a in all {
        let name = a.as_str();
        let parts: Vec<&str> = name.split('.').collect();
        assert_eq!(parts.len(), 2, "{name}");
        for part in parts {
            assert!(!part.is_empty(), "{name}");
            assert!(part.chars().all(|c| c.is_ascii_lowercase() || c == '_'), "{name}");
        }
    }
}
