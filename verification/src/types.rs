//! Closed sets of values stored as text in the database.
use vstd::prelude::*;
use crate::text::str_eq;

verus! {

/// Where a blocked email domain comes from.
#[derive(Debug, Clone, Copy, PartialEq, Eq, Structural)]
pub enum BlockSource {
    Manual,
    DisposableList,
}

impl BlockSource {
    pub open spec fn text(self) -> Seq<char> {
        match self {
            BlockSource::Manual => "manual"@,
            BlockSource::DisposableList => "disposable-list"@,
        }
    }

    pub fn as_str(self) -> (s: &'static str)
        ensures
            s@ == self.text(),
    {
        match self {
            BlockSource::Manual => "manual",
            BlockSource::DisposableList => "disposable-list",
        }
    }
}

/// Where a reserved username comes from.
#[derive(Debug, Clone, Copy, PartialEq, Eq, Structural)]
pub enum ReservedSource {
    Manual,
    ReservedList,
}

impl ReservedSource {
    pub open spec fn text(self) -> Seq<char> {
        match self {
            ReservedSource::Manual => "manual"@,
            ReservedSource::ReservedList => "reserved-list"@,
        }
    }

    pub fn as_str(self) -> (s: &'static str)
        ensures
            s@ == self.text(),
    {
        match self {
            ReservedSource::Manual => "manual",
            ReservedSource::ReservedList => "reserved-list",
        }
    }
}

/// Why a refresh token stopped being usable.
#[derive(Debug, Clone, Copy, PartialEq, Eq, Structural)]
pub enum RevokedReason {
    Rotated,
    UserLogout,
    ReuseDetected,
    PasswordReset,
    PasswordChange,
    AdminRevoked,
    AdminForcePasswordReset,
}

impl RevokedReason {
    pub open spec fn text(&self) -> Seq<char> {
        match self {
            Self::Rotated => "rotated"@,
            Self::UserLogout => "user_logout"@,
            Self::ReuseDetected => "reuse_detected"@,
            Self::PasswordReset => "password_reset"@,
            Self::PasswordChange => "password_change"@,
            Self::AdminRevoked => "admin_revoked"@,
            Self::AdminForcePasswordReset => "admin_force_password_reset"@,
        }
    }

    pub fn as_str(&self) -> (s: &'static str)
        ensures
            s@ == self.text(),
    {
        match self {
            Self::Rotated => "rotated",
            Self::UserLogout => "user_logout",
            Self::ReuseDetected => "reuse_detected",
            Self::PasswordReset => "password_reset",
            Self::PasswordChange => "password_change",
            Self::AdminRevoked => "admin_revoked",
            Self::AdminForcePasswordReset => "admin_force_password_reset",
        }
    }
}

/// Purpose of a single-use emailed token.
#[derive(Debug, Clone, Copy, PartialEq, Eq, Structural)]
pub enum TokenKind {
    EmailVerification,
    PasswordReset,
}

impl TokenKind {
    pub open spec fn text(&self) -> Seq<char> {
        match self {
            TokenKind::EmailVerification => "email_verification"@,
            TokenKind::PasswordReset => "password_reset"@,
        }
    }

    pub fn as_str(&self) -> (s: &'static str)
        ensures
            s@ == self.text(),
    {
        match self {
            TokenKind::EmailVerification => "email_verification",
            TokenKind::PasswordReset => "password_reset",
        }
    }
}

/// Canonical action names for the instance audit log. An enum rather than
/// free strings so a typo cannot silently create a new action nobody
/// queries for.
#[derive(Debug, Clone, Copy, PartialEq, Eq, Structural)]
pub enum AuditAction {
    UserSuspend,
    UserUnsuspend,
    UserDeleteByAdmin,
    UserDeletionScheduled,
    UserPurged,
    UserDeletionCancelled,
    UserPromoteAdmin,
    UserDemoteAdmin,
    UserPasswordResetForce,
    UserSessionsRevokeAll,
    AuthRefreshReuseDetected,
    SignupDisposableBlocked,
    SignupRateLimited,
    InstanceSetupCompleted,
    AlertCreated,
    AlertUpdated,
    AlertDeleted,
}

impl AuditAction {
    pub open spec fn text(self) -> Seq<char> {
        match self {
            Self::UserSuspend => "user.suspend"@,
            Self::UserUnsuspend => "user.unsuspend"@,
            Self::UserDeleteByAdmin => "user.delete_by_admin"@,
            Self::UserDeletionScheduled => "user.deletion_scheduled"@,
            Self::UserPurged => "user.purged"@,
            Self::UserDeletionCancelled => "user.deletion_cancelled"@,
            Self::UserPromoteAdmin => "user.promote_admin"@,
            Self::UserDemoteAdmin => "user.demote_admin"@,
            Self::UserPasswordResetForce => "user.password_reset_force"@,
            Self::UserSessionsRevokeAll => "user.sessions_revoke_all"@,
            Self::AuthRefreshReuseDetected => "auth.refresh_reuse_detected"@,
            Self::SignupDisposableBlocked => "signup.disposable_blocked"@,
            Self::SignupRateLimited => "signup.rate_limited"@,
            Self::InstanceSetupCompleted => "instance.setup_completed"@,
            Self::AlertCreated => "alert.created"@,
            Self::AlertUpdated => "alert.updated"@,
            Self::AlertDeleted => "alert.deleted"@,
        }
    }

    pub fn as_str(self) -> (s: &'static str)
        ensures
            s@ == self.text(),
    {
        match self {
            Self::UserSuspend => "user.suspend",
            Self::UserUnsuspend => "user.unsuspend",
            Self::UserDeleteByAdmin => "user.delete_by_admin",
            Self::UserDeletionScheduled => "user.deletion_scheduled",
            Self::UserPurged => "user.purged",
            Self::UserDeletionCancelled => "user.deletion_cancelled",
            Self::UserPromoteAdmin => "user.promote_admin",
            Self::UserDemoteAdmin => "user.demote_admin",
            Self::UserPasswordResetForce => "user.password_reset_force",
            Self::UserSessionsRevokeAll => "user.sessions_revoke_all",
            Self::AuthRefreshReuseDetected => "auth.refresh_reuse_detected",
            Self::SignupDisposableBlocked => "signup.disposable_blocked",
            Self::SignupRateLimited => "signup.rate_limited",
            Self::InstanceSetupCompleted => "instance.setup_completed",
            Self::AlertCreated => "alert.created",
            Self::AlertUpdated => "alert.updated",
            Self::AlertDeleted => "alert.deleted",
        }
    }
}

/// Severity of an instance-wide banner alert.
#[derive(Debug, Clone, Copy, PartialEq, Eq, Structural)]
pub enum AlertKind {
    Info,
    Warning,
    Danger,
    Maintenance,
}

impl AlertKind {
    pub open spec fn text(self) -> Seq<char> {
        match self {
            AlertKind::Info => "info"@,
            AlertKind::Warning => "warning"@,
            AlertKind::Danger => "danger"@,
            AlertKind::Maintenance => "maintenance"@,
        }
    }

    /// The kind whose text is `s`, if there is one.
    pub open spec fn from_text(s: Seq<char>) -> Option<AlertKind> {
        if s == "info"@ {
            Some(AlertKind::Info)
        } else if s == "warning"@ {
            Some(AlertKind::Warning)
        } else if s == "danger"@ {
            Some(AlertKind::Danger)
        } else if s == "maintenance"@ {
            Some(AlertKind::Maintenance)
        } else {
            None
        }
    }

    pub fn as_str(self) -> (s: &'static str)
        ensures
            s@ == self.text(),
    {
        match self {
            AlertKind::Info => "info",
            AlertKind::Warning => "warning",
            AlertKind::Danger => "danger",
            AlertKind::Maintenance => "maintenance",
        }
    }

    pub fn parse(s: &str) -> (r: Option<Self>)
        ensures
            r == Self::from_text(s@),
    {
        if str_eq(s, "info") {
            Some(AlertKind::Info)
        } else if str_eq(s, "warning") {
            Some(AlertKind::Warning)
        } else if str_eq(s, "danger") {
            Some(AlertKind::Danger)
        } else if str_eq(s, "maintenance") {
            Some(AlertKind::Maintenance)
        } else {
            None
        }
    }
}

/// Topic chosen on the public contact form.
#[derive(Debug, Clone, Copy, PartialEq, Eq, Structural)]
pub enum ContactCategory {
    General,
    SelfHosting,
    Billing,
    Press,
    Other,
}

impl ContactCategory {
    pub open spec fn text(self) -> Seq<char> {
        match self {
            Self::General => "General question"@,
            Self::SelfHosting => "Self-hosting help"@,
            Self::Billing => "Billing & sales"@,
            Self::Press => "Press & partnerships"@,
            Self::Other => "Other"@,
        }
    }

    pub fn as_str(self) -> (s: &'static str)
        ensures
            s@ == self.text(),
    {
        match self {
            Self::General => "General question",
            Self::SelfHosting => "Self-hosting help",
            Self::Billing => "Billing & sales",
            Self::Press => "Press & partnerships",
            Self::Other => "Other",
        }
    }
}

/// Parsing the text of an alert kind gives that kind back.
pub proof fn alert_kind_round_trip(k: AlertKind)
    ensures
        AlertKind::from_text(k.text()) == Some(k),
{
    reveal_strlit("info");
    reveal_strlit("warning");
    reveal_strlit("danger");
    reveal_strlit("maintenance");
    assert("info"@.len() == 4);
    assert("warning"@.len() == 7);
    assert("danger"@.len() == 6);
    assert("maintenance"@.len() == 11);
}


impl AuditAction {
    /// The action recorded under `s`, if any.
    pub open spec fn from_text(s: Seq<char>) -> Option<AuditAction> {
        if s == "user.suspend"@ {
            Some(AuditAction::UserSuspend)
        } else if s == "user.unsuspend"@ {
            Some(AuditAction::UserUnsuspend)
        } else if s == "user.delete_by_admin"@ {
            Some(AuditAction::UserDeleteByAdmin)
        } else if s == "user.deletion_scheduled"@ {
            Some(AuditAction::UserDeletionScheduled)
        } else if s == "user.purged"@ {
            Some(AuditAction::UserPurged)
        } else if s == "user.deletion_cancelled"@ {
            Some(AuditAction::UserDeletionCancelled)
        } else if s == "user.promote_admin"@ {
            Some(AuditAction::UserPromoteAdmin)
        } else if s == "user.demote_admin"@ {
            Some(AuditAction::UserDemoteAdmin)
        } else if s == "user.password_reset_force"@ {
            Some(AuditAction::UserPasswordResetForce)
        } else if s == "user.sessions_revoke_all"@ {
            Some(AuditAction::UserSessionsRevokeAll)
        } else if s == "auth.refresh_reuse_detected"@ {
            Some(AuditAction::AuthRefreshReuseDetected)
        } else if s == "signup.disposable_blocked"@ {
            Some(AuditAction::SignupDisposableBlocked)
        } else if s == "signup.rate_limited"@ {
            Some(AuditAction::SignupRateLimited)
        } else if s == "instance.setup_completed"@ {
            Some(AuditAction::InstanceSetupCompleted)
        } else if s == "alert.created"@ {
            Some(AuditAction::AlertCreated)
        } else if s == "alert.updated"@ {
            Some(AuditAction::AlertUpdated)
        } else if s == "alert.deleted"@ {
            Some(AuditAction::AlertDeleted)
        } else {
            None
        }
    }
}

/// Reading back the name an action is recorded under gives that action, so
/// distinct actions never share a name and a query for one never picks up
/// another.
#[verifier::rlimit(50)]
pub proof fn audit_action_round_trip(a: AuditAction)
    ensures
        AuditAction::from_text(a.text()) == Some(a),
{
    reveal_strlit("user.suspend");
    reveal_strlit("user.unsuspend");
    reveal_strlit("user.delete_by_admin");
    reveal_strlit("user.deletion_scheduled");
    reveal_strlit("user.purged");
    reveal_strlit("user.deletion_cancelled");
    reveal_strlit("user.promote_admin");
    reveal_strlit("user.demote_admin");
    reveal_strlit("user.password_reset_force");
    reveal_strlit("user.sessions_revoke_all");
    reveal_strlit("auth.refresh_reuse_detected");
    reveal_strlit("signup.disposable_blocked");
    reveal_strlit("signup.rate_limited");
    reveal_strlit("instance.setup_completed");
    reveal_strlit("alert.created");
    reveal_strlit("alert.updated");
    reveal_strlit("alert.deleted");
    assert("user.suspend"@.len() == 12);
    assert("user.unsuspend"@.len() == 14);
    assert("user.delete_by_admin"@.len() == 20);
    assert("user.deletion_scheduled"@.len() == 23);
    assert("user.purged"@.len() == 11);
    assert("user.deletion_cancelled"@.len() == 23);
    assert("user.promote_admin"@.len() == 18);
    assert("user.demote_admin"@.len() == 17);
    assert("user.password_reset_force"@.len() == 25);
    assert("user.sessions_revoke_all"@.len() == 24);
    assert("auth.refresh_reuse_detected"@.len() == 27);
    assert("signup.disposable_blocked"@.len() == 25);
    assert("signup.rate_limited"@.len() == 19);
    assert("instance.setup_completed"@.len() == 24);
    assert("alert.created"@.len() == 13);
    assert("alert.updated"@.len() == 13);
    assert("alert.deleted"@.len() == 13);
    assert("user.deletion_scheduled"@[14] != "user.deletion_cancelled"@[14]);
    assert("user.password_reset_force"@[0] != "signup.disposable_blocked"@[0]);
    assert("user.sessions_revoke_all"@[0] != "instance.setup_completed"@[0]);
    assert("alert.created"@[6] != "alert.updated"@[6]);
    assert("alert.created"@[6] != "alert.deleted"@[6]);
    assert("alert.updated"@[6] != "alert.deleted"@[6]);
}

/// Distinct actions are recorded under distinct names.
pub proof fn audit_action_names_are_distinct(a: AuditAction, b: AuditAction)
    requires
        a.text() == b.text(),
    ensures
        a == b,
{
    audit_action_round_trip(a);
    audit_action_round_trip(b);
}

/// Whether `c` may stand in the scope or the name of an audit action: a
/// lowercase ASCII letter or `_`.
pub open spec fn is_name_char(c: char) -> bool {
    ('a' <= c && c <= 'z') || c == '_'
}

/// Whether `s` reads `scope.name`: one `.`, neither first nor last, and
/// every other character a lowercase letter or `_`.
pub open spec fn scoped_name(s: Seq<char>) -> bool {
    exists|i: int| #![trigger s[i]] 0 < i < s.len() - 1 && s[i] == '.'
        && forall|j: int| 0 <= j < s.len() && j != i ==> #[trigger] is_name_char(s[j])
}

/// Every action is recorded under a name of the form `scope.name`: exactly
/// one `.`, neither first nor last, and only lowercase letters and `_` on
/// either side of it.
#[verifier::rlimit(50)]
pub proof fn audit_action_names_are_scoped(a: AuditAction)
    ensures
        scoped_name(a.text()),
{
    match a {
        AuditAction::UserSuspend => {
            reveal_strlit("user.suspend");
            let s = "user.suspend"@;
            assert(s.len() == 12 && s[4] == '.');
            assert forall|j: int| 0 <= j < s.len() && j != 4 implies #[trigger] is_name_char(s[j]) by {}
        },
        AuditAction::UserUnsuspend => {
            reveal_strlit("user.unsuspend");
            let s = "user.unsuspend"@;
            assert(s.len() == 14 && s[4] == '.');
            assert forall|j: int| 0 <= j < s.len() && j != 4 implies #[trigger] is_name_char(s[j]) by {}
        },
        AuditAction::UserDeleteByAdmin => {
            reveal_strlit("user.delete_by_admin");
            let s = "user.delete_by_admin"@;
            assert(s.len() == 20 && s[4] == '.');
            assert forall|j: int| 0 <= j < s.len() && j != 4 implies #[trigger] is_name_char(s[j]) by {}
        },
        AuditAction::UserDeletionScheduled => {
            reveal_strlit("user.deletion_scheduled");
            let s = "user.deletion_scheduled"@;
            assert(s.len() == 23 && s[4] == '.');
            assert forall|j: int| 0 <= j < s.len() && j != 4 implies #[trigger] is_name_char(s[j]) by {}
        },
        AuditAction::UserPurged => {
            reveal_strlit("user.purged");
            let s = "user.purged"@;
            assert(s.len() == 11 && s[4] == '.');
            assert forall|j: int| 0 <= j < s.len() && j != 4 implies #[trigger] is_name_char(s[j]) by {}
        },
        AuditAction::UserDeletionCancelled => {
            reveal_strlit("user.deletion_cancelled");
            let s = "user.deletion_cancelled"@;
            assert(s.len() == 23 && s[4] == '.');
            assert forall|j: int| 0 <= j < s.len() && j != 4 implies #[trigger] is_name_char(s[j]) by {}
        },
        AuditAction::UserPromoteAdmin => {
            reveal_strlit("user.promote_admin");
            let s = "user.promote_admin"@;
            assert(s.len() == 18 && s[4] == '.');
            assert forall|j: int| 0 <= j < s.len() && j != 4 implies #[trigger] is_name_char(s[j]) by {}
        },
        AuditAction::UserDemoteAdmin => {
            reveal_strlit("user.demote_admin");
            let s = "user.demote_admin"@;
            assert(s.len() == 17 && s[4] == '.');
            assert forall|j: int| 0 <= j < s.len() && j != 4 implies #[trigger] is_name_char(s[j]) by {}
        },
        AuditAction::UserPasswordResetForce => {
            reveal_strlit("user.password_reset_force");
            let s = "user.password_reset_force"@;
            assert(s.len() == 25 && s[4] == '.');
            assert forall|j: int| 0 <= j < s.len() && j != 4 implies #[trigger] is_name_char(s[j]) by {}
        },
        AuditAction::UserSessionsRevokeAll => {
            reveal_strlit("user.sessions_revoke_all");
            let s = "user.sessions_revoke_all"@;
            assert(s.len() == 24 && s[4] == '.');
            assert forall|j: int| 0 <= j < s.len() && j != 4 implies #[trigger] is_name_char(s[j]) by {}
        },
        AuditAction::AuthRefreshReuseDetected => {
            reveal_strlit("auth.refresh_reuse_detected");
            let s = "auth.refresh_reuse_detected"@;
            assert(s.len() == 27 && s[4] == '.');
            assert forall|j: int| 0 <= j < s.len() && j != 4 implies #[trigger] is_name_char(s[j]) by {}
        },
        AuditAction::SignupDisposableBlocked => {
            reveal_strlit("signup.disposable_blocked");
            let s = "signup.disposable_blocked"@;
            assert(s.len() == 25 && s[6] == '.');
            assert forall|j: int| 0 <= j < s.len() && j != 6 implies #[trigger] is_name_char(s[j]) by {}
        },
        AuditAction::SignupRateLimited => {
            reveal_strlit("signup.rate_limited");
            let s = "signup.rate_limited"@;
            assert(s.len() == 19 && s[6] == '.');
            assert forall|j: int| 0 <= j < s.len() && j != 6 implies #[trigger] is_name_char(s[j]) by {}
        },
        AuditAction::InstanceSetupCompleted => {
            reveal_strlit("instance.setup_completed");
            let s = "instance.setup_completed"@;
            assert(s.len() == 24 && s[8] == '.');
            assert forall|j: int| 0 <= j < s.len() && j != 8 implies #[trigger] is_name_char(s[j]) by {}
        },
        AuditAction::AlertCreated => {
            reveal_strlit("alert.created");
            let s = "alert.created"@;
            assert(s.len() == 13 && s[5] == '.');
            assert forall|j: int| 0 <= j < s.len() && j != 5 implies #[trigger] is_name_char(s[j]) by {}
        },
        AuditAction::AlertUpdated => {
            reveal_strlit("alert.updated");
            let s = "alert.updated"@;
            assert(s.len() == 13 && s[5] == '.');
            assert forall|j: int| 0 <= j < s.len() && j != 5 implies #[trigger] is_name_char(s[j]) by {}
        },
        AuditAction::AlertDeleted => {
            reveal_strlit("alert.deleted");
            let s = "alert.deleted"@;
            assert(s.len() == 13 && s[5] == '.');
            assert forall|j: int| 0 <= j < s.len() && j != 5 implies #[trigger] is_name_char(s[j]) by {}
        },
    }
}

impl RevokedReason {
    /// The reason recorded as `s`, if any.
    pub open spec fn from_text(s: Seq<char>) -> Option<RevokedReason> {
        if s == "rotated"@ {
            Some(RevokedReason::Rotated)
        } else if s == "user_logout"@ {
            Some(RevokedReason::UserLogout)
        } else if s == "reuse_detected"@ {
            Some(RevokedReason::ReuseDetected)
        } else if s == "password_reset"@ {
            Some(RevokedReason::PasswordReset)
        } else if s == "password_change"@ {
            Some(RevokedReason::PasswordChange)
        } else if s == "admin_revoked"@ {
            Some(RevokedReason::AdminRevoked)
        } else if s == "admin_force_password_reset"@ {
            Some(RevokedReason::AdminForcePasswordReset)
        } else {
            None
        }
    }
}

/// Reading back the text a reason is recorded as gives that reason: a token
/// revoked for one reason is never taken for one revoked for another.
pub proof fn revoked_reason_round_trip(r: RevokedReason)
    ensures
        RevokedReason::from_text(r.text()) == Some(r),
{
    reveal_strlit("rotated");
    reveal_strlit("user_logout");
    reveal_strlit("reuse_detected");
    reveal_strlit("password_reset");
    reveal_strlit("password_change");
    reveal_strlit("admin_revoked");
    reveal_strlit("admin_force_password_reset");
    assert("rotated"@.len() == 7);
    assert("user_logout"@.len() == 11);
    assert("reuse_detected"@.len() == 14);
    assert("password_reset"@.len() == 14);
    assert("password_change"@.len() == 15);
    assert("admin_revoked"@.len() == 13);
    assert("admin_force_password_reset"@.len() == 26);
    assert("reuse_detected"@[0] != "password_reset"@[0]);
}

} // verus!
