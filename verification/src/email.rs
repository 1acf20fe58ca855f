//! Outgoing mail: what each message is made of, where its links point, and
//! how the configured backend's answer is read.
//!
//! The wording lives in per-locale message catalogs and the layout in templates;
//! a message names its texts by key, and the sender renders them in the
//! recipient's locale.
use vstd::prelude::*;
use crate::config::SmtpTls;
use crate::entities::Micros;
use crate::errors::EmailError;
use vstd::string::StrSliceExecFns;
use crate::text::str_concat;

verus! {

/// Which security alert a mail reports.
#[derive(Debug, Clone, Copy, PartialEq, Eq, Structural)]
pub enum AlertKind {
    PasswordChanged,
    PasswordReset,
}

impl AlertKind {
    pub open spec fn subject_text(self) -> Seq<char> {
        match self {
            AlertKind::PasswordChanged => "email.security_alert.password_changed.subject"@,
            AlertKind::PasswordReset => "email.security_alert.password_reset.subject"@,
        }
    }

    pub open spec fn body_text(self) -> Seq<char> {
        match self {
            AlertKind::PasswordChanged => "email.security_alert.password_changed.body"@,
            AlertKind::PasswordReset => "email.security_alert.password_reset.body"@,
        }
    }

    /// The catalog key of the alert's subject line.
    pub fn subject_key(self) -> (k: &'static str)
        ensures
            k@ == self.subject_text(),
    {
        match self {
            AlertKind::PasswordChanged => "email.security_alert.password_changed.subject",
            AlertKind::PasswordReset => "email.security_alert.password_reset.subject",
        }
    }

    /// The catalog key of the alert's body.
    pub fn body_key(self) -> (k: &'static str)
        ensures
            k@ == self.body_text(),
    {
        match self {
            AlertKind::PasswordChanged => "email.security_alert.password_changed.body",
            AlertKind::PasswordReset => "email.security_alert.password_reset.body",
        }
    }
}

/// The page a password reset link opens.
pub const PASSWORD_RESET_PATH: &'static str = "/auth/password/reset?token=";
/// The page an address verification link opens.
pub const EMAIL_VERIFICATION_PATH: &'static str = "/auth/email/verify?token=";

/// The link mailed for a password reset: the instance's public address, the
/// reset page, and the token.
pub fn password_reset_link(public_url: &str, token: &str) -> (link: String)
    ensures
        link@ == public_url@ + PASSWORD_RESET_PATH@ + token@,
{
    let head = str_concat(public_url, PASSWORD_RESET_PATH);
    str_concat(head.as_str(), token)
}

/// The link mailed to verify an address.
pub fn email_verification_link(public_url: &str, token: &str) -> (link: String)
    ensures
        link@ == public_url@ + EMAIL_VERIFICATION_PATH@ + token@,
{
    let head = str_concat(public_url, EMAIL_VERIFICATION_PATH);
    str_concat(head.as_str(), token)
}

/// The catalog keys of a mail carrying a link.
pub struct LinkMailKeys {
    pub subject: &'static str,
    pub greeting: &'static str,
    pub body: &'static str,
    pub cta: &'static str,
    pub expiry: &'static str,
    pub ignore_notice: &'static str,
    pub footer: &'static str,
}

pub open spec fn link_mail_keys_view(k: LinkMailKeys) -> Seq<Seq<char>> {
    seq![k.subject@, k.greeting@, k.body@, k.cta@, k.expiry@, k.ignore_notice@, k.footer@]
}

/// The texts of the password reset mail.
pub fn password_reset_keys() -> (k: LinkMailKeys)
    ensures
        link_mail_keys_view(k) == seq![
            "email.password_reset.subject"@, "email.common.greeting"@, "email.password_reset.body"@,
            "email.password_reset.cta"@, "email.password_reset.expiry"@, "email.common.ignore_notice"@,
            "email.common.footer"@,
        ],
{
    LinkMailKeys {
        subject: "email.password_reset.subject",
        greeting: "email.common.greeting",
        body: "email.password_reset.body",
        cta: "email.password_reset.cta",
        expiry: "email.password_reset.expiry",
        ignore_notice: "email.common.ignore_notice",
        footer: "email.common.footer",
    }
}

/// The texts of the address verification mail.
pub fn email_verification_keys() -> (k: LinkMailKeys)
    ensures
        link_mail_keys_view(k) == seq![
            "email.email_verification.subject"@, "email.common.greeting"@, "email.email_verification.body"@,
            "email.email_verification.cta"@, "email.email_verification.expiry"@, "email.common.ignore_notice"@,
            "email.common.footer"@,
        ],
{
    LinkMailKeys {
        subject: "email.email_verification.subject",
        greeting: "email.common.greeting",
        body: "email.email_verification.body",
        cta: "email.email_verification.cta",
        expiry: "email.email_verification.expiry",
        ignore_notice: "email.common.ignore_notice",
        footer: "email.common.footer",
    }
}

/// A detail row of a security alert: the value, or the localized
/// placeholder when it is absent. A blank row reads as a rendering bug, not
/// as missing information.
pub fn or_unknown(value: Option<&str>, unknown: &str) -> (s: String)
    ensures
        s@ == match value {
            Some(v) => v@,
            None => unknown@,
        },
{
    match value {
        Some(v) => String::from_str(v),
        None => String::from_str(unknown),
    }
}

/// The instant `t`, to the minute, in UTC, as `YYYY-MM-DD HH:MM UTC`, or
/// `None` where `chrono` has no date for it.
pub uninterp spec fn utc_minute_text(t: Micros) -> Option<Seq<char>>;

/// Reads `t` as microseconds since the epoch with
/// `DateTime::from_timestamp_micros`, and formats the instant with
/// `chrono`'s `%Y-%m-%d %H:%M UTC` pattern. `from_timestamp_micros` answers
/// `None` only for a day count outside `chrono`'s dates, years -262142 to
/// 262142; any `t` within 2^62 microseconds of the epoch (about 146 000
/// years) is well inside them. The text is the named `utc_minute_text`.
#[verifier::external_body]
pub fn format_utc_minute(t: Micros) -> (s: Option<String>)
    ensures
        match s {
            Some(x) => utc_minute_text(t) == Some(x@),
            None => utc_minute_text(t) is None,
        },
        -0x4000_0000_0000_0000 <= t <= 0x4000_0000_0000_0000 ==> s is Some,
{
    match chrono::DateTime::from_timestamp_micros(t) {
        Some(d) => Some(d.format("%Y-%m-%d %H:%M UTC").to_string()),
        None => None,
    }
}

/// The subject of the transport test mail. Plain and in English only, on
/// purpose: it only has to prove that the transport works, and the operator
/// has not picked a locale yet.
pub const TEST_EMAIL_SUBJECT: &'static str = "PwnForge test email";
pub const TEST_EMAIL_HTML: &'static str = "<p>Your PwnForge instance can send email.</p>";
pub const TEST_EMAIL_TEXT: &'static str = "Your PwnForge instance can send email.";

/// What the console backend prints for a mail, so that local development
/// never touches a provider and links show up in the logs.
pub fn console_message(to: &str, subject: &str, text: &str) -> (s: String)
    ensures
        s@ == "\n=== EMAIL to "@ + to@ + " ===\n"@ + subject@ + "\n\n"@ + text@ + "\n=== END ===\n"@,
{
    let a = str_concat("\n=== EMAIL to ", to);
    let b = str_concat(a.as_str(), " ===\n");
    let c = str_concat(b.as_str(), subject);
    let d = str_concat(c.as_str(), "\n\n");
    let e = str_concat(d.as_str(), text);
    str_concat(e.as_str(), "\n=== END ===\n")
}

/// Reads the answer of the HTTP provider: any 2xx status is a delivery,
/// anything else a rejection carrying the provider's body.
pub fn provider_answer(status: u16, body: String) -> (r: Result<(), EmailError>)
    ensures
        (200 <= status <= 299) ==> r is Ok,
        !(200 <= status <= 299) ==> (r matches Err(EmailError::Rejected(b)) && b == body),
{
    if 200 <= status && status <= 299 {
        Ok(())
    } else {
        Err(EmailError::Rejected(body))
    }
}

/// How the SMTP connection is opened.
#[derive(Debug, Clone, Copy, PartialEq, Eq, Structural)]
pub enum SmtpConnection {
    /// TLS from the first byte.
    Relay,
    /// Plain connection upgraded with STARTTLS.
    StartTlsRelay,
    /// No TLS at all.
    Plain,
}

pub fn smtp_connection(tls: SmtpTls) -> (c: SmtpConnection)
    ensures
        tls is Implicit ==> c is Relay,
        tls is StartTls ==> c is StartTlsRelay,
        tls is NoTls ==> c is Plain,
{
    match tls {
        SmtpTls::Implicit => SmtpConnection::Relay,
        SmtpTls::StartTls => SmtpConnection::StartTlsRelay,
        SmtpTls::NoTls => SmtpConnection::Plain,
    }
}

/// The credentials presented to the relay: none when no username is set,
/// since a relay on the same host often accepts unauthenticated mail.
pub fn smtp_credentials(username: &str, password: &str) -> (c: Option<(String, String)>)
    ensures
        username@.len() == 0 ==> c is None,
        username@.len() > 0 ==> (c matches Some((u, p)) && u@ == username@ && p@ == password@),
{
    if username.unicode_len() == 0 {
        None
    } else {
        Some((String::from_str(username), String::from_str(password)))
    }
}

} // verus!
