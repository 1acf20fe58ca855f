//! Instance configuration: its values, how they are read from the raw
//! environment, and the cross-field checks that refuse to boot a
//! misconfigured instance.
//!
//! Failing at boot is deliberate: an instance that silently sends no mail is
//! worse than one that refuses to start.
use vstd::prelude::*;
use vstd::utf8::encode_utf8;
use vstd::string::StrSliceExecFns;
use crate::text::{push_char, str_concat, str_eq};

verus! {

/// Where outgoing mail goes.
///
/// `Console` logs the rendered message instead of sending it, so local
/// development never touches a provider. `Smtp` covers self-hosted
/// instances, which may point at any relay. `Resend` is used by the hosted
/// service.
#[derive(Debug, Clone, Copy, PartialEq, Eq, Structural)]
pub enum EmailBackend {
    Console,
    Smtp,
    Resend,
}

impl EmailBackend {
    pub open spec fn from_text(s: Seq<char>) -> Option<EmailBackend> {
        if s == "console"@ {
            Some(EmailBackend::Console)
        } else if s == "smtp"@ {
            Some(EmailBackend::Smtp)
        } else if s == "resend"@ {
            Some(EmailBackend::Resend)
        } else {
            None
        }
    }

    /// Reads `console`, `smtp` or `resend`.
    pub fn parse(s: &str) -> (r: Result<EmailBackend, ConfigError>)
        ensures
            match EmailBackend::from_text(s@) {
                Some(b) => r == Ok::<EmailBackend, ConfigError>(b),
                None => r matches Err(ConfigError::InvalidEmailBackend(v)) && v@ == s@,
            },
    {
        if str_eq(s, "console") {
            Ok(EmailBackend::Console)
        } else if str_eq(s, "smtp") {
            Ok(EmailBackend::Smtp)
        } else if str_eq(s, "resend") {
            Ok(EmailBackend::Resend)
        } else {
            Err(ConfigError::InvalidEmailBackend(String::from_str(s)))
        }
    }
}

/// How the SMTP connection is secured. Implicit TLS is the norm on port 465,
/// STARTTLS on 587. No TLS only makes sense for a relay on the same host.
#[derive(Debug, Clone, Copy, PartialEq, Eq, Structural)]
pub enum SmtpTls {
    Implicit,
    StartTls,
    /// Plain text (the mode read as `none`).
    NoTls,
}

impl SmtpTls {
    pub open spec fn from_text(s: Seq<char>) -> Option<SmtpTls> {
        if s == "implicit"@ {
            Some(SmtpTls::Implicit)
        } else if s == "starttls"@ {
            Some(SmtpTls::StartTls)
        } else if s == "none"@ {
            Some(SmtpTls::NoTls)
        } else {
            None
        }
    }

    /// Reads `implicit`, `starttls` or `none`.
    pub fn parse(s: &str) -> (r: Result<SmtpTls, ConfigError>)
        ensures
            match SmtpTls::from_text(s@) {
                Some(t) => r == Ok::<SmtpTls, ConfigError>(t),
                None => r matches Err(ConfigError::InvalidSmtpTls(v)) && v@ == s@,
            },
    {
        if str_eq(s, "implicit") {
            Ok(SmtpTls::Implicit)
        } else if str_eq(s, "starttls") {
            Ok(SmtpTls::StartTls)
        } else if str_eq(s, "none") {
            Ok(SmtpTls::NoTls)
        } else {
            Err(ConfigError::InvalidSmtpTls(String::from_str(s)))
        }
    }
}

/// Why the configuration was refused.
pub enum ConfigError {
    /// A required variable is absent.
    Missing(&'static str),
    /// A variable could not be read as its type; `reason` is the parser's.
    Invalid { key: &'static str, reason: String },
    InvalidEmailBackend(String),
    InvalidSmtpTls(String),
    SmtpHostMissing,
    ResendApiKeyMissing,
    EmailFromMissing,
    SetupTokenTooShort,
}

impl ConfigError {
    /// The message printed when the instance refuses to start.
    pub open spec fn text(&self) -> Seq<char> {
        match self {
            ConfigError::Missing(key) => key@ + " must be set"@,
            ConfigError::Invalid { key, reason } => key@ + " is invalid: "@ + reason@,
            ConfigError::InvalidEmailBackend(v) => "invalid email backend: "@ + v@,
            ConfigError::InvalidSmtpTls(v) => "invalid SMTP TLS mode: "@ + v@,
            ConfigError::SmtpHostMissing => "SMTP_HOST must be set when EMAIL_BACKEND is 'smtp'"@,
            ConfigError::ResendApiKeyMissing => "RESEND_API_KEY must be set when EMAIL_BACKEND is 'resend'"@,
            ConfigError::EmailFromMissing => "EMAIL_FROM must be set unless EMAIL_BACKEND is 'console'"@,
            ConfigError::SetupTokenTooShort => "SETUP_TOKEN must be at least 32 characters"@,
        }
    }

    pub fn message(&self) -> (s: String)
        ensures
            s@ == self.text(),
    {
        match self {
            ConfigError::Missing(key) => str_concat(key, " must be set"),
            ConfigError::Invalid { key, reason } => {
                let head = str_concat(key, " is invalid: ");
                str_concat(head.as_str(), reason.as_str())
            },
            ConfigError::InvalidEmailBackend(v) => str_concat("invalid email backend: ", v.as_str()),
            ConfigError::InvalidSmtpTls(v) => str_concat("invalid SMTP TLS mode: ", v.as_str()),
            ConfigError::SmtpHostMissing => String::from_str("SMTP_HOST must be set when EMAIL_BACKEND is 'smtp'"),
            ConfigError::ResendApiKeyMissing => String::from_str("RESEND_API_KEY must be set when EMAIL_BACKEND is 'resend'"),
            ConfigError::EmailFromMissing => String::from_str("EMAIL_FROM must be set unless EMAIL_BACKEND is 'console'"),
            ConfigError::SetupTokenTooShort => String::from_str("SETUP_TOKEN must be at least 32 characters"),
        }
    }
}

/// The shortest setup token accepted, in bytes of UTF-8.
pub const SETUP_TOKEN_MIN_LEN: usize = 32;

/// The configuration of a running instance.
pub struct Config {
    // --- Server ---
    pub port: u16,
    /// Base URL the instance is reached at, used to build links in emails.
    pub public_url: String,
    pub cors_origin: String,
    pub setup_token: Option<String>,
    // --- Datastores ---
    pub database_url: String,
    pub redis_url: String,
    // --- Secrets ---
    pub jwt_secret: String,
    pub encryption_key: String,
    // --- Security ---
    /// Set the Secure flag on cookies. Must be false on plain HTTP in local
    /// development, or browsers silently drop them.
    pub cookie_secure: bool,
    /// Number of trusted reverse proxies in front of the backend. Zero means
    /// X-Forwarded-For is ignored entirely.
    pub trusted_proxy_count: usize,
    pub block_disposable_emails: bool,
    pub check_pwned_passwords: bool,
    // --- Email ---
    pub email_backend: EmailBackend,
    pub email_from: String,
    // --- Email: SMTP ---
    pub smtp_host: String,
    pub smtp_port: u16,
    pub smtp_username: String,
    pub smtp_password: String,
    pub smtp_tls: SmtpTls,
    // --- Email: Resend ---
    pub resend_api_key: String,
}

/// The first cross-field rule `c` breaks, in the order they are checked.
pub open spec fn config_problem(c: Config) -> Option<ConfigError> {
    if c.email_backend == EmailBackend::Smtp && c.smtp_host@.len() == 0 {
        Some(ConfigError::SmtpHostMissing)
    } else if c.email_backend == EmailBackend::Resend && c.resend_api_key@.len() == 0 {
        Some(ConfigError::ResendApiKeyMissing)
    } else if c.email_backend != EmailBackend::Console && c.email_from@.len() == 0 {
        Some(ConfigError::EmailFromMissing)
    } else if c.setup_token matches Some(t) && encode_utf8(t@).len() < SETUP_TOKEN_MIN_LEN {
        Some(ConfigError::SetupTokenTooShort)
    } else {
        None
    }
}

impl Config {
    /// Cross-field checks that cannot be expressed field by field. SMTP
    /// credentials stay optional: a local relay often accepts
    /// unauthenticated mail from the host it runs on. A short setup token
    /// weakens the only thing standing between a fresh instance and whoever
    /// reaches it first.
    pub fn validate(&self) -> (r: Result<(), ConfigError>)
        ensures
            match config_problem(*self) {
                Some(e) => r == Err::<(), ConfigError>(e),
                None => r is Ok,
            },
    {
        match self.email_backend {
            EmailBackend::Console => {},
            EmailBackend::Smtp => {
                if self.smtp_host.as_str().unicode_len() == 0 {
                    return Err(ConfigError::SmtpHostMissing);
                }
            },
            EmailBackend::Resend => {
                if self.resend_api_key.as_str().unicode_len() == 0 {
                    return Err(ConfigError::ResendApiKeyMissing);
                }
            },
        }
        let console = match self.email_backend {
            EmailBackend::Console => true,
            _ => false,
        };
        if !console && self.email_from.as_str().unicode_len() == 0 {
            return Err(ConfigError::EmailFromMissing);
        }
        match &self.setup_token {
            Some(token) => {
                let n: usize = token.as_str().as_bytes().len();
                if n < SETUP_TOKEN_MIN_LEN {
                    return Err(ConfigError::SetupTokenTooShort);
                }
            },
            None => {},
        }
        Ok(())
    }
}

/// The value of a decimal numeral as `str::parse` reads one for an
/// unsigned integer: an optional `+`, then one or more ASCII digits.
pub open spec fn decimal_value(s: Seq<char>) -> Option<int> {
    let d = if s.len() > 0 && s[0] == '+' { s.drop_first() } else { s };
    if d.len() > 0 && forall|i: int| 0 <= i < d.len() ==> '0' <= #[trigger] d[i] <= '9' {
        Some(digits_value(d))
    } else {
        None
    }
}

/// The value of a run of ASCII digits, most significant first.
pub open spec fn digits_value(d: Seq<char>) -> int
    decreases d.len(),
{
    if d.len() == 0 {
        0
    } else {
        digits_value(d.drop_last()) * 10 + (d.last() as int - '0' as int)
    }
}

/// Calls `str::parse::<u16>`; an error comes back as its message.
#[verifier::external_body]
fn parse_u16(s: &str) -> (r: Result<u16, String>)
    ensures
        match r {
            Ok(v) => decimal_value(s@) == Some(v as int),
            Err(_) => !(decimal_value(s@) matches Some(n) && n <= u16::MAX),
        },
{
    match s.parse::<u16>() {
        Ok(v) => Ok(v),
        Err(e) => Err(e.to_string()),
    }
}

/// Calls `str::parse::<usize>`; an error comes back as its message.
#[verifier::external_body]
fn parse_usize(s: &str) -> (r: Result<usize, String>)
    ensures
        match r {
            Ok(v) => decimal_value(s@) == Some(v as int),
            Err(_) => !(decimal_value(s@) matches Some(n) && n <= usize::MAX),
        },
{
    match s.parse::<usize>() {
        Ok(v) => Ok(v),
        Err(e) => Err(e.to_string()),
    }
}

/// Calls `str::parse::<bool>`, which accepts exactly `true` and `false`; an
/// error comes back as its message.
#[verifier::external_body]
fn parse_bool(s: &str) -> (r: Result<bool, String>)
    ensures
        match r {
            Ok(b) => (b && s@ == "true"@) || (!b && s@ == "false"@),
            Err(_) => s@ != "true"@ && s@ != "false"@,
        },
{
    match s.parse::<bool>() {
        Ok(v) => Ok(v),
        Err(e) => Err(e.to_string()),
    }
}

/// The variables the configuration is read from, as the environment holds
/// them: `None` for an unset variable.
pub struct RawConfig {
    pub port: Option<String>,
    pub public_url: Option<String>,
    pub cors_origin: Option<String>,
    pub setup_token: Option<String>,
    pub database_url: Option<String>,
    pub redis_url: Option<String>,
    pub jwt_secret: Option<String>,
    pub encryption_key: Option<String>,
    pub cookie_secure: Option<String>,
    pub trusted_proxy_count: Option<String>,
    pub block_disposable_emails: Option<String>,
    pub check_pwned_passwords: Option<String>,
    pub email_backend: Option<String>,
    pub email_from: Option<String>,
    pub smtp_host: Option<String>,
    pub smtp_port: Option<String>,
    pub smtp_username: Option<String>,
    pub smtp_password: Option<String>,
    pub smtp_tls: Option<String>,
    pub resend_api_key: Option<String>,
}

/// The value read for a variable: what is set, else the default.
pub open spec fn raw_or(v: Option<String>, default: Seq<char>) -> Seq<char> {
    match v {
        Some(s) => s@,
        None => default,
    }
}

fn value_or(v: &Option<String>, default: &str) -> (s: String)
    ensures
        s@ == raw_or(*v, default@),
{
    match v {
        Some(s) => s.clone(),
        None => String::from_str(default),
    }
}

fn required(v: &Option<String>, key: &'static str) -> (r: Result<String, ConfigError>)
    ensures
        match v {
            Some(s) => r matches Ok(t) && t@ == s@,
            None => r matches Err(ConfigError::Missing(k)) && k@ == key@,
        },
{
    match v {
        Some(s) => Ok(s.clone()),
        None => Err(ConfigError::Missing(key)),
    }
}

fn invalid(key: &'static str, reason: String) -> (e: ConfigError)
    ensures
        e matches ConfigError::Invalid { key: k, reason: r } && k@ == key@ && r == reason,
{
    ConfigError::Invalid { key, reason }
}

fn read_u16(v: &Option<String>, key: &'static str, default: &str) -> (r: Result<u16, ConfigError>)
    ensures
        match r {
            Ok(n) => decimal_value(raw_or(*v, default@)) == Some(n as int),
            Err(e) => !(decimal_value(raw_or(*v, default@)) matches Some(n) && n <= u16::MAX)
                && (e matches ConfigError::Invalid { key: k, .. } && k@ == key@),
        },
{
    let raw = value_or(v, default);
    match parse_u16(raw.as_str()) {
        Ok(n) => Ok(n),
        Err(m) => Err(invalid(key, m)),
    }
}

fn read_usize(v: &Option<String>, key: &'static str, default: &str) -> (r: Result<usize, ConfigError>)
    ensures
        match r {
            Ok(n) => decimal_value(raw_or(*v, default@)) == Some(n as int),
            Err(e) => !(decimal_value(raw_or(*v, default@)) matches Some(n) && n <= usize::MAX)
                && (e matches ConfigError::Invalid { key: k, .. } && k@ == key@),
        },
{
    let raw = value_or(v, default);
    match parse_usize(raw.as_str()) {
        Ok(n) => Ok(n),
        Err(m) => Err(invalid(key, m)),
    }
}

fn read_bool(v: &Option<String>, key: &'static str, default: &str) -> (r: Result<bool, ConfigError>)
    ensures
        match r {
            Ok(b) => boolean_text(raw_or(*v, default@)) && (b <==> raw_or(*v, default@) == "true"@),
            Err(e) => raw_or(*v, default@) != "true"@ && raw_or(*v, default@) != "false"@
                && (e matches ConfigError::Invalid { key: k, .. } && k@ == key@),
        },
{
    let raw = value_or(v, default);
    proof {
        reveal_strlit("true");
        reveal_strlit("false");
    }
    match parse_bool(raw.as_str()) {
        Ok(b) => {
            assert("true"@.len() == 4 && "false"@.len() == 5);
            Ok(b)
        },
        Err(m) => Err(invalid(key, m)),
    }
}

/// Whether `c` holds the values read from `raw`, once every variable read.
pub open spec fn read_from(raw: RawConfig, c: Config) -> bool {
    &&& decimal_value(raw_or(raw.port, "3000"@)) == Some(c.port as int)
    &&& raw.public_url matches Some(v) && c.public_url@ == v@
    &&& raw.cors_origin matches Some(v) && c.cors_origin@ == v@
    &&& c.setup_token == raw.setup_token
    &&& raw.database_url matches Some(v) && c.database_url@ == v@
    &&& raw.redis_url matches Some(v) && c.redis_url@ == v@
    &&& raw.jwt_secret matches Some(v) && c.jwt_secret@ == v@
    &&& raw.encryption_key matches Some(v) && c.encryption_key@ == v@
    &&& (c.cookie_secure <==> raw_or(raw.cookie_secure, "true"@) == "true"@)
    &&& decimal_value(raw_or(raw.trusted_proxy_count, "0"@)) == Some(c.trusted_proxy_count as int)
    &&& (c.block_disposable_emails <==> raw_or(raw.block_disposable_emails, "true"@) == "true"@)
    &&& (c.check_pwned_passwords <==> raw_or(raw.check_pwned_passwords, "true"@) == "true"@)
    &&& EmailBackend::from_text(raw_or(raw.email_backend, "console"@)) == Some(c.email_backend)
    &&& c.email_from@ == raw_or(raw.email_from, ""@)
    &&& c.smtp_host@ == raw_or(raw.smtp_host, ""@)
    &&& decimal_value(raw_or(raw.smtp_port, "587"@)) == Some(c.smtp_port as int)
    &&& c.smtp_username@ == raw_or(raw.smtp_username, ""@)
    &&& c.smtp_password@ == raw_or(raw.smtp_password, ""@)
    &&& SmtpTls::from_text(raw_or(raw.smtp_tls, "starttls"@)) == Some(c.smtp_tls)
    &&& c.resend_api_key@ == raw_or(raw.resend_api_key, ""@)
}

/// Whether a numeral reads as a value of at most `max`.
pub open spec fn numeral_within(s: Seq<char>, max: int) -> bool {
    decimal_value(s) matches Some(n) && n <= max
}

/// Whether `s` reads as a boolean.
pub open spec fn boolean_text(s: Seq<char>) -> bool {
    s == "true"@ || s == "false"@
}

/// Whether every variable of `raw` can be read: the required ones set, and
/// each value (or its default) of the right form.
pub open spec fn raw_readable(raw: RawConfig) -> bool {
    &&& numeral_within(raw_or(raw.port, "3000"@), u16::MAX as int)
    &&& raw.public_url is Some
    &&& raw.cors_origin is Some
    &&& raw.database_url is Some
    &&& raw.redis_url is Some
    &&& raw.jwt_secret is Some
    &&& raw.encryption_key is Some
    &&& boolean_text(raw_or(raw.cookie_secure, "true"@))
    &&& numeral_within(raw_or(raw.trusted_proxy_count, "0"@), usize::MAX as int)
    &&& boolean_text(raw_or(raw.block_disposable_emails, "true"@))
    &&& boolean_text(raw_or(raw.check_pwned_passwords, "true"@))
    &&& EmailBackend::from_text(raw_or(raw.email_backend, "console"@)) is Some
    &&& numeral_within(raw_or(raw.smtp_port, "587"@), u16::MAX as int)
    &&& SmtpTls::from_text(raw_or(raw.smtp_tls, "starttls"@)) is Some
}

impl Config {
    /// Reads the configuration from the raw variables, with the defaults of
    /// the optional ones, then applies the cross-field checks.
    pub fn from_raw(raw: RawConfig) -> (r: Result<Config, ConfigError>)
        ensures
            r matches Ok(c) ==> (read_from(raw, c) && config_problem(c) is None),
            !raw_readable(raw) ==> r is Err,
            raw_readable(raw) ==> (r matches Err(e) ==> exists|c: Config| read_from(raw, c)
                && #[trigger] config_problem(c) == Some(e)),
    {
        let port = read_u16(&raw.port, "PORT", "3000")?;
        let public_url = required(&raw.public_url, "PUBLIC_URL")?;
        let cors_origin = required(&raw.cors_origin, "CORS_ORIGIN")?;
        let database_url = required(&raw.database_url, "DATABASE_URL")?;
        let redis_url = required(&raw.redis_url, "REDIS_URL")?;
        let jwt_secret = required(&raw.jwt_secret, "JWT_SECRET")?;
        let encryption_key = required(&raw.encryption_key, "ENCRYPTION_KEY")?;
        let cookie_secure = read_bool(&raw.cookie_secure, "COOKIE_SECURE", "true")?;
        let trusted_proxy_count = read_usize(&raw.trusted_proxy_count, "TRUSTED_PROXY_COUNT", "0")?;
        let block_disposable_emails = read_bool(&raw.block_disposable_emails, "BLOCK_DISPOSABLE_EMAILS", "true")?;
        let check_pwned_passwords = read_bool(&raw.check_pwned_passwords, "CHECK_PWNED_PASSWORDS", "true")?;
        let backend_raw = value_or(&raw.email_backend, "console");
        let email_backend = match EmailBackend::parse(backend_raw.as_str()) {
            Ok(b) => b,
            Err(e) => return Err(invalid("EMAIL_BACKEND", e.message())),
        };
        let email_from = value_or(&raw.email_from, "");
        let smtp_host = value_or(&raw.smtp_host, "");
        let smtp_port = read_u16(&raw.smtp_port, "SMTP_PORT", "587")?;
        let smtp_username = value_or(&raw.smtp_username, "");
        let smtp_password = value_or(&raw.smtp_password, "");
        let tls_raw = value_or(&raw.smtp_tls, "starttls");
        let smtp_tls = match SmtpTls::parse(tls_raw.as_str()) {
            Ok(t) => t,
            Err(e) => return Err(invalid("SMTP_TLS", e.message())),
        };
        let resend_api_key = value_or(&raw.resend_api_key, "");
        let config = Config {
            port,
            public_url,
            cors_origin,
            setup_token: raw.setup_token,
            database_url,
            redis_url,
            jwt_secret,
            encryption_key,
            cookie_secure,
            trusted_proxy_count,
            block_disposable_emails,
            check_pwned_passwords,
            email_backend,
            email_from,
            smtp_host,
            smtp_port,
            smtp_username,
            smtp_password,
            smtp_tls,
            resend_api_key,
        };
        proof { reveal_strlit("true"); reveal_strlit("false"); }
        assert(read_from(raw, config));
        match config.validate() {
            Ok(()) => Ok(config),
            Err(e) => {
                assert(config_problem(config) == Some(e));
                Err(e)
            },
        }
    }
}

/// The text of `s` as `{:?}` writes it: in double quotes, with quotes,
/// backslashes and non-printable characters escaped.
pub uninterp spec fn debug_str(s: Seq<char>) -> Seq<char>;

/// Calls the `Debug` formatting of `str`. The text is the named `debug_str`.
#[verifier::external_body]
fn debug_quoted(s: &str) -> (r: String)
    ensures
        r@ == debug_str(s@),
{
    format!("{:?}", s)
}

/// The decimal digits of `n`, most significant first, without leading
/// zeros.
pub open spec fn decimal_text(n: nat) -> Seq<char>
    decreases n,
{
    if n < 10 {
        seq![(48 + n) as char]
    } else {
        decimal_text(n / 10).push((48 + n % 10) as char)
    }
}

/// `n` written in decimal.
pub fn decimal(n: u64) -> (s: String)
    ensures
        s@ == decimal_text(n as nat),
    decreases n,
{
    let d: u8 = (n % 10) as u8;
    let c: char = (48u8 + d) as char;
    if n < 10 {
        let mut s = String::new();
        push_char(&mut s, c);
        assert(s@ =~= seq![c]);
        s
    } else {
        let mut s = decimal(n / 10);
        push_char(&mut s, c);
        s
    }
}

/// What a log line shows of a secret.
pub const REDACTED: &'static str = "\"[redacted]\"";

impl EmailBackend {
    pub open spec fn name(self) -> Seq<char> {
        match self {
            EmailBackend::Console => "Console"@,
            EmailBackend::Smtp => "Smtp"@,
            EmailBackend::Resend => "Resend"@,
        }
    }
}

impl SmtpTls {
    pub open spec fn name(self) -> Seq<char> {
        match self {
            SmtpTls::Implicit => "Implicit"@,
            SmtpTls::StartTls => "StartTls"@,
            SmtpTls::NoTls => "None"@,
        }
    }
}

fn backend_name(b: EmailBackend) -> (s: &'static str)
    ensures
        s@ == b.name(),
{
    match b {
        EmailBackend::Console => "Console",
        EmailBackend::Smtp => "Smtp",
        EmailBackend::Resend => "Resend",
    }
}

fn tls_name(t: SmtpTls) -> (s: &'static str)
    ensures
        s@ == t.name(),
{
    match t {
        SmtpTls::Implicit => "Implicit",
        SmtpTls::StartTls => "StartTls",
        SmtpTls::NoTls => "None",
    }
}

pub open spec fn bool_text(b: bool) -> Seq<char> {
    if b { "true"@ } else { "false"@ }
}

/// The description of a configuration printed in logs: every setting but
/// the secrets, which read `"[redacted]"` (the setup token, the datastore
/// URLs, the signing and encryption keys, the SMTP password and the Resend
/// key). A single debug line must never leak a credential.
pub open spec fn redacted_text(c: Config) -> Seq<char> {
    "Config { port: "@ + decimal_text(c.port as nat)
        + ", public_url: "@ + debug_str(c.public_url@)
        + ", cors_origin: "@ + debug_str(c.cors_origin@)
        + ", setup_token: "@ + REDACTED@
        + ", database_url: "@ + REDACTED@
        + ", redis_url: "@ + REDACTED@
        + ", jwt_secret: "@ + REDACTED@
        + ", encryption_key: "@ + REDACTED@
        + ", cookie_secure: "@ + bool_text(c.cookie_secure)
        + ", trusted_proxy_count: "@ + decimal_text(c.trusted_proxy_count as nat)
        + ", block_disposable_emails: "@ + bool_text(c.block_disposable_emails)
        + ", email_backend: "@ + c.email_backend.name()
        + ", email_from: "@ + debug_str(c.email_from@)
        + ", smtp_host: "@ + debug_str(c.smtp_host@)
        + ", smtp_port: "@ + decimal_text(c.smtp_port as nat)
        + ", smtp_username: "@ + debug_str(c.smtp_username@)
        + ", smtp_password: "@ + REDACTED@
        + ", smtp_tls: "@ + c.smtp_tls.name()
        + ", resend_api_key: "@ + REDACTED@
        + " }"@
}

fn append(s: &mut String, t: &str)
    ensures
        final(s)@ == old(s)@ + t@,
{
    let joined = str_concat(s.as_str(), t);
    *s = joined;
}

impl Config {
    /// The configuration as a log line, secrets redacted.
    pub fn redacted(&self) -> (s: String)
        ensures
            s@ == redacted_text(*self),
    {
        let mut s = String::from_str("Config { port: ");
        append(&mut s, decimal(self.port as u64).as_str());
        append(&mut s, ", public_url: ");
        append(&mut s, debug_quoted(self.public_url.as_str()).as_str());
        append(&mut s, ", cors_origin: ");
        append(&mut s, debug_quoted(self.cors_origin.as_str()).as_str());
        append(&mut s, ", setup_token: ");
        append(&mut s, REDACTED);
        append(&mut s, ", database_url: ");
        append(&mut s, REDACTED);
        append(&mut s, ", redis_url: ");
        append(&mut s, REDACTED);
        append(&mut s, ", jwt_secret: ");
        append(&mut s, REDACTED);
        append(&mut s, ", encryption_key: ");
        append(&mut s, REDACTED);
        append(&mut s, ", cookie_secure: ");
        append(&mut s, if self.cookie_secure { "true" } else { "false" });
        append(&mut s, ", trusted_proxy_count: ");
        append(&mut s, decimal(self.trusted_proxy_count as u64).as_str());
        append(&mut s, ", block_disposable_emails: ");
        append(&mut s, if self.block_disposable_emails { "true" } else { "false" });
        append(&mut s, ", email_backend: ");
        append(&mut s, backend_name(self.email_backend));
        append(&mut s, ", email_from: ");
        append(&mut s, debug_quoted(self.email_from.as_str()).as_str());
        append(&mut s, ", smtp_host: ");
        append(&mut s, debug_quoted(self.smtp_host.as_str()).as_str());
        append(&mut s, ", smtp_port: ");
        append(&mut s, decimal(self.smtp_port as u64).as_str());
        append(&mut s, ", smtp_username: ");
        append(&mut s, debug_quoted(self.smtp_username.as_str()).as_str());
        append(&mut s, ", smtp_password: ");
        append(&mut s, REDACTED);
        append(&mut s, ", smtp_tls: ");
        append(&mut s, tls_name(self.smtp_tls));
        append(&mut s, ", resend_api_key: ");
        append(&mut s, REDACTED);
        append(&mut s, " }");
        s
    }
}

/// The log line of a configuration does not depend on its secrets: two
/// configurations that differ only in their secrets are described alike.
pub proof fn secrets_never_reach_the_log(a: Config, b: Config)
    requires
        a.port == b.port,
        a.public_url@ == b.public_url@,
        a.cors_origin@ == b.cors_origin@,
        a.cookie_secure == b.cookie_secure,
        a.trusted_proxy_count == b.trusted_proxy_count,
        a.block_disposable_emails == b.block_disposable_emails,
        a.email_backend == b.email_backend,
        a.email_from@ == b.email_from@,
        a.smtp_host@ == b.smtp_host@,
        a.smtp_port == b.smtp_port,
        a.smtp_username@ == b.smtp_username@,
        a.smtp_tls == b.smtp_tls,
    ensures
        redacted_text(a) == redacted_text(b),
{
}

} // verus!
