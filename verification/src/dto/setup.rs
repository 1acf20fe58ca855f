//! First-run setup wizard bodies.
use vstd::prelude::*;
use crate::validation::{
    FieldError, FieldFailure, ValidationErrors, email_codes, email_field, entry, finish,
    length_codes, length_field, new_password_codes, new_password_field, record, username_codes,
    username_field,
};

verus! {

/// Answered without a token: the frontend needs it to decide whether to show
/// the wizard at all.
pub struct SetupStatusResponse {
    pub completed: bool,
}

/// What the backend read from its environment. Never carries the SMTP
/// password nor the API key.
pub struct EmailConfigResponse {
    pub backend: String,
    pub from: String,
    pub smtp_host: Option<String>,
    pub smtp_port: Option<u16>,
    pub smtp_tls: Option<String>,
    /// Whether credentials are configured, not what they are.
    pub smtp_auth: bool,
    pub resend_key_hint: Option<String>,
    pub public_url: String,
}

pub struct TestEmailRequest {
    pub to: String,
}

impl TestEmailRequest {
    pub open spec fn failures(&self) -> Seq<FieldFailure> {
        entry("to"@, email_codes(self.to@, Some(254)))
    }

    pub fn validate(&self) -> (r: Result<(), ValidationErrors>)
        ensures
            r is Ok <==> self.failures().len() == 0,
            r matches Err(e) ==> e.failures() == self.failures() && e.nested@.len() == 0,
    {
        let mut v: Vec<FieldError> = Vec::new();
        assert(v@.map_values(|f: FieldError| f.failure()) =~= Seq::<FieldFailure>::empty());
        record(&mut v, "to", email_field(self.to.as_str(), Some(254)));
        assert(v@.map_values(|f: FieldError| f.failure()) =~= self.failures());
        finish(v, Vec::new())
    }
}

/// The administrator half of `SetupRequest`, checked on its own so the
/// wizard can report server-side rules early.
pub struct ValidateAdminRequest {
    pub admin_username: String,
    pub admin_email: String,
    pub admin_password: String,
}

impl ValidateAdminRequest {
    pub open spec fn failures(&self) -> Seq<FieldFailure> {
        entry("admin_username"@, username_codes(self.admin_username@))
            + entry("admin_email"@, email_codes(self.admin_email@, Some(254)))
            + entry("admin_password"@, new_password_codes(self.admin_password@))
    }

    pub fn validate(&self) -> (r: Result<(), ValidationErrors>)
        ensures
            r is Ok <==> self.failures().len() == 0,
            r matches Err(e) ==> e.failures() == self.failures() && e.nested@.len() == 0,
    {
        let mut v: Vec<FieldError> = Vec::new();
        assert(v@.map_values(|f: FieldError| f.failure()) =~= Seq::<FieldFailure>::empty());
        record(&mut v, "admin_username", username_field(self.admin_username.as_str()));
        record(&mut v, "admin_email", email_field(self.admin_email.as_str(), Some(254)));
        record(&mut v, "admin_password", new_password_field(self.admin_password.as_str()));
        assert(v@.map_values(|f: FieldError| f.failure()) =~= self.failures());
        finish(v, Vec::new())
    }
}

pub struct SetupRequest {
    pub admin_username: String,
    pub admin_email: String,
    pub admin_password: String,
    pub default_locale: String,
    /// IANA identifier, never a UTC offset.
    pub default_timezone: String,
    pub allow_public_signup: bool,
    pub hide_landing_page: bool,
}

impl SetupRequest {
    pub open spec fn failures(&self) -> Seq<FieldFailure> {
        entry("admin_username"@, username_codes(self.admin_username@))
            + entry("admin_email"@, email_codes(self.admin_email@, Some(254)))
            + entry("admin_password"@, new_password_codes(self.admin_password@))
            + entry("default_locale"@, length_codes(self.default_locale@, Some(2), Some(10)))
            + entry("default_timezone"@, length_codes(self.default_timezone@, None, Some(64)))
    }

    pub fn validate(&self) -> (r: Result<(), ValidationErrors>)
        ensures
            r is Ok <==> self.failures().len() == 0,
            r matches Err(e) ==> e.failures() == self.failures() && e.nested@.len() == 0,
    {
        let mut v: Vec<FieldError> = Vec::new();
        assert(v@.map_values(|f: FieldError| f.failure()) =~= Seq::<FieldFailure>::empty());
        record(&mut v, "admin_username", username_field(self.admin_username.as_str()));
        record(&mut v, "admin_email", email_field(self.admin_email.as_str(), Some(254)));
        record(&mut v, "admin_password", new_password_field(self.admin_password.as_str()));
        record(&mut v, "default_locale", length_field(self.default_locale.as_str(), Some(2), Some(10)));
        record(&mut v, "default_timezone", length_field(self.default_timezone.as_str(), None, Some(64)));
        assert(v@.map_values(|f: FieldError| f.failure()) =~= self.failures());
        finish(v, Vec::new())
    }
}

} // verus!
