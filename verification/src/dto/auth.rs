//! Authentication request and response bodies.
use vstd::prelude::*;
use crate::entities::{IpAddress, Micros, UserModel, UserEmailModel};
use crate::dto::legal::LegalAcceptanceInput;
use crate::validation::{
    FieldError, FieldFailure, NestedError, ValidationErrors, email_codes, email_field, entry,
    finish, is_ascii_digit, length_codes, length_field, new_password_codes, new_password_field, record,
    username_codes, username_field,
};
use crate::text::is_alnum;
use crate::validation::{code_if, length_ok};

verus! {

/// A freshly registered account and its primary address.
pub struct RegisteredUser {
    pub user: UserModel,
    pub email: UserEmailModel,
}

/// A signed-in account with the tokens handed to the client.
pub struct LoggedInUser {
    pub user: UserModel,
    pub email: UserEmailModel,
    pub access_token: String,
    pub refresh_token: String,
}

/// Request metadata recorded with a session.
pub struct SessionContext {
    pub user_agent: Option<String>,
    pub ip_address: Option<IpAddress>,
}

/// A session opened at login: the secret for the client and the row id.
pub struct IssuedSession {
    pub secret: String,
    pub session_id: u128,
}

/// A session replaced during a refresh.
pub struct RotatedSession {
    pub user_id: u128,
    pub secret: String,
    pub session_id: u128,
}

pub struct RegisterRequest {
    pub email: String,
    pub username: String,
    pub password: String,
    pub legal: LegalAcceptanceInput,
    pub turnstile_token: String,
}

impl RegisterRequest {
    pub open spec fn failures(&self) -> Seq<FieldFailure> {
        entry("email"@, email_codes(self.email@, Some(254)))
            + entry("username"@, username_codes(self.username@))
            + entry("password"@, new_password_codes(self.password@))
    }

    /// The nested legal input, reported under `legal` when it failed.
    pub open spec fn nested_failures(&self) -> Seq<(Seq<char>, Seq<FieldFailure>)> {
        if self.legal.failures().len() == 0 {
            Seq::empty()
        } else {
            seq![("legal"@, self.legal.failures())]
        }
    }

    pub fn validate(&self) -> (r: Result<(), ValidationErrors>)
        ensures
            r is Ok <==> self.failures().len() == 0 && self.nested_failures().len() == 0,
            r matches Err(e) ==> e.failures() == self.failures() && e.nested_failures() == self.nested_failures(),
    {
        let mut v: Vec<FieldError> = Vec::new();
        assert(v@.map_values(|f: FieldError| f.failure()) =~= Seq::<FieldFailure>::empty());
        record(&mut v, "email", email_field(self.email.as_str(), Some(254)));
        record(&mut v, "username", username_field(self.username.as_str()));
        record(&mut v, "password", new_password_field(self.password.as_str()));
        assert(v@.map_values(|f: FieldError| f.failure()) =~= self.failures());
        let legal = self.legal.field_errors();
        let mut nested: Vec<NestedError> = Vec::new();
        if legal.len() > 0 {
            nested.push(NestedError { field: "legal", fields: legal });
        }
        assert(nested@.map_values(|n: NestedError| n.failures()) =~= self.nested_failures());
        finish(v, nested)
    }
}

pub struct LoginRequest {
    pub username_or_email: String,
    /// No composition rule here on purpose: an account created before the
    /// rule existed must still be able to sign in.
    pub password: String,
    pub turnstile_token: String,
}

impl LoginRequest {
    pub open spec fn failures(&self) -> Seq<FieldFailure> {
        entry("username_or_email"@, length_codes(self.username_or_email@, None, Some(254)))
            + entry("password"@, length_codes(self.password@, Some(12), Some(128)))
    }

    pub fn validate(&self) -> (r: Result<(), ValidationErrors>)
        ensures
            r is Ok <==> self.failures().len() == 0,
            r matches Err(e) ==> e.failures() == self.failures() && e.nested@.len() == 0,
    {
        let mut v: Vec<FieldError> = Vec::new();
        assert(v@.map_values(|f: FieldError| f.failure()) =~= Seq::<FieldFailure>::empty());
        record(&mut v, "username_or_email", length_field(self.username_or_email.as_str(), None, Some(254)));
        record(&mut v, "password", length_field(self.password.as_str(), Some(12), Some(128)));
        assert(v@.map_values(|f: FieldError| f.failure()) =~= self.failures());
        finish(v, Vec::new())
    }
}

pub struct PasswordForgotRequest {
    pub email: String,
    pub turnstile_token: String,
}

impl PasswordForgotRequest {
    pub open spec fn failures(&self) -> Seq<FieldFailure> {
        entry("email"@, email_codes(self.email@, Some(254)))
    }

    pub fn validate(&self) -> (r: Result<(), ValidationErrors>)
        ensures
            r is Ok <==> self.failures().len() == 0,
            r matches Err(e) ==> e.failures() == self.failures() && e.nested@.len() == 0,
    {
        let mut v: Vec<FieldError> = Vec::new();
        assert(v@.map_values(|f: FieldError| f.failure()) =~= Seq::<FieldFailure>::empty());
        record(&mut v, "email", email_field(self.email.as_str(), Some(254)));
        assert(v@.map_values(|f: FieldError| f.failure()) =~= self.failures());
        finish(v, Vec::new())
    }
}

pub struct PasswordResetRequest {
    pub token: String,
    pub new_password: String,
}

impl PasswordResetRequest {
    pub open spec fn failures(&self) -> Seq<FieldFailure> {
        entry("token"@, length_codes(self.token@, Some(1), Some(128)))
            + entry("new_password"@, new_password_codes(self.new_password@))
    }

    pub fn validate(&self) -> (r: Result<(), ValidationErrors>)
        ensures
            r is Ok <==> self.failures().len() == 0,
            r matches Err(e) ==> e.failures() == self.failures() && e.nested@.len() == 0,
    {
        let mut v: Vec<FieldError> = Vec::new();
        assert(v@.map_values(|f: FieldError| f.failure()) =~= Seq::<FieldFailure>::empty());
        record(&mut v, "token", length_field(self.token.as_str(), Some(1), Some(128)));
        record(&mut v, "new_password", new_password_field(self.new_password.as_str()));
        assert(v@.map_values(|f: FieldError| f.failure()) =~= self.failures());
        finish(v, Vec::new())
    }
}

pub struct PasswordChangeRequest {
    pub current_password: String,
    pub new_password: String,
}

impl PasswordChangeRequest {
    pub open spec fn failures(&self) -> Seq<FieldFailure> {
        entry("current_password"@, length_codes(self.current_password@, None, Some(128)))
            + entry("new_password"@, new_password_codes(self.new_password@))
    }

    pub fn validate(&self) -> (r: Result<(), ValidationErrors>)
        ensures
            r is Ok <==> self.failures().len() == 0,
            r matches Err(e) ==> e.failures() == self.failures() && e.nested@.len() == 0,
    {
        let mut v: Vec<FieldError> = Vec::new();
        assert(v@.map_values(|f: FieldError| f.failure()) =~= Seq::<FieldFailure>::empty());
        record(&mut v, "current_password", length_field(self.current_password.as_str(), None, Some(128)));
        record(&mut v, "new_password", new_password_field(self.new_password.as_str()));
        assert(v@.map_values(|f: FieldError| f.failure()) =~= self.failures());
        finish(v, Vec::new())
    }
}

/// The new password of a password change obeys the rules of any password
/// being set: 12 to 128 characters, with at least one ASCII digit and at
/// least one character that is neither a letter nor a digit. The request is
/// valid exactly when those hold and the current password has at most 128
/// characters; a new password missing a digit or such a character is
/// reported under `new_password` with `password_composition`.
pub proof fn password_change_checks_the_new_password(r: PasswordChangeRequest)
    ensures
        r.failures().len() == 0 <==> (r.current_password@.len() <= 128
            && 12 <= r.new_password@.len() <= 128
            && (exists|i: int| 0 <= i < r.new_password@.len() && is_ascii_digit(#[trigger] r.new_password@[i]))
            && (exists|i: int| 0 <= i < r.new_password@.len() && !is_alnum(#[trigger] r.new_password@[i]))),
        ((forall|i: int| 0 <= i < r.new_password@.len() ==> !is_ascii_digit(#[trigger] r.new_password@[i]))
            || (forall|i: int| 0 <= i < r.new_password@.len() ==> is_alnum(#[trigger] r.new_password@[i])))
            ==> exists|k: int| 0 <= k < r.failures().len() && #[trigger] r.failures()[k].0 == "new_password"@
                && r.failures()[k].1.contains("password_composition"@),
{
    let cur = entry("current_password"@, length_codes(r.current_password@, None, Some(128)));
    let codes = new_password_codes(r.new_password@);
    let comp = code_if(!length_ok(r.new_password@, Some(12), Some(128)), "length"@);
    if (forall|i: int| 0 <= i < r.new_password@.len() ==> !is_ascii_digit(#[trigger] r.new_password@[i]))
        || (forall|i: int| 0 <= i < r.new_password@.len() ==> is_alnum(#[trigger] r.new_password@[i])) {
        assert(codes[comp.len() as int] == "password_composition"@);
        assert(codes.contains("password_composition"@));
        assert(r.failures()[cur.len() as int].0 == "new_password"@);
    }
}

pub struct EmailVerifyRequest {
    pub token: String,
}

impl EmailVerifyRequest {
    pub open spec fn failures(&self) -> Seq<FieldFailure> {
        entry("token"@, length_codes(self.token@, Some(1), Some(128)))
    }

    pub fn validate(&self) -> (r: Result<(), ValidationErrors>)
        ensures
            r is Ok <==> self.failures().len() == 0,
            r matches Err(e) ==> e.failures() == self.failures() && e.nested@.len() == 0,
    {
        let mut v: Vec<FieldError> = Vec::new();
        assert(v@.map_values(|f: FieldError| f.failure()) =~= Seq::<FieldFailure>::empty());
        record(&mut v, "token", length_field(self.token.as_str(), Some(1), Some(128)));
        assert(v@.map_values(|f: FieldError| f.failure()) =~= self.failures());
        finish(v, Vec::new())
    }
}

pub struct EmailResendRequest {
    pub token: String,
}

impl EmailResendRequest {
    pub open spec fn failures(&self) -> Seq<FieldFailure> {
        entry("token"@, length_codes(self.token@, Some(1), Some(128)))
    }

    pub fn validate(&self) -> (r: Result<(), ValidationErrors>)
        ensures
            r is Ok <==> self.failures().len() == 0,
            r matches Err(e) ==> e.failures() == self.failures() && e.nested@.len() == 0,
    {
        let mut v: Vec<FieldError> = Vec::new();
        assert(v@.map_values(|f: FieldError| f.failure()) =~= Seq::<FieldFailure>::empty());
        record(&mut v, "token", length_field(self.token.as_str(), Some(1), Some(128)));
        assert(v@.map_values(|f: FieldError| f.failure()) =~= self.failures());
        finish(v, Vec::new())
    }
}

/// What the API returns about an account.
pub struct UserResponse {
    pub id: u128,
    pub username: String,
    pub email: String,
    pub email_verified: bool,
    pub created_at: Micros,
}

impl UserResponse {
    pub fn new(user: UserModel, email: UserEmailModel) -> (r: Self)
        ensures
            r.id == user.id,
            r.username@ == user.username@,
            r.email@ == email.email@,
            r.email_verified == email.verified_at is Some,
            r.created_at == user.created_at,
    {
        UserResponse {
            id: user.id,
            username: user.username,
            email: email.email,
            email_verified: email.verified_at.is_some(),
            created_at: user.created_at,
        }
    }
}

impl From<RegisteredUser> for UserResponse {
    fn from(registered: RegisteredUser) -> (r: Self) {
        UserResponse {
            id: registered.user.id,
            username: registered.user.username,
            email: registered.email.email,
            email_verified: registered.email.verified_at.is_some(),
            created_at: registered.user.created_at,
        }
    }
}

impl vstd::std_specs::convert::FromSpecImpl<RegisteredUser> for UserResponse {
    open spec fn obeys_from_spec() -> bool {
        true
    }

    open spec fn from_spec(v: RegisteredUser) -> UserResponse {
        UserResponse {
            id: v.user.id,
            username: v.user.username,
            email: v.email.email,
            email_verified: v.email.verified_at is Some,
            created_at: v.user.created_at,
        }
    }
}

} // verus!
