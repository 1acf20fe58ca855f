//! The rows the library reads from the database, as plain values.
//!
//! Identifiers are UUIDs held as `u128`; instants are microseconds since the
//! Unix epoch, in UTC.
use vstd::prelude::*;
use vstd::arithmetic::power::pow;
use crate::token::hex_lower;

verus! {

/// Microseconds since the Unix epoch, UTC.
pub type Micros = i64;

/// An IP address, as an integer of its family's width.
#[derive(Debug, Clone, Copy, PartialEq, Eq, Structural)]
pub enum IpAddress {
    V4(u32),
    V6(u128),
}

/// A row of `users`.
pub struct UserModel {
    pub id: u128,
    pub username: String,
    pub password_hash: String,
    pub locale: String,
    pub is_instance_admin: bool,
    pub suspended_at: Option<Micros>,
    pub suspended_until: Option<Micros>,
    pub suspended_reason: Option<String>,
    pub suspended_by: Option<u128>,
    pub created_at: Micros,
}

impl UserModel {
    /// The consistency the table enforces on the suspension columns: an
    /// account that is not suspended carries no deadline, reason or author.
    pub open spec fn suspension_consistent(&self) -> bool {
        self.suspended_at is Some || (self.suspended_until is None && self.suspended_reason is None
            && self.suspended_by is None)
    }
}

/// A row of `user_emails`.
pub struct UserEmailModel {
    pub id: u128,
    pub user_id: u128,
    pub email: String,
    pub is_primary: bool,
    pub verified_at: Option<Micros>,
}

/// A row of `refresh_tokens`.
pub struct RefreshTokenModel {
    pub id: u128,
    pub user_id: u128,
    pub token_hash: String,
    pub expires_at: Micros,
    pub revoked_at: Option<Micros>,
    pub revoked_reason: Option<String>,
    pub user_agent: Option<String>,
    pub ip_address: Option<IpAddress>,
    pub last_used_at: Option<Micros>,
}


/// A row of `instance_alerts`: a banner shown to every visitor.
pub struct AlertModel {
    pub id: u128,
    pub kind: String,
    pub message: String,
    pub link_url: Option<String>,
    pub starts_at: Micros,
    pub ends_at: Option<Micros>,
    pub is_active: bool,
    pub created_by: Option<u128>,
    pub created_at: Micros,
}

/// The current instant, read from the system clock through
/// `chrono::Utc::now`. Nothing is stated of it: two readings may differ.
#[verifier::external_body]
pub fn now_micros() -> (t: Micros) {
    chrono::Utc::now().timestamp_micros()
}

/// A fresh time-ordered UUID (version 7) from `uuid::Uuid::now_v7`, as its
/// 128-bit value. Nothing is stated of it: it depends on the clock and on
/// random bits.
#[verifier::external_body]
pub fn new_v7_id() -> (id: u128) {
    uuid::Uuid::now_v7().as_u128()
}

/// The 16 bytes of a UUID, most significant first.
pub open spec fn uuid_bytes(id: u128) -> Seq<u8> {
    Seq::new(16, |k: int| ((id as int / pow(256, (15 - k) as nat)) % 256) as u8)
}

/// The hyphenated lowercase text of a UUID, as `uuid::Uuid` displays it:
/// the 32 lowercase hexadecimal digits of its bytes, in groups of 8, 4, 4,
/// 4 and 12 joined by hyphens.
pub open spec fn uuid_text(id: u128) -> Seq<char> {
    let h = hex_lower(uuid_bytes(id));
    h.subrange(0, 8) + seq!['-'] + h.subrange(8, 12) + seq!['-'] + h.subrange(12, 16) + seq!['-']
        + h.subrange(16, 20) + seq!['-'] + h.subrange(20, 32)
}

/// Calls the `Display` of `uuid::Uuid` on the UUID whose value is `id`,
/// which writes its hyphenated lowercase form.
#[verifier::external_body]
pub fn uuid_string(id: u128) -> (s: String)
    ensures
        s@ == uuid_text(id),
{
    uuid::Uuid::from_u128(id).to_string()
}

} // verus!
