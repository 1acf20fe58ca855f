//! Legal acceptance bodies.
use vstd::prelude::*;
use crate::validation::{FieldError, FieldFailure, ValidationErrors, entry, length_codes, length_field, record, finish};

verus! {

/// Versions the client says it displayed, so that a tab left open for
/// weeks cannot silently accept a superseded text.
pub struct LegalAcceptanceInput {
    pub terms_version: String,
    pub privacy_version: String,
}

impl LegalAcceptanceInput {
    pub open spec fn failures(&self) -> Seq<FieldFailure> {
        entry("terms_version"@, length_codes(self.terms_version@, Some(1), Some(32)))
            + entry("privacy_version"@, length_codes(self.privacy_version@, Some(1), Some(32)))
    }

    /// Failed fields, in declaration order.
    pub fn field_errors(&self) -> (v: Vec<FieldError>)
        ensures
            v@.map_values(|f: FieldError| f.failure()) == self.failures(),
    {
        let mut v: Vec<FieldError> = Vec::new();
        assert(v@.map_values(|f: FieldError| f.failure()) =~= Seq::<FieldFailure>::empty());
        record(&mut v, "terms_version", length_field(self.terms_version.as_str(), Some(1), Some(32)));
        record(&mut v, "privacy_version", length_field(self.privacy_version.as_str(), Some(1), Some(32)));
        assert(v@.map_values(|f: FieldError| f.failure()) =~= self.failures());
        v
    }

    pub fn validate(&self) -> (r: Result<(), ValidationErrors>)
        ensures
            r is Ok <==> self.failures().len() == 0,
            r matches Err(e) ==> e.failures() == self.failures() && e.nested@.len() == 0,
    {
        finish(self.field_errors(), Vec::new())
    }
}

/// Versions in force, served unauthenticated so the registration form can
/// send back what it displayed.
pub struct LegalVersionsDto {
    pub terms_version: &'static str,
    pub privacy_version: &'static str,
}

/// Where the user stands with respect to the current documents.
pub struct LegalStatusDto {
    pub state: LegalState,
    pub current_terms_version: &'static str,
    pub current_privacy_version: &'static str,
    /// Versions currently on record, `None` if never accepted.
    pub accepted_terms_version: Option<String>,
    pub accepted_privacy_version: Option<String>,
    /// RFC 3339, present only while a revision is published but not yet
    /// enforced.
    pub effective_at: Option<String>,
}

#[derive(Debug, Clone, Copy, PartialEq, Eq, Structural)]
pub enum LegalState {
    /// Accepted versions are current. Nothing to display.
    Current,
    /// A revision is published but not yet enforced.
    Pending,
}

/// The versions currently in force.
pub fn current_versions() -> (d: LegalVersionsDto)
    ensures
        d.terms_version@ == crate::legal::CURRENT_TERMS_VERSION@,
        d.privacy_version@ == crate::legal::CURRENT_PRIVACY_VERSION@,
{
    LegalVersionsDto {
        terms_version: crate::legal::CURRENT_TERMS_VERSION,
        privacy_version: crate::legal::CURRENT_PRIVACY_VERSION,
    }
}

} // verus!
