//! Public contact form.
use vstd::prelude::*;
use crate::types::ContactCategory;
use crate::validation::{
    FieldError, FieldFailure, ValidationErrors, email_codes, email_field, entry, finish,
    length_codes, length_field, record,
};

verus! {

pub struct ContactRequest {
    pub name: String,
    pub email: String,
    pub category: ContactCategory,
    pub message: String,
    pub turnstile_token: String,
    /// English when the client sends none.
    pub locale: String,
}

/// The locale assumed when a contact request names none.
pub fn default_locale() -> (s: String)
    ensures
        s@ == "en"@,
{
    String::from_str("en")
}

impl ContactRequest {
    pub open spec fn failures(&self) -> Seq<FieldFailure> {
        entry("name"@, length_codes(self.name@, Some(1), Some(100)))
            + entry("email"@, email_codes(self.email@, None))
            + entry("message"@, length_codes(self.message@, Some(10), Some(5000)))
    }

    pub fn validate(&self) -> (r: Result<(), ValidationErrors>)
        ensures
            r is Ok <==> self.failures().len() == 0,
            r matches Err(e) ==> e.failures() == self.failures() && e.nested@.len() == 0,
    {
        let mut v: Vec<FieldError> = Vec::new();
        assert(v@.map_values(|f: FieldError| f.failure()) =~= Seq::<FieldFailure>::empty());
        record(&mut v, "name", length_field(self.name.as_str(), Some(1), Some(100)));
        record(&mut v, "email", email_field(self.email.as_str(), None));
        record(&mut v, "message", length_field(self.message.as_str(), Some(10), Some(5000)));
        assert(v@.map_values(|f: FieldError| f.failure()) =~= self.failures());
        finish(v, Vec::new())
    }
}

} // verus!
