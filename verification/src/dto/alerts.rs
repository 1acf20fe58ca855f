//! Public shape of an instance alert.
use vstd::prelude::*;
use crate::entities::{AlertModel, Micros};

verus! {

/// Public shape of an alert: no `created_by` (which admin authored it is
/// nobody else's business on an unauthenticated route), no `is_active` (a
/// row reaching this shape is already known to be active).
pub struct PublicAlertResponse {
    pub id: u128,
    pub kind: String,
    pub message: String,
    pub link_url: Option<String>,
    pub starts_at: Micros,
    pub ends_at: Option<Micros>,
}

impl From<AlertModel> for PublicAlertResponse {
    fn from(row: AlertModel) -> (r: Self) {
        PublicAlertResponse {
            id: row.id,
            kind: row.kind,
            message: row.message,
            link_url: row.link_url,
            starts_at: row.starts_at,
            ends_at: row.ends_at,
        }
    }
}

impl vstd::std_specs::convert::FromSpecImpl<AlertModel> for PublicAlertResponse {
    open spec fn obeys_from_spec() -> bool {
        true
    }

    open spec fn from_spec(row: AlertModel) -> PublicAlertResponse {
        PublicAlertResponse {
            id: row.id,
            kind: row.kind,
            message: row.message,
            link_url: row.link_url,
            starts_at: row.starts_at,
            ends_at: row.ends_at,
        }
    }
}

} // verus!
