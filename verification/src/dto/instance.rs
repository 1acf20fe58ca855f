//! Public instance configuration.
use vstd::prelude::*;

verus! {

pub struct PublicInstanceConfig {
    pub hide_landing_page: bool,
}

} // verus!
