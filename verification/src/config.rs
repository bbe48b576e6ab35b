//! The client's stored configuration.
//!
//! Only the shape of the record lives here; reading and writing the
//! configuration file is the surrounding application's business.

use vstd::prelude::*;

verus! {

/// The stored configuration: the API token used to authenticate.
#[derive(Debug, Clone)]
pub struct Config {
    pub api_token: String,
}

} // verus!
