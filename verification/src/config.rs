//! OAuth client configuration: the application's identifier and
//! secret, supplied by the caller.

use vstd::prelude::*;

verus! {

/// OAuth client credentials of the application itself.
#[derive(Debug)]
pub struct Config {
    pub client_id: u64,
    pub client_secret: String,
}

} // verus!
