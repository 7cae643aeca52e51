//! Internal dynamic-DNS settings.

use vstd::prelude::*;

verus! {

/// Credentials and host used by the dynamic-DNS update client.
#[derive(Clone, Debug, PartialEq, Eq)]
pub struct Config {
    pub host: String,
    pub username: String,
    pub password: String,
}

} // verus!
