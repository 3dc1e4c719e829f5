//! The configuration of a suite.

use vstd::prelude::*;

verus! {

/// Variables that a suite takes from its environment.
#[derive(Debug)]
pub struct EnvConfig {
    /// Names and the values to store under them.
    pub store: Option<Vec<(String, String)>>,
}

/// The configuration of a suite.
#[derive(Debug)]
pub struct Config {
    /// What every endpoint is appended to.
    pub base_url: String,
    /// How requests authenticate: `bearer`, `basic`, or anything else
    /// for a token that is sent as it is.
    pub auth_method: Option<String>,
    /// The token that requests authenticate with.
    pub auth_token: Option<String>,
    /// Headers that every request carries, as names and values.
    pub default_headers: Option<Vec<(String, String)>>,
    /// Variables from the environment.
    pub env: Option<EnvConfig>,
    /// The commands that hooks may run; every command where there is no
    /// such list.
    pub allowed_commands: Option<Vec<String>>,
}

} // verus!
