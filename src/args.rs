//! The run's configuration, as the operator gives it on the command line.
use vstd::prelude::*;

verus! {

/// Where the archive server is, how to authenticate to it, and the catalog
/// session.
#[derive(Debug, Clone)]
pub struct Args {
    /// The archive server, `host:port`.
    pub endpoint: String,
    /// The archive server's API key.
    pub api_key: String,
    /// The catalog session cookies.
    pub cookies: String,
}

} // verus!
