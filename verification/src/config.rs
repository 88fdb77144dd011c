//! The settings the server is started with.

use vstd::prelude::*;

verus! {

/// The port the server listens on when none is given.
pub const DEFAULT_PORT: u16 = 8888;

/// The settings the server is started with.
pub struct ServerConfig {
    /// The port the server runs on.
    pub port: u16,
    /// The path at which v1 user functions are found.
    pub code_path: String,
}

/// The path at which v1 user functions are found when none is given.
pub open spec fn spec_default_code_path() -> Seq<char> {
    "/userfunc/user"@
}

impl Default for ServerConfig {
    fn default() -> (config: Self)
        ensures
            config.port == DEFAULT_PORT,
            config.code_path@ == spec_default_code_path(),
    {
        ServerConfig { port: DEFAULT_PORT, code_path: String::from_str("/userfunc/user") }
    }
}

} // verus!
