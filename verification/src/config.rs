//! Where the server listens.

use vstd::prelude::*;

verus! {

/// Address and port that the server binds.
#[derive(Debug, Clone)]
pub struct RunConfig {
    pub host: String,
    pub port: u16,
}

/// Process configuration.
#[derive(Debug, Clone)]
pub struct Config {
    pub run: RunConfig,
}

impl Config {
    /// Builds the configuration from the bind host and port that the
    /// command line or the environment supplied.
    pub fn new(host: String, port: u16) -> (config: Config)
        ensures
            config.run.host@ == host@,
            config.run.port == port,
    {
        Config { run: RunConfig { host, port } }
    }
}

} // verus!
