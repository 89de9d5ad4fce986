//! Process configuration: the listening port.

use vstd::prelude::*;

verus! {

/// The port used when none is supplied.
pub const DEFAULT_PORT: u16 = 3000;

/// What the service needs to start.
pub struct AppConfig {
    pub port: u16,
}

impl AppConfig {
    /// Builds the configuration from an optionally supplied port,
    /// falling back to the default. The caller parses whatever source
    /// it reads the setting from.
    pub fn with_port(setting: Option<u16>) -> (c: AppConfig)
        ensures
            setting matches Some(p) ==> c.port == p,
            setting is None ==> c.port == DEFAULT_PORT,
    {
        match setting {
            Some(p) => AppConfig { port: p },
            None => AppConfig { port: DEFAULT_PORT },
        }
    }
}

} // verus!
