//! The plugin's connection settings.
use vstd::prelude::*;

use crate::common::protocol::DEFAULT_PORT;

verus! {

/// Connection settings, kept beside the plugin's numeric parameters.
#[derive(Debug, Clone, PartialEq, Eq)]
pub struct ConnectionConfig {
    pub host: String,
    pub port: u16,
}

impl Default for ConnectionConfig {
    fn default() -> (c: ConnectionConfig)
        ensures
            c.host@ == "127.0.0.1"@,
            c.port == 7271,
    {
        ConnectionConfig { host: String::from_str("127.0.0.1"), port: DEFAULT_PORT }
    }
}

} // verus!
