//! How to reach the database.

use vstd::prelude::*;

verus! {

/// Define database connection information.
#[derive(Debug, Clone, PartialEq, Eq)]
pub struct DatabaseConfig {
    pub uri: String,
    /// How long to wait for a connection.
    pub connect_timeout: u64,
    /// How long a connection may stay idle.
    pub idle_timeout: u64,
    pub max_connections: u32,
    pub min_connections: u32,
    pub log: bool,
}

impl Default for DatabaseConfig {
    fn default() -> (config: Self)
        ensures
            config.uri@ == Seq::<char>::empty(),
            config.connect_timeout == 0,
            config.idle_timeout == 0,
            config.max_connections == 0,
            config.min_connections == 0,
            !config.log,
    {
        DatabaseConfig {
            uri: String::new(),
            connect_timeout: 0,
            idle_timeout: 0,
            max_connections: 0,
            min_connections: 0,
            log: false,
        }
    }
}

} // verus!
