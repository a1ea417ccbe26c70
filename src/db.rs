//! Settings and schema of the analytics store that shares this library's
//! data types.
use vstd::prelude::*;

pub mod migrations;

verus! {

/// Connection settings of the analytics store.
#[derive(Debug, Clone)]
pub struct DatabaseConfig {
    pub host: String,
    pub port: u16,
    pub username: String,
    pub password: String,
    pub database: String,
    pub max_connections: u32,
    pub connection_timeout_secs: u64,
}

impl Default for DatabaseConfig {
    /// A local server on the standard port, ten connections, thirty seconds.
    fn default() -> (r: DatabaseConfig)
        ensures
            r.host@ == "localhost"@,
            r.port == 5432,
            r.username@ == "postgres"@,
            r.password@ == "postgres"@,
            r.database@ == "solana_analytics"@,
            r.max_connections == 10,
            r.connection_timeout_secs == 30,
    {
        DatabaseConfig {
            host: String::from_str("localhost"),
            port: 5432,
            username: String::from_str("postgres"),
            password: String::from_str("postgres"),
            database: String::from_str("solana_analytics"),
            max_connections: 10,
            connection_timeout_secs: 30,
        }
    }
}

} // verus!
