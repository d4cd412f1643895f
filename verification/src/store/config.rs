use vstd::prelude::*;
use vstd::string::*;

verus! {

/// Configuration of the SQLite connection pool.
#[derive(Debug, Clone)]
pub struct DatabaseConfig {
    /// Path to the SQLite database file.
    pub db_path: String,
    /// Maximum number of connections in the pool.
    pub max_connections: u32,
    /// Minimum number of idle connections.
    pub min_connections: u32,
    /// Connection timeout, in seconds.
    pub connect_timeout_secs: u64,
    /// Maximum lifetime of a connection, in seconds.
    pub max_lifetime_secs: Option<u64>,
    /// Idle timeout of a connection, in seconds.
    pub idle_timeout_secs: Option<u64>,
}

impl Default for DatabaseConfig {
    /// `yunara.db`, 10 to 1 connections, a 30 second connection timeout, a
    /// 30 minute lifetime and a 10 minute idle timeout.
    fn default() -> (c: DatabaseConfig)
        ensures
            c.db_path@ == seq!['y', 'u', 'n', 'a', 'r', 'a', '.', 'd', 'b'],
            c.max_connections == 10,
            c.min_connections == 1,
            c.connect_timeout_secs == 30,
            c.max_lifetime_secs == Some(1800u64),
            c.idle_timeout_secs == Some(600u64),
    {
        let db_path = String::from_str("yunara.db");
        proof {
            reveal_strlit("yunara.db");
        }
        DatabaseConfig {
            db_path,
            max_connections: 10,
            min_connections: 1,
            connect_timeout_secs: 30,
            max_lifetime_secs: Some(1800),
            idle_timeout_secs: Some(600),
        }
    }
}

} // verus!
