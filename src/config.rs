use vstd::prelude::*;

verus! {

/// The query behind the listing: every row of the table, by ascending id.
pub const LIST_QUERY: &'static str = "SELECT id, description, done FROM todos ORDER BY id";

/// The address the service listens on: all interfaces, port 3000.
pub const LISTEN_ADDRESS: &'static str = "0.0.0.0:3000";

/// The path of the listing route.
pub const ROUTE_PATH: &'static str = "/";

/// The environment variable that holds the connection string of the store.
pub const DATABASE_URL_VAR: &'static str = "DATABASE_URL";

/// Settings of the connection pool.
pub struct PoolConfig {
    /// The ceiling on connections open at once.
    pub max_connections: u32,
    /// How long, in seconds, acquiring a connection may wait before it fails.
    pub acquire_timeout_secs: u64,
}

/// The pool of the service: at most five connections, and an acquisition that
/// gives up after three seconds rather than waiting without end.
pub fn pool_config() -> (r: PoolConfig)
    ensures
        r.max_connections == 5,
        r.acquire_timeout_secs == 3,
{
    PoolConfig { max_connections: 5, acquire_timeout_secs: 3 }
}

} // verus!
