//! A thin owner around the connection pool, for callers that want to hold
//! the pool as one value.

use vstd::prelude::*;

use crate::connection_pool::ConnectionPool_nebula;

verus! {

/// Owns one connection pool.
pub struct Pool {
    pub connection_pool: ConnectionPool_nebula,
}

impl Pool {
    /// Wrap an existing connection pool.
    pub fn new(connection_pool: ConnectionPool_nebula) -> (r: Self)
        ensures
            r.connection_pool == connection_pool,
    {
        Pool { connection_pool }
    }
}

} // verus!
