//! Pool configuration: endpoint addresses, size bounds, timeouts and the
//! default credentials.  Immutable once the pool is constructed.

use vstd::prelude::*;

use crate::text;

verus! {

/// Configuration consumed by the connection pool.
///
/// The pool requires `min_connection_pool_size <= max_connection_pool_size`
/// and a non-empty address list; see [`crate::connection_pool`].
#[derive(Debug, Clone)]
pub struct PoolConfig {
    /// connection timeout in ms (stored; no behaviour is attached to it)
    pub timeout: u32,
    /// idle timeout in ms (stored; no behaviour is attached to it)
    pub idle_time: u32,
    /// max limit count of connections in pool
    pub max_connection_pool_size: u32,
    /// min limit count of connections in pool, also the initial count if
    /// every endpoint is reachable
    pub min_connection_pool_size: u32,
    /// addresses of graph servers, each `host:port`
    pub addresses: Vec<String>,
    /// username of user
    pub username: String,
    /// password of user
    pub password: String,
}

/// Every field of an all-default configuration: zero sizes and timeouts,
/// no addresses, empty credentials.
pub open spec fn config_is_default(c: PoolConfig) -> bool {
    &&& c.timeout == 0
    &&& c.idle_time == 0
    &&& c.max_connection_pool_size == 0
    &&& c.min_connection_pool_size == 0
    &&& c.addresses@ == Seq::<String>::empty()
    &&& c.username@ == Seq::<char>::empty()
    &&& c.password@ == Seq::<char>::empty()
}

impl Default for PoolConfig {
    fn default() -> (r: Self)
        ensures
            config_is_default(r),
    {
        PoolConfig {
            timeout: 0,
            idle_time: 0,
            max_connection_pool_size: 0,
            min_connection_pool_size: 0,
            addresses: Vec::new(),
            username: String::new(),
            password: String::new(),
        }
    }
}

impl PoolConfig {
    /// A configuration with every field at its default.
    pub fn new() -> (r: Self)
        ensures
            config_is_default(r),
    {
        Self::default()
    }

    /// A configuration cut out of a `user:password@host:port/...` URL, with
    /// the size bounds this client starts from: two eager connections, ten
    /// at most.
    pub fn new_conf(nebula_url: &str) -> (r: Self)
        requires
            text::url_well_formed(nebula_url@),
        ensures
            r.timeout == 0,
            r.idle_time == 0,
            r.min_connection_pool_size == 2,
            r.max_connection_pool_size == 10,
            r.addresses@.len() == 1,
            r.addresses@[0]@ == text::url_address(nebula_url@),
            r.username@ == text::url_username(nebula_url@),
            r.password@ == text::url_password(nebula_url@),
    {
        let (username, password, address) = text::parse_url(nebula_url);
        let mut conf = PoolConfig::new();
        conf.min_connection_pool_size(2);
        conf.max_connection_pool_size(10);
        conf.address(address);
        conf.set_username(username);
        conf.set_password(password);
        conf
    }

    /// Set the connect timeout in milliseconds.
    pub fn timeout(&mut self, timeout: u32)
        ensures
            *final(self) == (PoolConfig { timeout, ..*old(self) }),
    {
        self.timeout = timeout;
    }

    /// Set the idle timeout in milliseconds.
    pub fn idle_time(&mut self, idle_time: u32)
        ensures
            *final(self) == (PoolConfig { idle_time, ..*old(self) }),
    {
        self.idle_time = idle_time;
    }

    /// Set the upper bound on connections the pool may ever hold at once.
    pub fn max_connection_pool_size(&mut self, size: u32)
        ensures
            *final(self) == (PoolConfig { max_connection_pool_size: size, ..*old(self) }),
    {
        self.max_connection_pool_size = size;
    }

    /// Set the number of connections the pool creates eagerly.
    pub fn min_connection_pool_size(&mut self, size: u32)
        ensures
            *final(self) == (PoolConfig { min_connection_pool_size: size, ..*old(self) }),
    {
        self.min_connection_pool_size = size;
    }

    /// Replace the whole endpoint address list.
    pub fn addresses(&mut self, addresses: Vec<String>)
        ensures
            *final(self) == (PoolConfig { addresses, ..*old(self) }),
    {
        self.addresses = addresses;
    }

    /// Append one endpoint address to the list.
    pub fn address(&mut self, address: String)
        ensures
            final(self).addresses@ == old(self).addresses@.push(address),
            *final(self) == (PoolConfig { addresses: final(self).addresses, ..*old(self) }),
    {
        self.addresses.push(address);
    }

    /// Set the default username.
    pub fn set_username(&mut self, username: String)
        ensures
            *final(self) == (PoolConfig { username, ..*old(self) }),
    {
        self.username = username;
    }

    /// Set the default password.
    pub fn set_password(&mut self, password: String)
        ensures
            *final(self) == (PoolConfig { password, ..*old(self) }),
    {
        self.password = password;
    }
}

} // verus!
