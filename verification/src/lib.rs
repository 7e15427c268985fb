//! Client-side access layer for a remote graph-database service.
//!
//! The crate keeps a bounded set of connection handles to one or more server
//! endpoints, hands out authenticated single-owner sessions, and reclaims
//! handles when a session ends.  Everything that computes — endpoint
//! selection, pool bookkeeping, the authentication and session lifecycle
//! decisions, and the query-text builders — lives here and is verified.
//! The network itself (opening a transport, sending a request) is left to a
//! thin unverified driver that feeds the results back in as plain values.

pub mod connection;
pub mod connection_pool;
pub mod graph_types;
pub mod nebula_schema;
pub mod numfmt;
pub mod pool;
pub mod pool_config;
pub mod session;
pub mod text;
