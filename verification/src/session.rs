//! The session: an authenticated context bound to exactly one borrowed
//! connection.
//!
//! A session owns its connection handle for its whole life.  Termination
//! follows a fixed two-step protocol — sign the session id out with the
//! server, then give the handle back to the pool — and [`Session::terminate`]
//! consumes the session, so the protocol can run at most once per session;
//! the driver's guard runs it on every exit path, so it runs exactly once.

use vstd::prelude::*;

use crate::connection::Connection;
use crate::connection::spec_create_space_query_text;
use crate::connection::spec_create_tag_or_edge_query_text;
use crate::connection::spec_use_space_text;
use crate::graph_types::AuthResponse;
use crate::graph_types::ErrorCode;
use crate::nebula_schema::ColType;
use crate::nebula_schema::Tag;

verus! {

/// The abstract state of a session.
pub ghost struct SessionView {
    /// The id the server assigned on authentication.
    pub session_id: i64,
    /// The one borrowed connection handle.
    pub conn: Connection,
    /// The username the session authenticated with.
    pub username: Seq<char>,
    /// The password the session authenticated with.
    pub password: Seq<char>,
    /// The session's time zone name; empty means unnamed.
    pub time_zone_name: Seq<char>,
    /// The session's offset to UTC in seconds.
    pub offset_secs: i32,
    /// Stored request to keep the connection usable after this session's
    /// work.  It is accepted and carried, and deliberately drives no
    /// behaviour: termination treats every connection the same way.
    pub retry_connect: bool,
}

/// An authenticated session over one borrowed connection.
#[derive(Debug)]
pub struct Session {
    session_id: i64,
    conn: Connection,
    username: String,
    password: String,
    time_zone_name: String,
    offset_secs: i32,
    retry_connect: bool,
}

impl View for Session {
    type V = SessionView;

    closed spec fn view(&self) -> SessionView {
        SessionView {
            session_id: self.session_id,
            conn: self.conn,
            username: self.username@,
            password: self.password@,
            time_zone_name: self.time_zone_name@,
            offset_secs: self.offset_secs,
            retry_connect: self.retry_connect,
        }
    }
}

impl Session {
    /// A session from its parts: the server-assigned id, the borrowed
    /// connection, the credentials it authenticated with, and its time
    /// zone.
    pub fn new(
        session_id: i64,
        conn: Connection,
        username: String,
        password: String,
        time_zone_name: String,
        offset_secs: i32,
        retry_connect: bool,
    ) -> (r: Self)
        ensures
            r@ == (SessionView {
                session_id,
                conn,
                username: username@,
                password: password@,
                time_zone_name: time_zone_name@,
                offset_secs,
                retry_connect,
            }),
    {
        Session { session_id, conn, username, password, time_zone_name, offset_secs, retry_connect }
    }

    /// Build a session out of what the server answered to an authenticate
    /// request on `conn`.  A non-success code comes back as that very
    /// code — never as a transport error.  On that path the borrowed
    /// connection is consumed and dropped: it stays accounted in the
    /// pool's issued count and never returns to idle.  That slow leak of
    /// capacity on rejected credentials is a deliberate, documented
    /// decision — not repaired silently here, and asserted by the tests.
    ///
    /// A success response carries a session id and a time-zone offset;
    /// the server owes them, and callers pass only responses that hold
    /// them.
    pub fn from_auth_response(
        conn: Connection,
        username: String,
        password: String,
        retry_connect: bool,
        resp: AuthResponse,
    ) -> (r: Result<Session, ErrorCode>)
        requires
            resp.error_code == ErrorCode::SUCCEEDED ==> resp.session_id is Some
                && resp.time_zone_offset_seconds is Some,
        ensures
            resp.error_code != ErrorCode::SUCCEEDED ==> (r matches Err(e) && e == resp.error_code),
            resp.error_code == ErrorCode::SUCCEEDED ==> (r matches Ok(s) && s@ == (SessionView {
                session_id: resp.session_id->0,
                conn,
                username: username@,
                password: password@,
                time_zone_name: match resp.time_zone_name {
                    Some(n) => n@,
                    None => Seq::<char>::empty(),
                },
                offset_secs: resp.time_zone_offset_seconds->0,
                retry_connect,
            })),
    {
        if resp.error_code != ErrorCode::SUCCEEDED {
            return Err(resp.error_code);
        }
        let session_id = resp.session_id.unwrap();
        let offset_secs = resp.time_zone_offset_seconds.unwrap();
        let time_zone_name = match resp.time_zone_name {
            Some(n) => n,
            None => String::new(),
        };
        Ok(
            Session::new(
                session_id,
                conn,
                username,
                password,
                time_zone_name,
                offset_secs,
                retry_connect,
            ),
        )
    }

    /// The server-assigned session id: what execute and signout requests
    /// carry.
    pub fn session_id(&self) -> (r: i64)
        ensures
            r == self@.session_id,
    {
        self.session_id
    }

    /// The time zone name; empty means unnamed.
    pub fn time_zone_name(&self) -> (r: &str)
        ensures
            r@ == self@.time_zone_name,
    {
        self.time_zone_name.as_str()
    }

    /// The time zone offset to UTC in seconds.
    pub fn offset_secs(&self) -> (r: i32)
        ensures
            r == self@.offset_secs,
    {
        self.offset_secs
    }

    /// End the session: consume it and hand back the two things its
    /// termination protocol needs, in order — the session id to sign out
    /// with the server first, then the connection to give back to the
    /// pool.  Taking `self` by value makes a second termination of the
    /// same session impossible.
    pub fn terminate(self) -> (r: (i64, Connection))
        ensures
            r.0 == self@.session_id,
            r.1 == self@.conn,
    {
        (self.session_id, self.conn)
    }

    /// The text of a create-space query; see
    /// [`Connection::get_create_space_query`].
    pub fn get_create_space_query(
        &self,
        space_name: &str,
        partition_num: u8,
        replica_factor: u8,
        is_fixed_string: bool,
        fixed_string_len: u8,
        comment: &str,
    ) -> (r: String)
        ensures
            r@ == spec_create_space_query_text(
                space_name@,
                partition_num,
                replica_factor,
                is_fixed_string,
                fixed_string_len,
                comment@,
            ),
    {
        self.conn.get_create_space_query(
            space_name,
            partition_num,
            replica_factor,
            is_fixed_string,
            fixed_string_len,
            comment,
        )
    }

    /// The text of a create-tag or create-edge query; see
    /// [`Connection::get_create_tag_or_edge`].
    pub fn get_create_tag_or_edge(
        &self,
        space_name: &str,
        col_type: ColType,
        tag_name: &str,
        comment: &str,
        tags: Vec<Tag>,
    ) -> (r: String)
        ensures
            r@ == spec_create_tag_or_edge_query_text(
                space_name@,
                col_type,
                tag_name@,
                comment@,
                tags@,
            ),
    {
        self.conn.get_create_tag_or_edge(space_name, col_type, tag_name, comment, tags)
    }

    /// The text of a `use`-space statement.
    pub fn use_space(space_name: &str) -> (r: String)
        ensures
            r@ == spec_use_space_text(space_name@),
    {
        Connection::use_space(space_name)
    }
}

} // verus!
