//! Plain-value models of what the graph service reports back: the server's
//! logical error code, the transport-level failure, and the two response
//! shapes the client reads.  The wire protocol itself is an opaque
//! collaborator; the unverified driver decodes a response and hands it in
//! as one of these values.

use vstd::prelude::*;

verus! {

/// The server-reported logical outcome of an RPC, orthogonal to transport
/// success: a request can come back well-formed and still carry a failure
/// code such as a rejected credential pair.
#[allow(non_camel_case_types)]
#[derive(Clone, Copy, Debug, PartialEq, Eq, Structural)]
pub enum ErrorCode {
    SUCCEEDED,
    E_DISCONNECTED,
    E_FAIL_TO_CONNECT,
    /// The request never got a valid response: the single generic signal
    /// for a network or protocol failure.
    E_RPC_FAILURE,
    E_BAD_USERNAME_PASSWORD,
    E_SESSION_INVALID,
    E_SYNTAX_ERROR,
    E_UNKNOWN,
}

/// A transport-level failure: the RPC itself did not complete.  Distinct
/// from a server-reported [`ErrorCode`].
#[derive(Debug, Clone)]
pub struct TransportError {
    pub message: String,
}

/// What the server answers to an authenticate request.  On success it
/// assigns a session id and may name the session's time zone.
#[derive(Debug, Clone)]
pub struct AuthResponse {
    pub error_code: ErrorCode,
    pub session_id: Option<i64>,
    pub time_zone_offset_seconds: Option<i32>,
    pub time_zone_name: Option<String>,
}

/// What the server answers to an execute request: an error code, the column
/// names of the tabular result, and — where the result is a single string
/// column, which is all this client ever reads — those strings in row
/// order.  Formatting the full typed table is the formatter collaborator's
/// business, not this crate's.
#[derive(Debug, Clone)]
pub struct ExecutionResponse {
    pub error_code: ErrorCode,
    pub column_names: Vec<String>,
    pub string_values: Option<Vec<String>>,
}

/// Collapse the transport channel into the one generic RPC-failure code:
/// a response passes through, a transport failure becomes
/// [`ErrorCode::E_RPC_FAILURE`].
pub fn rpc_result_of<T>(r: Result<T, TransportError>) -> (out: Result<T, ErrorCode>)
    ensures
        match r {
            Ok(v) => out == Result::<T, ErrorCode>::Ok(v),
            Err(_) => out == Result::<T, ErrorCode>::Err(ErrorCode::E_RPC_FAILURE),
        },
{
    match r {
        Ok(v) => Ok(v),
        Err(_) => Err(ErrorCode::E_RPC_FAILURE),
    }
}

} // verus!
