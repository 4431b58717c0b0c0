//! The closed error taxonomy of the transport layer.
//!
//! Every caller-visible failure is one of these typed values; the transport
//! never surfaces a silent default. Transport-send failures, disconnection,
//! and timeouts are distinct variants so that callers can decide whether a
//! retry is worthwhile.

use vstd::prelude::*;

verus! {

/// Errors surfaced by the RPC client and the engine supervisor.
#[derive(Debug, Clone, PartialEq, Eq)]
pub enum Error {
    /// A call was issued before the client instance was initialized.
    NotInitialized,
    /// The socket write for an outbound request was rejected; the caller
    /// fails immediately and nothing stays in the correlation table.
    SendFailed,
    /// The transport dropped while the call was in flight.
    Disconnected,
    /// No reply arrived within the call's timeout ceiling.
    Timeout,
    /// The engine answered with an explicit error payload, surfaced verbatim.
    Protocol { code: i64, message: String },
    /// A reply payload was present but did not have the expected shape.
    Decode,
    /// The engine never became reachable within the initial retry budget.
    Init(String),
    /// A failure of the underlying websocket transport.
    WebSocket(String),
    /// A configuration defect discovered while preparing the engine.
    Config(String),
    /// Any other failure of the surrounding glue, with a description.
    Custom(String),
}

impl Error {
    /// True for the errors that end one particular call but leave the
    /// connection usable, as opposed to failures of the whole instance.
    pub fn is_per_call(&self) -> (r: bool)
        ensures
            r == (self is SendFailed || self is Disconnected || self is Timeout
                || self is Protocol || self is Decode),
    {
        match self {
            Error::SendFailed => true,
            Error::Disconnected => true,
            Error::Timeout => true,
            Error::Protocol { .. } => true,
            Error::Decode => true,
            _ => false,
        }
    }
}

} // verus!
