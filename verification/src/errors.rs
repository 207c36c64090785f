//! The crate's error taxonomy.
//!
//! Connection-level failures are fatal to the operation that met them;
//! tool-execution failures are recoverable and are surfaced to the
//! conversation as structured payloads instead.

use vstd::prelude::*;

verus! {

/// Every failure the core can report, each carrying its message text.
#[derive(Debug)]
pub enum CoreError {
    /// A pipe or process failure at the transport boundary.
    TransportIo(String),
    /// An id mismatch or a malformed frame.
    ProtocolViolation(String),
    /// The initialize exchange failed; the session is unusable.
    HandshakeFailed(String),
    /// A tool call named a tool nobody provides.
    ToolNotFound(String),
    /// A tool ran and reported failure.
    ToolExecutionError(String),
    /// The chat-completion endpoint call failed.
    EndpointError(String),
}

/// The message text carried by an error.
pub open spec fn error_text(e: CoreError) -> Seq<char> {
    match e {
        CoreError::TransportIo(s) => s@,
        CoreError::ProtocolViolation(s) => s@,
        CoreError::HandshakeFailed(s) => s@,
        CoreError::ToolNotFound(s) => s@,
        CoreError::ToolExecutionError(s) => s@,
        CoreError::EndpointError(s) => s@,
    }
}

impl CoreError {
    /// The carried message, unchanged.
    pub fn message<'a>(&'a self) -> (r: &'a String)
        ensures
            r@ == error_text(*self),
    {
        match self {
            CoreError::TransportIo(s) => s,
            CoreError::ProtocolViolation(s) => s,
            CoreError::HandshakeFailed(s) => s,
            CoreError::ToolNotFound(s) => s,
            CoreError::ToolExecutionError(s) => s,
            CoreError::EndpointError(s) => s,
        }
    }
}

} // verus!
