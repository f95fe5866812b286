//! The errors of the library.
use vstd::prelude::*;

verus! {

/// A failure reported by the transport: a status code and its message.
#[derive(Debug, Clone, PartialEq, Eq)]
pub struct Status {
    pub code: i32,
    pub message: String,
}

/// What can go wrong in a session or a request.
#[derive(Debug, Clone, PartialEq, Eq)]
pub enum Error {
    /// The transport failed; the status that it gave.
    Response(Status),
    /// The channel between the transport and the session is gone.
    ChannelClosed,
    /// The first message of a watch was not a bare confirmation.
    CreateWatch,
    /// The first message of a keep-alive session did not confirm the lease.
    KeepAliveLease,
    /// A keep-alive request was made while the answer to the last one was
    /// still to come.
    KeepAliveInFlight,
    /// A session was used after it was cancelled or closed.
    StaleSession,
}

/// What the transport gave when asked for the next message of a stream.
#[derive(Debug, Clone)]
pub enum Received<T> {
    /// The next message.
    Message(T),
    /// The stream ended normally.
    End,
    /// The transport failed.
    Failed(Status),
}

} // verus!
