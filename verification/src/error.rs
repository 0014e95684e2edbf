use vstd::prelude::*;

use crate::message::ResponseHead;

verus! {

/// An expect-handler or application-handler failure that can be turned
/// directly into a wire response.
#[derive(Clone, Copy, Debug, PartialEq, Eq, Structural)]
pub struct ResponseError {
    pub status: u16,
}

impl ResponseError {
    /// The wire response this error converts into; an expect-handler failure
    /// short-circuits the request with exactly this response.
    pub fn error_response(&self) -> (h: ResponseHead)
        ensures
            h.status == self.status,
    {
        ResponseHead { status: self.status }
    }
}

/// An upgrade-handler failure. The protocol has already left normal response
/// mode on that connection, so this cannot become a response; it is only
/// reported to the connection driver.
#[derive(Clone, Copy, Debug, PartialEq, Eq, Structural)]
pub struct UpgradeError {
    pub reason: u64,
}

/// Failure to resolve a request target to an open transport connection.
#[derive(Clone, Copy, Debug, PartialEq, Eq, Structural)]
pub enum ConnectError {
    /// The resolver itself failed, with its error code.
    Resolver(u64),
    /// The target could not be mapped to any address.
    Unresolved,
    /// Establishing the transport timed out.
    Timeout,
}

/// The one error type surfaced by both client operations: a resolution
/// failure, or a protocol-level failure after a connection was obtained.
#[derive(Clone, Copy, Debug, PartialEq, Eq, Structural)]
pub enum SendRequestError {
    Connect(ConnectError),
    /// Send/receive failed after the connection was obtained, with the
    /// connection's error code.
    Protocol(u64),
}

} // verus!
