use vstd::prelude::*;

verus! {

/// A server-side request as the protocol hooks see it: which optional
/// protocol mechanisms it signals, plus an identifier standing for the rest
/// of the head, which the hooks pass through untouched.
#[derive(Clone, Copy, Debug, PartialEq, Eq, Structural)]
pub struct Request {
    pub id: u64,
    /// The request declares a "continue before body" expectation.
    pub expects_continue: bool,
    /// The request asks to switch the connection to another protocol.
    pub requests_upgrade: bool,
}

/// The head of a client-side request; the connector reads only its target.
pub struct RequestHead {
    pub uri: String,
}

/// The head of a response produced by a connection.
#[derive(Clone, Copy, Debug, PartialEq, Eq, Structural)]
pub struct ResponseHead {
    pub status: u16,
}

/// A request body handed to a connection's send operation.
pub struct Body {
    pub bytes: Vec<u8>,
}

/// A completed client exchange: the response head plus its payload.
pub struct ClientResponse {
    pub head: ResponseHead,
    pub payload: Vec<u8>,
}

impl ClientResponse {
    pub fn new(head: ResponseHead, payload: Vec<u8>) -> (r: ClientResponse)
        ensures
            r.head == head,
            r.payload == payload,
    {
        ClientResponse { head, payload }
    }
}

} // verus!
