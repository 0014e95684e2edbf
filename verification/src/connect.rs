use vstd::prelude::*;

use crate::error::{ConnectError, SendRequestError};
use crate::message::{Body, ClientResponse, RequestHead, ResponseHead};
use crate::stream::{BoxedSocket, DuplexStream, Transport};

verus! {

/// A pre-resolved network address for a request target.
#[derive(Clone, Copy, Debug, PartialEq, Eq, Structural)]
pub struct Address {
    pub host: u32,
    pub port: u16,
}

/// What the connector hands to the resolver: the request's target plus an
/// optional pre-resolved address.
pub struct ConnectionTarget {
    pub uri: String,
    pub addr: Option<Address>,
}

/// A handle standing for one resolved, open connection. Each client
/// operation acquires exactly one and must end with its ownership either
/// transferred into the operation's result or handed back for release.
#[derive(Clone, Copy, Debug, PartialEq, Eq, Structural)]
pub struct Connection {
    pub id: u64,
}

/// Where a client operation stands.
#[derive(Clone, Copy, Debug, PartialEq, Eq, Structural)]
pub enum OpPhase {
    /// Waiting for the resolver's verdict on the target.
    Resolving,
    /// A connection was acquired and its exchange is in flight.
    Using(Connection),
    /// The operation delivered its result or failed.
    Finished,
}

/// Who is responsible for the operation's connection right now.
#[derive(Clone, Copy, Debug, PartialEq, Eq, Structural)]
pub enum ConnStatus {
    /// No connection was acquired (yet, or at all).
    NotAcquired,
    /// The operation holds the connection; cancelling must release it.
    Held,
    /// Ownership moved into the exchange and its result; the connection
    /// capability's own cleanup covers it from here on.
    Transferred,
}

/// The phase/status linkage every client operation maintains: a connection
/// is held exactly while its exchange is in flight, and never before one
/// was resolved.
pub open spec fn op_wf(phase: OpPhase, status: ConnStatus) -> bool {
    &&& (phase is Using) <==> (status is Held)
    &&& (phase is Resolving) ==> (status is NotAcquired)
}

/// What a request operation asks its driver to do after resolution.
pub enum SendStep {
    /// Perform the connection's send-request operation with exactly the
    /// head and body the operation was started with, then report back.
    Dispatch(Connection, RequestHead, Body),
    /// Resolution failed; the operation is over and this is its error.
    /// No send or receive path is ever entered.
    Failed(SendRequestError),
}

/// What a tunnel operation asks its driver to do after resolution.
pub enum TunnelStep {
    /// Perform the connection's open-tunnel operation with exactly the head
    /// the operation was started with, then report back.
    Dispatch(Connection, RequestHead),
    /// Resolution failed; the operation is over and this is its error.
    /// No send or receive path is ever entered.
    Failed(SendRequestError),
}

/// One request/response exchange: resolve the target to a connection, send
/// the request over it, and map the result. The operation owns the request
/// values until they are dispatched and owns the connection's release
/// obligation until ownership is transferred or the operation is cancelled.
pub struct SendRequestOp {
    head: Option<RequestHead>,
    body: Option<Body>,
    target: ConnectionTarget,
    phase: OpPhase,
    status: ConnStatus,
}

impl SendRequestOp {
    pub closed spec fn spec_head(self) -> Option<RequestHead> {
        self.head
    }

    pub closed spec fn spec_body(self) -> Option<Body> {
        self.body
    }

    pub closed spec fn spec_target(self) -> ConnectionTarget {
        self.target
    }

    pub closed spec fn spec_phase(self) -> OpPhase {
        self.phase
    }

    pub closed spec fn spec_status(self) -> ConnStatus {
        self.status
    }

    /// The invariant every reachable operation satisfies.
    pub open spec fn wf(self) -> bool {
        &&& op_wf(self.spec_phase(), self.spec_status())
        &&& (self.spec_phase() is Resolving) ==> (self.spec_head() is Some && self.spec_body() is Some)
    }

    /// Begin an exchange: the target to resolve is the head's target
    /// together with the given address, and nothing has been acquired.
    pub fn start(head: RequestHead, body: Body, addr: Option<Address>) -> (op: SendRequestOp)
        ensures
            op.wf(),
            op.spec_phase() is Resolving,
            op.spec_status() is NotAcquired,
            op.spec_target().uri@ == head.uri@,
            op.spec_target().addr == addr,
            op.spec_head() == Some(head),
            op.spec_body() == Some(body),
    {
        let uri = head.uri.clone();
        SendRequestOp {
            target: ConnectionTarget { uri, addr },
            head: Some(head),
            body: Some(body),
            phase: OpPhase::Resolving,
            status: ConnStatus::NotAcquired,
        }
    }

    /// What the resolver must be asked to resolve.
    pub fn target(&self) -> (t: &ConnectionTarget)
        ensures
            *t == self.spec_target(),
    {
        &self.target
    }

    /// Feed in the resolver's verdict. Failure ends the operation with the
    /// resolver's error, as the one surfaced error type, before any send
    /// path is entered; success hands out the stored request values for the
    /// exchange and leaves the operation holding the connection.
    pub fn on_resolved(&mut self, r: Result<Connection, ConnectError>) -> (step: SendStep)
        requires
            old(self).wf(),
            old(self).spec_phase() is Resolving,
        ensures
            final(self).wf(),
            r matches Ok(c) ==> {
                &&& step matches SendStep::Dispatch(c2, h, b) && c2 == c
                    && old(self).spec_head() == Some(h) && old(self).spec_body() == Some(b)
                &&& final(self).spec_phase() == OpPhase::Using(c)
                &&& final(self).spec_status() is Held
            },
            r matches Err(e) ==> {
                &&& step == SendStep::Failed(SendRequestError::Connect(e))
                &&& final(self).spec_phase() is Finished
                &&& final(self).spec_status() is NotAcquired
            },
            final(self).spec_target() == old(self).spec_target(),
    {
        match r {
            Ok(c) => {
                let head = self.head.take();
                let body = self.body.take();
                self.phase = OpPhase::Using(c);
                self.status = ConnStatus::Held;
                match (head, body) {
                    (Some(h), Some(b)) => SendStep::Dispatch(c, h, b),
                    _ => unreached(),
                }
            },
            Err(e) => {
                self.phase = OpPhase::Finished;
                SendStep::Failed(SendRequestError::Connect(e))
            },
        }
    }

    /// The connection the operation still holds, if any.
    pub fn connection(&self) -> (c: Option<Connection>)
        ensures
            self.spec_phase() matches OpPhase::Using(conn) ==> c == Some(conn),
            !(self.spec_phase() is Using) ==> c is None,
    {
        match self.phase {
            OpPhase::Using(c) => Some(c),
            _ => None,
        }
    }

    /// Feed in the exchange's outcome. The response head and payload become
    /// the client response unchanged; an error passes through unchanged.
    /// Either way the connection's ownership has moved into the exchange:
    /// its further cleanup is the connection capability's own business, and
    /// this operation retains nothing.
    pub fn on_response(&mut self, r: Result<(ResponseHead, Vec<u8>), SendRequestError>) -> (out: Result<
        ClientResponse,
        SendRequestError,
    >)
        requires
            old(self).wf(),
            old(self).spec_phase() is Using,
        ensures
            final(self).wf(),
            final(self).spec_phase() is Finished,
            final(self).spec_status() is Transferred,
            r matches Ok(hp) ==> (out matches Ok(resp) && resp.head == hp.0 && resp.payload == hp.1),
            r matches Err(e) ==> out == Err::<ClientResponse, SendRequestError>(e),
    {
        self.phase = OpPhase::Finished;
        self.status = ConnStatus::Transferred;
        match r {
            Ok((h, p)) => Ok(ClientResponse::new(h, p)),
            Err(e) => Err(e),
        }
    }

    /// Abandon the operation before completion. A connection it still holds
    /// is handed back and must be released by the caller; afterwards the
    /// operation retains nothing, so a dropped pending exchange leaks no
    /// connection and releases none twice.
    pub fn cancel(self) -> (rel: Option<Connection>)
        requires
            self.wf(),
        ensures
            self.spec_phase() matches OpPhase::Using(c) ==> rel == Some(c),
            !(self.spec_phase() is Using) ==> rel is None,
    {
        match self.phase {
            OpPhase::Using(c) => Some(c),
            _ => None,
        }
    }
}

/// One tunnel opening: resolve the target to a connection, open the tunnel
/// over it, and erase the returned transport into the one boxed stream type.
pub struct TunnelOp {
    head: Option<RequestHead>,
    target: ConnectionTarget,
    phase: OpPhase,
    status: ConnStatus,
}

impl TunnelOp {
    pub closed spec fn spec_head(self) -> Option<RequestHead> {
        self.head
    }

    pub closed spec fn spec_target(self) -> ConnectionTarget {
        self.target
    }

    pub closed spec fn spec_phase(self) -> OpPhase {
        self.phase
    }

    pub closed spec fn spec_status(self) -> ConnStatus {
        self.status
    }

    /// The invariant every reachable operation satisfies.
    pub open spec fn wf(self) -> bool {
        &&& op_wf(self.spec_phase(), self.spec_status())
        &&& (self.spec_phase() is Resolving) ==> (self.spec_head() is Some)
    }

    /// Begin a tunnel opening; the target is built exactly as for a request.
    pub fn start(head: RequestHead, addr: Option<Address>) -> (op: TunnelOp)
        ensures
            op.wf(),
            op.spec_phase() is Resolving,
            op.spec_status() is NotAcquired,
            op.spec_target().uri@ == head.uri@,
            op.spec_target().addr == addr,
            op.spec_head() == Some(head),
    {
        let uri = head.uri.clone();
        TunnelOp {
            target: ConnectionTarget { uri, addr },
            head: Some(head),
            phase: OpPhase::Resolving,
            status: ConnStatus::NotAcquired,
        }
    }

    /// What the resolver must be asked to resolve.
    pub fn target(&self) -> (t: &ConnectionTarget)
        ensures
            *t == self.spec_target(),
    {
        &self.target
    }

    /// Feed in the resolver's verdict; as for a request, failure surfaces
    /// the resolver's error before any send path is entered.
    pub fn on_resolved(&mut self, r: Result<Connection, ConnectError>) -> (step: TunnelStep)
        requires
            old(self).wf(),
            old(self).spec_phase() is Resolving,
        ensures
            final(self).wf(),
            r matches Ok(c) ==> {
                &&& step matches TunnelStep::Dispatch(c2, h) && c2 == c && old(self).spec_head()
                    == Some(h)
                &&& final(self).spec_phase() == OpPhase::Using(c)
                &&& final(self).spec_status() is Held
            },
            r matches Err(e) ==> {
                &&& step == TunnelStep::Failed(SendRequestError::Connect(e))
                &&& final(self).spec_phase() is Finished
                &&& final(self).spec_status() is NotAcquired
            },
            final(self).spec_target() == old(self).spec_target(),
    {
        match r {
            Ok(c) => {
                let head = self.head.take();
                self.phase = OpPhase::Using(c);
                self.status = ConnStatus::Held;
                match head {
                    Some(h) => TunnelStep::Dispatch(c, h),
                    None => unreached(),
                }
            },
            Err(e) => {
                self.phase = OpPhase::Finished;
                TunnelStep::Failed(SendRequestError::Connect(e))
            },
        }
    }

    /// The connection the operation still holds, if any.
    pub fn connection(&self) -> (c: Option<Connection>)
        ensures
            self.spec_phase() matches OpPhase::Using(conn) ==> c == Some(conn),
            !(self.spec_phase() is Using) ==> c is None,
    {
        match self.phase {
            OpPhase::Using(c) => Some(c),
            _ => None,
        }
    }

    /// Feed in the tunnel outcome. The returned concrete transport —
    /// whichever kind it is — is wrapped into exactly one erased stream
    /// whose observable state is the transport's, unchanged; an error
    /// passes through unchanged. Ownership has moved into the result.
    pub fn on_tunnel(&mut self, r: Result<(ResponseHead, Transport), SendRequestError>) -> (out: Result<
        (ResponseHead, BoxedSocket),
        SendRequestError,
    >)
        requires
            old(self).wf(),
            old(self).spec_phase() is Using,
        ensures
            final(self).wf(),
            final(self).spec_phase() is Finished,
            final(self).spec_status() is Transferred,
            r matches Ok(ht) ==> (out matches Ok(hs) && hs.0 == ht.0 && hs.1.model() == ht.1.model()),
            r matches Err(e) ==> out == Err::<(ResponseHead, BoxedSocket), SendRequestError>(e),
    {
        self.phase = OpPhase::Finished;
        self.status = ConnStatus::Transferred;
        match r {
            Ok((h, io)) => Ok((h, BoxedSocket::new(io))),
            Err(e) => Err(e),
        }
    }

    /// Abandon the operation before completion, as for a request: a still
    /// held connection is handed back for release, nothing is retained.
    pub fn cancel(self) -> (rel: Option<Connection>)
        requires
            self.wf(),
        ensures
            self.spec_phase() matches OpPhase::Using(c) ==> rel == Some(c),
            !(self.spec_phase() is Using) ==> rel is None,
    {
        match self.phase {
            OpPhase::Using(c) => Some(c),
            _ => None,
        }
    }
}

/// Adapts a generic "resolve target to connection" service into the two
/// client operations. The wrapped resolver is the caller's to drive; each
/// operation says what to resolve and what to do with the verdict.
pub struct ConnectorWrapper<T>(pub T);

impl<T> ConnectorWrapper<T> {
    /// The wrapped resolver service.
    pub fn resolver(&self) -> (r: &T)
        ensures
            *r == self.0,
    {
        &self.0
    }

    /// Begin one request/response exchange over a resolved connection.
    pub fn send_request(&self, head: RequestHead, body: Body, addr: Option<Address>) -> (op: SendRequestOp)
        ensures
            op.wf(),
            op.spec_phase() is Resolving,
            op.spec_status() is NotAcquired,
            op.spec_target().uri@ == head.uri@,
            op.spec_target().addr == addr,
            op.spec_head() == Some(head),
            op.spec_body() == Some(body),
    {
        SendRequestOp::start(head, body, addr)
    }

    /// Begin opening a raw tunnel over a resolved connection.
    pub fn open_tunnel(&self, head: RequestHead, addr: Option<Address>) -> (op: TunnelOp)
        ensures
            op.wf(),
            op.spec_phase() is Resolving,
            op.spec_status() is NotAcquired,
            op.spec_target().uri@ == head.uri@,
            op.spec_target().addr == addr,
            op.spec_head() == Some(head),
    {
        TunnelOp::start(head, addr)
    }
}

/// No client operation leaks its connection: the one connection a
/// resolution can acquire is never acquired, still held, or transferred
/// into the result — a finished operation holds nothing, and cancelling a
/// pending one hands the held connection back for release.
pub proof fn lemma_no_connection_leak(phase: OpPhase, status: ConnStatus)
    requires
        op_wf(phase, status),
    ensures
        (status is Held) <==> (phase is Using),
        phase is Finished ==> !(status is Held),
        phase is Resolving ==> status is NotAcquired,
{
}

} // verus!
