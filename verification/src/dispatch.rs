use vstd::prelude::*;

use crate::error::{ResponseError, UpgradeError};
use crate::message::Request;

verus! {

/// Where a connection stands between steps.
#[derive(Clone, Copy, Debug, PartialEq, Eq, Structural)]
pub enum DriverPhase {
    /// The connection was accepted; the context factory has not run yet.
    AwaitingContext,
    /// Ready for the next request.
    Idle,
    /// An expect-handler invocation for this request is outstanding.
    ExpectPending(Request),
    /// The upgrade handler owns the transport; no further requests here.
    Upgraded,
}

/// What the driver asks the surrounding protocol service to do next.
pub enum Directive<T> {
    /// Invoke the expect handler with this request.
    RunExpect(Request),
    /// Invoke the application handler with this request.
    RunApp(Request),
    /// Hand the original request and the connection's transport to the
    /// upgrade handler, which is their sole consumer from here on.
    Upgrade(Request, T),
    /// Emit this error-derived response directly; the application handler
    /// is never invoked for the request.
    Respond(ResponseError),
}

/// The per-connection request router. Created once per accepted connection,
/// it runs the context factory at most once and before any request, routes a
/// request signaling an expectation through the expect handler first, and
/// hands the transport to the upgrade handler exactly once when an upgrade
/// is requested and configured. It counts the application-handler
/// invocations it has directed, so the short-circuit guarantees are stated
/// over that count.
pub struct ConnectionDriver<T, V> {
    io: Option<T>,
    has_factory: bool,
    expect_enabled: bool,
    has_upgrade: bool,
    ctx: Option<V>,
    ctx_runs: u64,
    app_runs: u64,
    phase: DriverPhase,
    upg_failure: Option<UpgradeError>,
}

impl<T, V> ConnectionDriver<T, V> {
    pub closed spec fn spec_io(self) -> Option<T> {
        self.io
    }

    pub closed spec fn spec_has_factory(self) -> bool {
        self.has_factory
    }

    pub closed spec fn spec_expect_enabled(self) -> bool {
        self.expect_enabled
    }

    pub closed spec fn spec_has_upgrade(self) -> bool {
        self.has_upgrade
    }

    pub closed spec fn spec_context(self) -> Option<V> {
        self.ctx
    }

    /// How many times the context factory was directed to run.
    pub closed spec fn spec_ctx_runs(self) -> u64 {
        self.ctx_runs
    }

    /// How many application-handler invocations the driver has directed.
    pub closed spec fn spec_app_runs(self) -> u64 {
        self.app_runs
    }

    pub closed spec fn spec_phase(self) -> DriverPhase {
        self.phase
    }

    pub closed spec fn spec_upgrade_failure(self) -> Option<UpgradeError> {
        self.upg_failure
    }

    /// The invariant every reachable driver satisfies.
    pub open spec fn wf(self) -> bool {
        &&& self.spec_ctx_runs() <= 1
        &&& self.spec_has_factory() ==> ((self.spec_phase() is AwaitingContext) <==> self.spec_ctx_runs() == 0)
        &&& !self.spec_has_factory() ==> (self.spec_ctx_runs() == 0 && !(self.spec_phase() is AwaitingContext)
            && self.spec_context() is None)
        &&& (self.spec_context() is Some) <==> (self.spec_has_factory() && self.spec_ctx_runs() == 1)
        &&& (self.spec_phase() is Upgraded) <==> (self.spec_io() is None)
        &&& (self.spec_phase() is Upgraded) ==> self.spec_has_upgrade()
        &&& (self.spec_upgrade_failure() is Some) ==> (self.spec_phase() is Upgraded)
        &&& (self.spec_phase() matches DriverPhase::ExpectPending(q) ==> (q.expects_continue
            && self.spec_expect_enabled()))
    }

    /// Take charge of one accepted connection's transport. The context
    /// factory, when configured, must run before any request is processed.
    pub fn new(io: T, has_factory: bool, expect_enabled: bool, has_upgrade: bool) -> (d: ConnectionDriver<T, V>)
        ensures
            d.wf(),
            d.spec_io() == Some(io),
            d.spec_has_factory() == has_factory,
            d.spec_expect_enabled() == expect_enabled,
            d.spec_has_upgrade() == has_upgrade,
            d.spec_context() is None,
            d.spec_ctx_runs() == 0,
            d.spec_app_runs() == 0,
            d.spec_phase() == (if has_factory { DriverPhase::AwaitingContext } else { DriverPhase::Idle }),
            d.spec_upgrade_failure() is None,
    {
        ConnectionDriver {
            io: Some(io),
            has_factory,
            expect_enabled,
            has_upgrade,
            ctx: None,
            ctx_runs: 0,
            app_runs: 0,
            phase: if has_factory { DriverPhase::AwaitingContext } else { DriverPhase::Idle },
            upg_failure: None,
        }
    }

    /// Whether the context factory still has to run for this connection.
    pub fn needs_context(&self) -> (b: bool)
        ensures
            b == (self.spec_phase() is AwaitingContext),
    {
        match self.phase {
            DriverPhase::AwaitingContext => true,
            _ => false,
        }
    }

    /// Record the context factory's result. This is the one write to the
    /// per-connection context: it happens at most once, before any request.
    pub fn context_ready(&mut self, v: V)
        requires
            old(self).wf(),
            old(self).spec_phase() is AwaitingContext,
        ensures
            final(self).wf(),
            final(self).spec_phase() is Idle,
            final(self).spec_context() == Some(v),
            final(self).spec_ctx_runs() == old(self).spec_ctx_runs() + 1,
            final(self).spec_ctx_runs() == 1,
            final(self).spec_app_runs() == old(self).spec_app_runs(),
            final(self).spec_io() == old(self).spec_io(),
            final(self).spec_has_factory() == old(self).spec_has_factory(),
            final(self).spec_expect_enabled() == old(self).spec_expect_enabled(),
            final(self).spec_has_upgrade() == old(self).spec_has_upgrade(),
            final(self).spec_upgrade_failure() == old(self).spec_upgrade_failure(),
    {
        self.ctx = Some(v);
        self.ctx_runs = self.ctx_runs + 1;
        self.phase = DriverPhase::Idle;
    }

    /// The stored per-connection context, readable unchanged by every
    /// request-processing stage for the rest of the connection's life.
    pub fn context(&self) -> (c: Option<&V>)
        ensures
            c matches Some(v) ==> self.spec_context() == Some(*v),
            (c is None) == (self.spec_context() is None),
    {
        self.ctx.as_ref()
    }

    /// How many application-handler invocations were directed so far.
    pub fn app_handler_runs(&self) -> (n: u64)
        ensures
            n == self.spec_app_runs(),
    {
        self.app_runs
    }

    /// How many times the context factory was directed to run so far.
    pub fn context_factory_runs(&self) -> (n: u64)
        ensures
            n == self.spec_ctx_runs(),
    {
        self.ctx_runs
    }

    /// The recorded upgrade-handler failure, if any; it is only reported,
    /// never turned into a response.
    pub fn upgrade_failure(&self) -> (o: Option<UpgradeError>)
        ensures
            o == self.spec_upgrade_failure(),
    {
        match self.upg_failure {
            Some(e) => Some(e),
            None => None,
        }
    }

    /// Route one request. An upgrade request with a configured upgrade
    /// handler takes the transport and short-circuits everything else; a
    /// request signaling the expectation goes to the expect handler first;
    /// any other request goes straight to the application handler.
    pub fn begin_request(&mut self, req: Request) -> (d: Directive<T>)
        requires
            old(self).wf(),
            old(self).spec_phase() is Idle,
            old(self).spec_app_runs() < u64::MAX,
        ensures
            final(self).wf(),
            (req.requests_upgrade && old(self).spec_has_upgrade()) ==> {
                &&& d matches Directive::Upgrade(q, t) && q == req && old(self).spec_io() == Some(t)
                &&& final(self).spec_phase() is Upgraded
                &&& final(self).spec_io() is None
                &&& final(self).spec_app_runs() == old(self).spec_app_runs()
            },
            (!(req.requests_upgrade && old(self).spec_has_upgrade()) && req.expects_continue
                && old(self).spec_expect_enabled()) ==> {
                &&& d == Directive::<T>::RunExpect(req)
                &&& final(self).spec_phase() == DriverPhase::ExpectPending(req)
                &&& final(self).spec_io() == old(self).spec_io()
                &&& final(self).spec_app_runs() == old(self).spec_app_runs()
            },
            (!(req.requests_upgrade && old(self).spec_has_upgrade()) && !(req.expects_continue
                && old(self).spec_expect_enabled())) ==> {
                &&& d == Directive::<T>::RunApp(req)
                &&& final(self).spec_phase() is Idle
                &&& final(self).spec_io() == old(self).spec_io()
                &&& final(self).spec_app_runs() == old(self).spec_app_runs() + 1
            },
            final(self).spec_context() == old(self).spec_context(),
            final(self).spec_ctx_runs() == old(self).spec_ctx_runs(),
            final(self).spec_has_factory() == old(self).spec_has_factory(),
            final(self).spec_expect_enabled() == old(self).spec_expect_enabled(),
            final(self).spec_has_upgrade() == old(self).spec_has_upgrade(),
            final(self).spec_upgrade_failure() == old(self).spec_upgrade_failure(),
    {
        if req.requests_upgrade && self.has_upgrade {
            let io = self.io.take();
            self.phase = DriverPhase::Upgraded;
            match io {
                Some(t) => Directive::Upgrade(req, t),
                None => unreached(),
            }
        } else if req.expects_continue && self.expect_enabled {
            self.phase = DriverPhase::ExpectPending(req);
            Directive::RunExpect(req)
        } else {
            self.app_runs = self.app_runs + 1;
            Directive::RunApp(req)
        }
    }

    /// Record the expect handler's verdict. Success forwards the possibly
    /// modified request to the application handler; failure short-circuits
    /// with a response derived from the error and the application handler is
    /// not invoked.
    pub fn expect_done(&mut self, r: Result<Request, ResponseError>) -> (d: Directive<T>)
        requires
            old(self).wf(),
            old(self).spec_phase() is ExpectPending,
            old(self).spec_app_runs() < u64::MAX,
        ensures
            final(self).wf(),
            r matches Ok(q) ==> {
                &&& d == Directive::<T>::RunApp(q)
                &&& final(self).spec_app_runs() == old(self).spec_app_runs() + 1
            },
            r matches Err(e) ==> {
                &&& d == Directive::<T>::Respond(e)
                &&& final(self).spec_app_runs() == old(self).spec_app_runs()
            },
            final(self).spec_phase() is Idle,
            final(self).spec_io() == old(self).spec_io(),
            final(self).spec_context() == old(self).spec_context(),
            final(self).spec_ctx_runs() == old(self).spec_ctx_runs(),
            final(self).spec_has_factory() == old(self).spec_has_factory(),
            final(self).spec_expect_enabled() == old(self).spec_expect_enabled(),
            final(self).spec_has_upgrade() == old(self).spec_has_upgrade(),
            final(self).spec_upgrade_failure() == old(self).spec_upgrade_failure(),
    {
        self.phase = DriverPhase::Idle;
        match r {
            Ok(q) => {
                self.app_runs = self.app_runs + 1;
                Directive::RunApp(q)
            },
            Err(e) => Directive::Respond(e),
        }
    }

    /// Record how the upgrade handler ended. Its failure is only retained
    /// for reporting: the protocol has left response mode, so no response is
    /// produced and the connection stays upgraded.
    pub fn upgrade_result(&mut self, r: Result<(), UpgradeError>)
        requires
            old(self).wf(),
            old(self).spec_phase() is Upgraded,
        ensures
            final(self).wf(),
            r matches Err(e) ==> final(self).spec_upgrade_failure() == Some(e),
            r is Ok ==> final(self).spec_upgrade_failure() is None,
            final(self).spec_phase() is Upgraded,
            final(self).spec_io() == old(self).spec_io(),
            final(self).spec_context() == old(self).spec_context(),
            final(self).spec_ctx_runs() == old(self).spec_ctx_runs(),
            final(self).spec_app_runs() == old(self).spec_app_runs(),
            final(self).spec_has_factory() == old(self).spec_has_factory(),
            final(self).spec_expect_enabled() == old(self).spec_expect_enabled(),
            final(self).spec_has_upgrade() == old(self).spec_has_upgrade(),
    {
        match r {
            Ok(()) => {
                self.upg_failure = None;
            },
            Err(e) => {
                self.upg_failure = Some(e);
            },
        }
    }
}

/// A context factory runs at most once per connection; when one is
/// configured it has run exactly once by the time the connection has left
/// the accept phase, and a connection without one never runs any.
pub proof fn lemma_context_factory_once<T, V>(d: ConnectionDriver<T, V>)
    requires
        d.wf(),
    ensures
        d.spec_ctx_runs() <= 1,
        (d.spec_has_factory() && !(d.spec_phase() is AwaitingContext)) ==> d.spec_ctx_runs() == 1,
        !d.spec_has_factory() ==> d.spec_ctx_runs() == 0,
{
}

/// Once a connection is upgraded, the driver holds no transport any more —
/// the upgrade handler is its sole consumer — and an upgrade can only have
/// happened where an upgrade handler was configured.
pub proof fn lemma_upgrade_exclusive<T, V>(d: ConnectionDriver<T, V>)
    requires
        d.wf(),
        d.spec_phase() is Upgraded,
    ensures
        d.spec_io() is None,
        d.spec_has_upgrade(),
{
}

} // verus!
