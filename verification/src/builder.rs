use vstd::prelude::*;

use crate::config::{KeepAlive, TimingPolicy};
use crate::dispatch::{ConnectionDriver, DriverPhase};
use crate::error::ResponseError;
use crate::message::Request;

verus! {

/// The default expect handler: a pass-through that accepts every request
/// unchanged, so the application handler always runs.
pub struct ExpectHandler;

impl ExpectHandler {
    pub fn call(&self, req: Request) -> (r: Result<Request, ResponseError>)
        ensures
            r == Ok::<Request, ResponseError>(req),
    {
        Ok(req)
    }
}

/// Placeholder type for the absent upgrade handler; a builder that was never
/// given an upgrade handler holds none, and this type is never invoked.
pub struct UpgradeHandler;

/// Placeholder type for the absent context factory; a builder that was never
/// given one holds none, and this type is never invoked.
pub struct ContextFactory;

/// Accumulates a timing policy, an expect handler, an optional upgrade
/// handler and an optional per-connection context factory, then freezes them
/// into a concrete protocol service. The builder is linear: every
/// configuration method consumes it and returns the updated value; swapping
/// one handler changes only that handler's slot.
pub struct HttpServiceBuilder<X = ExpectHandler, U = UpgradeHandler, C = ContextFactory> {
    pub keep_alive: KeepAlive,
    pub client_timeout: u64,
    pub client_disconnect: u64,
    pub handshake_timeout: u64,
    pub expect: X,
    pub upgrade: Option<U>,
    pub on_connect: Option<C>,
}

impl<X, U, C> HttpServiceBuilder<X, U, C> {
    /// The timing policy this configuration freezes into a built service.
    pub open spec fn spec_timing(self) -> TimingPolicy {
        TimingPolicy {
            keep_alive: self.keep_alive,
            client_header_timeout_ms: self.client_timeout,
            disconnect_timeout_ms: self.client_disconnect,
            handshake_timeout_ms: self.handshake_timeout,
        }
    }

    /// This configuration with the expect handler replaced and every other
    /// slot as it was.
    pub open spec fn spec_with_expect<X1>(self, x: X1) -> HttpServiceBuilder<X1, U, C> {
        HttpServiceBuilder {
            keep_alive: self.keep_alive,
            client_timeout: self.client_timeout,
            client_disconnect: self.client_disconnect,
            handshake_timeout: self.handshake_timeout,
            expect: x,
            upgrade: self.upgrade,
            on_connect: self.on_connect,
        }
    }

    /// This configuration with the upgrade handler replaced and every other
    /// slot as it was.
    pub open spec fn spec_with_upgrade<U1>(self, u: U1) -> HttpServiceBuilder<X, U1, C> {
        HttpServiceBuilder {
            keep_alive: self.keep_alive,
            client_timeout: self.client_timeout,
            client_disconnect: self.client_disconnect,
            handshake_timeout: self.handshake_timeout,
            expect: self.expect,
            upgrade: Some(u),
            on_connect: self.on_connect,
        }
    }
}

impl HttpServiceBuilder<ExpectHandler, UpgradeHandler, ContextFactory> {
    /// A fresh configuration: keep-alive of five seconds, three-second
    /// client-header and disconnect timeouts, a five-second handshake
    /// timeout, the pass-through expect handler, and no upgrade handler or
    /// context factory.
    pub fn new() -> (b: Self)
        ensures
            b.spec_timing() == (TimingPolicy {
                keep_alive: KeepAlive::Timeout(5),
                client_header_timeout_ms: 3000,
                disconnect_timeout_ms: 3000,
                handshake_timeout_ms: 5000,
            }),
            b.upgrade is None,
            b.on_connect is None,
    {
        HttpServiceBuilder {
            keep_alive: KeepAlive::Timeout(5),
            client_timeout: 3000,
            client_disconnect: 3000,
            handshake_timeout: 5000,
            expect: ExpectHandler,
            upgrade: None,
            on_connect: None,
        }
    }
}

impl<X, U, C> HttpServiceBuilder<X, U, C> {
    /// Set the keep-alive policy.
    pub fn keep_alive(self, val: KeepAlive) -> (b: Self)
        ensures
            b.keep_alive == val,
            b.client_timeout == self.client_timeout,
            b.client_disconnect == self.client_disconnect,
            b.handshake_timeout == self.handshake_timeout,
            b.expect == self.expect,
            b.upgrade == self.upgrade,
            b.on_connect == self.on_connect,
    {
        HttpServiceBuilder {
            keep_alive: val,
            client_timeout: self.client_timeout,
            client_disconnect: self.client_disconnect,
            handshake_timeout: self.handshake_timeout,
            expect: self.expect,
            upgrade: self.upgrade,
            on_connect: self.on_connect,
        }
    }

    /// Set the max milliseconds to receive a complete request header block;
    /// 0 disables the timeout.
    pub fn client_timeout(self, val: u64) -> (b: Self)
        ensures
            b.client_timeout == val,
            b.keep_alive == self.keep_alive,
            b.client_disconnect == self.client_disconnect,
            b.handshake_timeout == self.handshake_timeout,
            b.expect == self.expect,
            b.upgrade == self.upgrade,
            b.on_connect == self.on_connect,
    {
        HttpServiceBuilder {
            keep_alive: self.keep_alive,
            client_timeout: val,
            client_disconnect: self.client_disconnect,
            handshake_timeout: self.handshake_timeout,
            expect: self.expect,
            upgrade: self.upgrade,
            on_connect: self.on_connect,
        }
    }

    /// Set the max milliseconds for a graceful disconnect to complete;
    /// 0 disables the timeout.
    pub fn disconnect_timeout(self, val: u64) -> (b: Self)
        ensures
            b.client_disconnect == val,
            b.keep_alive == self.keep_alive,
            b.client_timeout == self.client_timeout,
            b.handshake_timeout == self.handshake_timeout,
            b.expect == self.expect,
            b.upgrade == self.upgrade,
            b.on_connect == self.on_connect,
    {
        HttpServiceBuilder {
            keep_alive: self.keep_alive,
            client_timeout: self.client_timeout,
            client_disconnect: val,
            handshake_timeout: self.handshake_timeout,
            expect: self.expect,
            upgrade: self.upgrade,
            on_connect: self.on_connect,
        }
    }

    /// Set the max milliseconds for secure-transport negotiation;
    /// 0 disables the timeout.
    pub fn ssl_handshake_timeout(self, val: u64) -> (b: Self)
        ensures
            b.handshake_timeout == val,
            b.keep_alive == self.keep_alive,
            b.client_timeout == self.client_timeout,
            b.client_disconnect == self.client_disconnect,
            b.expect == self.expect,
            b.upgrade == self.upgrade,
            b.on_connect == self.on_connect,
    {
        HttpServiceBuilder {
            keep_alive: self.keep_alive,
            client_timeout: self.client_timeout,
            client_disconnect: self.client_disconnect,
            handshake_timeout: val,
            expect: self.expect,
            upgrade: self.upgrade,
            on_connect: self.on_connect,
        }
    }

    /// Replace the expect handler. The handler is invoked with every request
    /// that signals the "continue before body" expectation; it must return
    /// the request for it to proceed to the application handler.
    pub fn expect<X1>(self, expect: X1) -> (b: HttpServiceBuilder<X1, U, C>)
        ensures
            b == self.spec_with_expect(expect),
    {
        HttpServiceBuilder {
            keep_alive: self.keep_alive,
            client_timeout: self.client_timeout,
            client_disconnect: self.client_disconnect,
            handshake_timeout: self.handshake_timeout,
            expect,
            upgrade: self.upgrade,
            on_connect: self.on_connect,
        }
    }

    /// Provide an upgrade handler. When a request asks to switch protocols,
    /// normal request handling halts and this handler receives the original
    /// request together with the connection's transport.
    pub fn upgrade<U1>(self, upgrade: U1) -> (b: HttpServiceBuilder<X, U1, C>)
        ensures
            b == self.spec_with_upgrade(upgrade),
    {
        HttpServiceBuilder {
            keep_alive: self.keep_alive,
            client_timeout: self.client_timeout,
            client_disconnect: self.client_disconnect,
            handshake_timeout: self.handshake_timeout,
            expect: self.expect,
            upgrade: Some(upgrade),
            on_connect: self.on_connect,
        }
    }

    /// Store a per-connection context factory. It runs once per accepted
    /// connection, and its result is retrievable by every request-processing
    /// stage on that connection.
    pub fn on_connect<C1>(self, f: C1) -> (b: HttpServiceBuilder<X, U, C1>)
        ensures
            b.on_connect == Some(f),
            b.keep_alive == self.keep_alive,
            b.client_timeout == self.client_timeout,
            b.client_disconnect == self.client_disconnect,
            b.handshake_timeout == self.handshake_timeout,
            b.expect == self.expect,
            b.upgrade == self.upgrade,
    {
        HttpServiceBuilder {
            keep_alive: self.keep_alive,
            client_timeout: self.client_timeout,
            client_disconnect: self.client_disconnect,
            handshake_timeout: self.handshake_timeout,
            expect: self.expect,
            upgrade: self.upgrade,
            on_connect: Some(f),
        }
    }

    /// Freeze the configuration into a service for the first HTTP protocol
    /// revision, bound to the given application handler.
    pub fn h1<S>(self, service: S) -> (svc: H1Service<S, X, U, C>)
        ensures
            svc.config == self.spec_timing(),
            svc.app == service,
            svc.expect == self.expect,
            svc.upgrade == self.upgrade,
            svc.on_connect == self.on_connect,
    {
        let config = TimingPolicy::new(
            self.keep_alive,
            self.client_timeout,
            self.client_disconnect,
            self.handshake_timeout,
        );
        H1Service { config, app: service, expect: self.expect, upgrade: self.upgrade, on_connect: self.on_connect }
    }

    /// Freeze the configuration into a service for the multiplexing HTTP
    /// protocol revision, bound to the given application handler. That
    /// protocol has no expectation or upgrade mechanism, so those two slots
    /// are dropped; the context factory is kept.
    pub fn h2<S>(self, service: S) -> (svc: H2Service<S, C>)
        ensures
            svc.config == self.spec_timing(),
            svc.app == service,
            svc.on_connect == self.on_connect,
    {
        let config = TimingPolicy::new(
            self.keep_alive,
            self.client_timeout,
            self.client_disconnect,
            self.handshake_timeout,
        );
        H2Service { config, app: service, on_connect: self.on_connect }
    }

    /// Freeze the configuration into the protocol-negotiating service,
    /// bound to the given application handler.
    pub fn finish<S>(self, service: S) -> (svc: HttpService<S, X, U, C>)
        ensures
            svc.config == self.spec_timing(),
            svc.app == service,
            svc.expect == self.expect,
            svc.upgrade == self.upgrade,
            svc.on_connect == self.on_connect,
    {
        let config = TimingPolicy::new(
            self.keep_alive,
            self.client_timeout,
            self.client_disconnect,
            self.handshake_timeout,
        );
        HttpService { config, app: service, expect: self.expect, upgrade: self.upgrade, on_connect: self.on_connect }
    }
}

/// A built service for the first HTTP protocol revision: the frozen timing
/// policy, the application handler, and the injected hooks.
pub struct H1Service<S, X, U, C> {
    pub config: TimingPolicy,
    pub app: S,
    pub expect: X,
    pub upgrade: Option<U>,
    pub on_connect: Option<C>,
}

impl<S, X, U, C> H1Service<S, X, U, C> {
    /// Take charge of one accepted connection: the returned driver directs
    /// the context factory (when configured) before any request, then routes
    /// each request through the expect and upgrade hooks.
    pub fn accept<T, V>(&self, io: T) -> (d: ConnectionDriver<T, V>)
        ensures
            d.wf(),
            d.spec_io() == Some(io),
            d.spec_has_factory() == (self.on_connect is Some),
            d.spec_expect_enabled(),
            d.spec_has_upgrade() == (self.upgrade is Some),
            d.spec_context() is None,
            d.spec_ctx_runs() == 0,
            d.spec_app_runs() == 0,
            d.spec_phase() == (if self.on_connect is Some {
                DriverPhase::AwaitingContext
            } else {
                DriverPhase::Idle
            }),
    {
        ConnectionDriver::new(io, self.on_connect.is_some(), true, self.upgrade.is_some())
    }
}

/// A built service for the multiplexing HTTP protocol revision: no
/// expectation or upgrade hooks, only the timing policy, the application
/// handler and the context factory.
pub struct H2Service<S, C> {
    pub config: TimingPolicy,
    pub app: S,
    pub on_connect: Option<C>,
}

impl<S, C> H2Service<S, C> {
    /// Take charge of one accepted connection. The driver never directs an
    /// expect or upgrade invocation: this protocol has neither mechanism.
    pub fn accept<T, V>(&self, io: T) -> (d: ConnectionDriver<T, V>)
        ensures
            d.wf(),
            d.spec_io() == Some(io),
            d.spec_has_factory() == (self.on_connect is Some),
            !d.spec_expect_enabled(),
            !d.spec_has_upgrade(),
            d.spec_context() is None,
            d.spec_ctx_runs() == 0,
            d.spec_app_runs() == 0,
            d.spec_phase() == (if self.on_connect is Some {
                DriverPhase::AwaitingContext
            } else {
                DriverPhase::Idle
            }),
    {
        ConnectionDriver::new(io, self.on_connect.is_some(), false, false)
    }
}

/// The protocol-negotiating service: configured like the first-revision
/// service, with the hooks applying once the negotiated protocol has them.
pub struct HttpService<S, X, U, C> {
    pub config: TimingPolicy,
    pub app: S,
    pub expect: X,
    pub upgrade: Option<U>,
    pub on_connect: Option<C>,
}

impl<S, X, U, C> HttpService<S, X, U, C> {
    /// Take charge of one accepted connection whose negotiation chose the
    /// first protocol revision, hooks included.
    pub fn accept<T, V>(&self, io: T) -> (d: ConnectionDriver<T, V>)
        ensures
            d.wf(),
            d.spec_io() == Some(io),
            d.spec_has_factory() == (self.on_connect is Some),
            d.spec_expect_enabled(),
            d.spec_has_upgrade() == (self.upgrade is Some),
            d.spec_context() is None,
            d.spec_ctx_runs() == 0,
            d.spec_app_runs() == 0,
            d.spec_phase() == (if self.on_connect is Some {
                DriverPhase::AwaitingContext
            } else {
                DriverPhase::Idle
            }),
    {
        ConnectionDriver::new(io, self.on_connect.is_some(), true, self.upgrade.is_some())
    }
}

/// Overriding the expect handler and the upgrade handler are independent
/// configuration steps: the two overrides commute, and neither touches the
/// timing policy or the context factory.
pub proof fn lemma_handler_overrides_independent<X, U, C, X1, U1>(
    b: HttpServiceBuilder<X, U, C>,
    x: X1,
    u: U1,
)
    ensures
        b.spec_with_expect(x).spec_with_upgrade(u) == b.spec_with_upgrade(u).spec_with_expect(x),
        b.spec_with_expect(x).spec_timing() == b.spec_timing(),
        b.spec_with_upgrade(u).spec_timing() == b.spec_timing(),
        b.spec_with_expect(x).on_connect == b.on_connect,
        b.spec_with_upgrade(u).on_connect == b.on_connect,
{
}

} // verus!
