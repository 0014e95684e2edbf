use ntex_http_core::connect::{Address, Connection, ConnectorWrapper, SendStep, TunnelStep};
use ntex_http_core::error::{ConnectError, SendRequestError};
use ntex_http_core::message::{Body, RequestHead, ResponseHead};
use ntex_http_core::stream::{
    BoxedSocket, DuplexStream, MemoryStream, ReadOutcome, SecureStream, Transport, WriteOutcome,
};

/// A test double for the resolve-and-connect service, tracking how many
/// connections it handed out and how many came back or completed.
struct MockConnector {
    verdict: Result<u64, ConnectError>,
    acquired: u32,
    released: u32,
}

impl MockConnector {
    fn resolving_to(id: u64) -> MockConnector {
        MockConnector { verdict: Ok(id), acquired: 0, released: 0 }
    }

    fn failing_with(e: ConnectError) -> MockConnector {
        MockConnector { verdict: Err(e), acquired: 0, released: 0 }
    }

    fn resolve(&mut self) -> Result<Connection, ConnectError> {
        match self.verdict {
            Ok(id) => {
                self.acquired += 1;
                Ok(Connection { id })
            }
            Err(e) => Err(e),
        }
    }

    /// The connection capability completes an exchange: whatever the
    /// outcome, its own cleanup releases the connection.
    fn complete_exchange(
        &mut self,
        outcome: Result<(ResponseHead, Vec<u8>), SendRequestError>,
    ) -> Result<(ResponseHead, Vec<u8>), SendRequestError> {
        self.released += 1;
        outcome
    }

    fn release(&mut self) {
        self.released += 1;
    }
}

fn head(uri: &str) -> RequestHead {
    RequestHead { uri: String::from(uri) }
}

#[test]
fn send_request_resolves_then_exchanges() {
    let mut mock = MockConnector::resolving_to(7);
    let cw = ConnectorWrapper(0u8);
    assert_eq!(*cw.resolver(), 0u8);
    let addr = Address { host: 0x7f000001, port: 8080 };
    let mut op = cw.send_request(head("http://example/a"), Body { bytes: vec![1, 2] }, Some(addr));
    assert_eq!(op.target().uri, "http://example/a");
    assert_eq!(op.target().addr, Some(addr));
    match op.on_resolved(mock.resolve()) {
        SendStep::Dispatch(conn, h, b) => {
            assert_eq!(conn, Connection { id: 7 });
            assert_eq!(h.uri, "http://example/a");
            assert_eq!(b.bytes, vec![1, 2]);
            let outcome = mock.complete_exchange(Ok((ResponseHead { status: 200 }, vec![3, 4])));
            match op.on_response(outcome) {
                Ok(resp) => {
                    assert_eq!(resp.head.status, 200);
                    assert_eq!(resp.payload, vec![3, 4]);
                }
                Err(e) => panic!("the exchange succeeded, got {:?}", e),
            }
        }
        SendStep::Failed(e) => panic!("resolution succeeded, got {:?}", e),
    }
    assert_eq!(op.cancel(), None);
    assert_eq!(mock.acquired, mock.released);
}

#[test]
fn send_request_surfaces_resolver_error() {
    let mut mock = MockConnector::failing_with(ConnectError::Unresolved);
    let cw = ConnectorWrapper(0u8);
    let mut op = cw.send_request(head("http://example/b"), Body { bytes: vec![] }, None);
    match op.on_resolved(mock.resolve()) {
        SendStep::Failed(e) => {
            assert_eq!(e, SendRequestError::Connect(ConnectError::Unresolved));
        }
        SendStep::Dispatch(..) => panic!("resolution failed; no send path may be entered"),
    }
    assert_eq!(mock.acquired, 0);
    assert_eq!(op.cancel(), None);
}

#[test]
fn send_failure_after_resolution_passes_through() {
    let mut mock = MockConnector::resolving_to(3);
    let cw = ConnectorWrapper(0u8);
    let mut op = cw.send_request(head("http://example/c"), Body { bytes: vec![] }, None);
    match op.on_resolved(mock.resolve()) {
        SendStep::Dispatch(..) => {
            let outcome = mock.complete_exchange(Err(SendRequestError::Protocol(5)));
            match op.on_response(outcome) {
                Err(e) => assert_eq!(e, SendRequestError::Protocol(5)),
                Ok(_) => panic!("the exchange failed"),
            }
        }
        SendStep::Failed(e) => panic!("resolution succeeded, got {:?}", e),
    }
    assert_eq!(op.cancel(), None);
    assert_eq!(mock.acquired, mock.released);
}

#[test]
fn open_tunnel_returns_resolver_error_untouched() {
    // A connector stub that always fails resolution: the resolver's error
    // comes back as the one surfaced error type and no send/receive path
    // runs.
    let mut mock = MockConnector::failing_with(ConnectError::Resolver(99));
    let cw = ConnectorWrapper(0u8);
    let mut op = cw.open_tunnel(head("http://example/t"), None);
    match op.on_resolved(mock.resolve()) {
        TunnelStep::Failed(e) => {
            assert_eq!(e, SendRequestError::Connect(ConnectError::Resolver(99)));
        }
        TunnelStep::Dispatch(..) => panic!("resolution failed; no send path may be entered"),
    }
    assert_eq!(mock.acquired, 0);
    assert_eq!(op.cancel(), None);
}

#[test]
fn open_tunnel_erases_whatever_transport_came_back() {
    let mut mock = MockConnector::resolving_to(11);
    let cw = ConnectorWrapper(0u8);
    let mut op = cw.open_tunnel(head("http://example/u"), None);
    let step = op.on_resolved(mock.resolve());
    match step {
        TunnelStep::Dispatch(conn, h) => {
            assert_eq!(conn.id, 11);
            assert_eq!(h.uri, "http://example/u");
        }
        TunnelStep::Failed(e) => panic!("resolution succeeded, got {:?}", e),
    }
    // The capability opens the tunnel over a secure transport with bytes
    // already pending; the erased stream must present them unchanged.
    let mut inner = MemoryStream::new();
    assert_eq!(inner.write(&[8, 6, 4]), WriteOutcome::Accepted(3));
    let transport = Transport::secure(SecureStream { inner });
    mock.release();
    match op.on_tunnel(Ok((ResponseHead { status: 101 }, transport))) {
        Ok((h, mut erased)) => {
            assert_eq!(h.status, 101);
            let _: &BoxedSocket = &erased;
            match erased.read(3) {
                ReadOutcome::Data(v) => assert_eq!(v, vec![8, 6, 4]),
                other => panic!("the erased stream must pass bytes through, got {:?}", other),
            }
        }
        Err(e) => panic!("the tunnel opened, got {:?}", e),
    }
    assert_eq!(op.cancel(), None);
    assert_eq!(mock.acquired, mock.released);
}

#[test]
fn tunnel_failure_after_resolution_passes_through() {
    let mut mock = MockConnector::resolving_to(2);
    let cw = ConnectorWrapper(0u8);
    let mut op = cw.open_tunnel(head("http://example/v"), None);
    let _ = op.on_resolved(mock.resolve());
    mock.release();
    match op.on_tunnel(Err(SendRequestError::Connect(ConnectError::Timeout))) {
        Err(e) => assert_eq!(e, SendRequestError::Connect(ConnectError::Timeout)),
        Ok(_) => panic!("the tunnel failed"),
    }
    assert_eq!(mock.acquired, mock.released);
}

#[test]
fn cancelled_requests_never_leak_connections() {
    // Drive the exchange to a pseudo-randomly chosen point, cancel there,
    // and check the acquire/release ledger balances, over 100 trials.
    let mut seed: u64 = 0x2545F4914F6CDD1D;
    for trial in 0..100u64 {
        seed = seed.wrapping_mul(6364136223846793005).wrapping_add(1442695040888963407);
        let stop = seed % 3;
        let mut mock = MockConnector::resolving_to(trial);
        let cw = ConnectorWrapper(0u8);
        let mut op = cw.send_request(head("http://example/w"), Body { bytes: vec![] }, None);
        if stop == 0 {
            // Cancelled while still resolving: nothing was acquired.
            if let Some(_) = op.cancel() {
                mock.release();
            }
        } else {
            match op.on_resolved(mock.resolve()) {
                SendStep::Dispatch(..) => {
                    if stop == 1 {
                        // Cancelled while holding the connection: the
                        // operation hands it back for release.
                        if let Some(conn) = op.cancel() {
                            assert_eq!(conn.id, trial);
                            mock.release();
                        } else {
                            panic!("a held connection must be handed back");
                        }
                    } else {
                        // Ran to completion: the capability released it.
                        let outcome =
                            mock.complete_exchange(Ok((ResponseHead { status: 204 }, vec![])));
                        let _ = op.on_response(outcome);
                        assert_eq!(op.cancel(), None);
                    }
                }
                SendStep::Failed(e) => panic!("resolution succeeded, got {:?}", e),
            }
        }
        assert_eq!(mock.acquired, mock.released, "leak at trial {}", trial);
    }
}
