use vstd::prelude::*;

verus! {

/// Policy for how long an idle, reusable connection stays open.
#[derive(Clone, Copy, Debug, PartialEq, Eq, Structural)]
pub enum KeepAlive {
    /// Close the connection once it has been idle for this many seconds.
    Timeout(u64),
    /// Close immediately after one exchange.
    Disabled,
    /// Defer to the platform's socket option.
    PlatformDefault,
}

/// Immutable record of keep-alive and timeout settings. A builder freezes one
/// of these into every service it produces; the built service only reads it.
#[derive(Clone, Copy, Debug, PartialEq, Eq, Structural)]
pub struct TimingPolicy {
    pub keep_alive: KeepAlive,
    /// Max milliseconds to receive the complete request header block; 0 disables.
    pub client_header_timeout_ms: u64,
    /// Max milliseconds for a graceful shutdown to complete; 0 disables.
    pub disconnect_timeout_ms: u64,
    /// Max milliseconds for secure-transport negotiation; 0 disables.
    pub handshake_timeout_ms: u64,
}

impl TimingPolicy {
    pub fn new(
        keep_alive: KeepAlive,
        client_header_timeout_ms: u64,
        disconnect_timeout_ms: u64,
        handshake_timeout_ms: u64,
    ) -> (p: TimingPolicy)
        ensures
            p.keep_alive == keep_alive,
            p.client_header_timeout_ms == client_header_timeout_ms,
            p.disconnect_timeout_ms == disconnect_timeout_ms,
            p.handshake_timeout_ms == handshake_timeout_ms,
    {
        TimingPolicy { keep_alive, client_header_timeout_ms, disconnect_timeout_ms, handshake_timeout_ms }
    }
}

} // verus!
