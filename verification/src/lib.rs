//! Protocol-layer composition and connection abstraction for an HTTP
//! client/server stack.
//!
//! The server side is a builder that accumulates a timing policy and optional
//! protocol hooks (100-Continue expectation, connection upgrade, per-connection
//! context injection) and freezes them into a concrete protocol service, plus a
//! per-connection driver that routes each request through those hooks in the
//! required order. The client side resolves a logical request target to a
//! connection, issues a request or opens a raw tunnel over it, and erases the
//! concrete transport behind one boxed duplex-stream type.

pub mod builder;
pub mod config;
pub mod connect;
pub mod dispatch;
pub mod error;
pub mod message;
pub mod stream;
