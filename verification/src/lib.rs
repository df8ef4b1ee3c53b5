//! A transport combining two transports: a base transport, such as TCP, and a higher-level
//! transport on top of it, such as WebSocket.
//!
//! Dialing tries the outer transport first, and if that fails, the base transport. Incoming
//! connections can be accepted on either. For this to work, a switch must be provided that is asked
//! about each incoming connection of the base transport; for TCP, it can peek at the first bytes. What the base transport reports, with the exception of errors and of
//! connections that the switch has not let through, is copied and routed to the outer transport via
//! a proxy of the base transport.
//!
//! The crate holds the decisions. Awaiting connections, polling listeners and asking the switch are
//! left to whoever drives it: [`listener::BaseRelay`] and [`listener::Handover`] take what came of
//! it, one step at a time, and say what to report and what to do next.

mod address;
pub mod channel;
pub mod combined;
pub mod error;
pub mod event;
pub mod laws;
pub mod listener;
pub mod outcomes;
pub mod proxy;
pub mod slot;
pub mod switch;
pub mod transport;
pub mod wiring;

pub use combined::CombinedTransport;
pub use error::CombinedError;
pub use proxy::ProxyTransport;
