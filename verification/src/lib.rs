//! Decision-and-dispatch engine of a transparent proxy client.
//!
//! Every intercepted flow is classified (direct, proxy, reject, or
//! probe-then-decide), registered in a connection registry for its lifetime,
//! routed to a backend, and deregistered with exactly one lifecycle line.
//! A failover controller rotates the active proxy backend when consecutive
//! connect errors exceed a configured maximum.

pub mod action;
pub mod addr;
pub mod client;
pub mod decimal;
pub mod failover;
pub mod lifecycle;
pub mod registry;
pub mod resolver;

pub use action::{Action, Backend, ResolvedAction};
pub use addr::Address;
pub use client::RuledClient;
pub use registry::{Connection, Registry};
pub use resolver::Resolution;
