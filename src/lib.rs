//! Actor message routing: a write-once registry of actor inboxes, a
//! dispatcher that pairs each request with a single-use reply path, the two
//! wallet actors as step machines, and the bootstrap that wires them up.

pub mod identity;
pub mod error;
pub mod channel;
pub mod event;
pub mod registry;
pub mod dispatch;
pub mod actors;
pub mod bootstrap;
pub mod boundary;
pub mod events;
