//! The master's side of the transport.

pub mod server;
