//! Master/slave synchronisation of a scene-composition engine.
//!
//! A master controller watches its engine and broadcasts state changes as
//! protocol messages; slave controllers apply them to their own engines. This
//! crate holds the protocol model, the wire encoding, the master-side event
//! filter, the broadcast hub and the slave-side reconciler as plain state
//! machines: every decision is a function from state and input to next state
//! and output, so that sockets, timers and files stay with the caller.

pub mod commands;
pub mod json;
pub mod network;
pub mod obs;
mod platform;
pub mod sync;
mod vecs;

