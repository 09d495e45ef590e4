//! The synchronisation protocol and the two reconcilers that speak it.

pub mod protocol;
pub mod master;
pub mod slave;
pub mod wire;
pub mod effect;
