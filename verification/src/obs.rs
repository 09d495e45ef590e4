//! The engine as this crate sees it: the events it reports and the shape of
//! its replies.

pub mod events;
pub mod commands;
