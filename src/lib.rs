//! The event router of a node's network stack: it classifies remote peers,
//! translates the events of its sub-protocols into one ordered output queue,
//! and collects the calls it owes to the other sub-protocols.

pub mod peer;
pub mod role;
pub mod event;
pub mod behaviour;
pub mod laws;
