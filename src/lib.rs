//! Graph panel core: the panel's state machine, the settings command bus and
//! the bridge that routes engine interaction events to live panels.
//!
//! The rendering engine itself is not driven from here: every operation the
//! panel wants performed on it is returned as an [`engine::EngineAction`], which
//! the embedding application carries out in order.

pub mod messages;
pub mod engine;
pub mod panel;
pub mod bridge;
pub mod bus;
pub mod host;
pub mod laws;
pub mod graph;
