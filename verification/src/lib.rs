//! Decision logic for a bridge from an MQTT broker to desktop notifications.
//!
//! The crate decides and never performs: it says which topics to subscribe
//! to, which notification a received message calls for, and what a session
//! supervisor does next after each event. Network and display work belong to
//! the caller.

pub mod config;
pub mod pipeline;
pub mod rules;
pub mod session;
pub mod supervisor;
pub mod text;
