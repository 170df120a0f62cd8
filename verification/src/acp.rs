//! Agents that speak the Agent Client Protocol: what is decided about sessions, runs,
//! permissions and recordings, apart from the transport.

pub mod configuration;
pub mod conduct;
pub mod connection;
pub mod context;
pub mod continuation;
pub mod delivery;
pub mod error;
pub mod event;
pub mod laws;
pub mod outcomes;
pub mod recorded;
pub mod recording;
pub mod restoration;
pub mod session;
pub mod start;
