//! Orchestration of external coding agents: identities, runs, durable records,
//! prepared context, provider discovery and the host that serves them.

pub mod acp;
pub mod authority;
pub mod configuration;
pub mod context;
pub mod datum;
pub mod execution;
pub mod host;
pub mod id;
pub mod json;
pub mod laws;
pub mod lookup;
pub mod mcp;
pub mod model;
pub mod providers;
pub mod questions;
pub mod records;
pub mod run;
pub mod structured;
pub mod table;
pub mod text;
pub mod tools;
pub mod wording;
