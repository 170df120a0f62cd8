//! The host that serves agents over lines of JSON.

pub mod exchange;
pub mod frames;
pub mod history;
pub mod inquiries;
pub mod interactions;
pub mod laws;
pub mod output;
pub mod questions;
pub mod receipts;
pub mod recovery;
pub mod session;
pub mod storage;
pub mod tool_hub;
