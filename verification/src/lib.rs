//! Typed client for a command-driven hardware-wallet protocol.
//!
//! The crate builds deterministic argument vectors for the external
//! `hwi` tool, hands them to a pluggable execution backend, and decodes
//! the JSON responses into typed domain values with a closed error
//! taxonomy.

pub mod b64;
pub mod backend;
pub mod binary;
pub mod commands;
pub mod decode;
pub mod error;
pub mod interface;
pub mod json;
pub mod laws;
pub mod pyplan;
pub mod strutil;
pub mod types;

pub use error::Error;
pub use error::ErrorCode;
pub use interface::HWIClient;
