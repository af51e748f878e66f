//! An object-storage upload gateway core: streaming ingestion of an upload
//! into a staged local file, credential derivation from a configured
//! secret, classification of the remote service's answers, and guaranteed
//! cleanup of the staged file on every exit path.
//!
//! The crate holds the decision logic only; a host embeds it in an HTTP
//! server and performs the actual disk and network operations.

pub mod api;
pub mod api_error;
pub mod body;
pub mod config;
pub mod decimal;
