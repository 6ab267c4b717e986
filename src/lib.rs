//! A typed client for the block resources of an Aleo explorer's JSON HTTP API.
//!
//! The library builds request URLs, classifies what the transport handed back
//! and decodes the body; the network round trip itself is made by the caller
//! with the client's transport handle.
pub mod client;
pub mod error;
pub mod path;

pub use client::{AleoRpcClient, Reply, SetupError, REQUEST_TIMEOUT_SECS};
pub use error::FetchError;
