//! A typed client library for a secrets server's HTTP API.
//!
//! The library decides everything that does not need the network: it
//! resolves connection settings, validates the server address, turns each
//! API call into an [`request::HttpRequest`] with the version path segment
//! and the credential attached, and turns the server's answer into a typed
//! result or a [`error::ClientError`]. Sending the request is left to the
//! caller's HTTP transport.

pub mod error;
pub mod settings;
pub mod request;
pub mod responses;
pub mod api;
pub mod kv2;
pub mod client;
