//! The core of a typed client for the Blockfrost HTTP API.
//!
//! The client builds one [`Request`] per operation and resolves the bytes of
//! the response into the typed result or into exactly one [`Error`]. Sending
//! the request is left to the caller.

use vstd::prelude::*;

pub mod client;
pub mod config;
pub mod encoding;
pub mod endpoint;
pub mod error;
pub mod json;
pub mod models;
pub mod request;
pub mod response;

pub use client::BlockFrostHttp;
pub use config::{load_key_from_read, load_key_from_str};
pub use error::Error;
pub use models::{HTTPResponse, HttpErrorInner};
pub use request::{Method, Request};
pub use response::{try_deserializing, try_deserializing_value};

verus! {

/// The base URL of the service for the main network. It does not end in a
/// slash, so an endpoint path joined to it takes the place of `v0`.
pub const MAINNET_URL: &'static str = "https://cardano-mainnet.blockfrost.io/api/v0";

/// The base URL of the service for the pre-production network.
pub const PREPROD_NETWORK_URL: &'static str = "https://cardano-preprod.blockfrost.io/api/v0/";

} // verus!
