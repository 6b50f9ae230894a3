//! A verified core for a command-line client of the Seaplane cloud platform.
//!
//! The crate models the layer that sits between CLI commands and the remote
//! HTTP APIs: lazily acquired bearer credentials, request descriptors built
//! from mutually-exclusive targeting parameters, and a retry policy that
//! re-authenticates exactly once when the remote service rejects a token.
//! All network traffic is performed by the caller, which drives the state
//! machines defined here and hands back plain values.

pub mod account;
pub mod builder;
pub mod config;
pub mod formation;
pub mod init;
pub mod encode;
pub mod error;
pub mod identity;
pub mod locks;
pub mod log;
pub mod ops;
pub mod pagination;
pub mod restrict;

use vstd::prelude::*;

verus! {

/// The base URL for the Compute API endpoints.
pub const COMPUTE_API_URL: &'static str = "https://compute.cplane.cloud/";

} // verus!
