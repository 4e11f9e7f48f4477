//! An outbound HTTP request proxy for a desktop application.
//!
//! The library prepares HTTP calls aimed at an AI-completion API: it resolves
//! an optional forward-proxy configuration into a client, assembles the target
//! URL and headers from a declarative descriptor, classifies transport
//! failures, and normalizes responses into a plain envelope with a bounded
//! body size. The host application performs the actual network send and hands
//! the outcome back to this library.

pub mod errors;
pub mod headers;
pub mod proxy;
pub mod request;
pub mod response;
pub mod secure_config;
pub mod text;
pub mod upload;

use vstd::prelude::*;

verus! {

/// Upper bound, in bytes, on a response body that is returned to the caller.
pub const MAX_RESPONSE_BYTES: usize = 50 * 1024 * 1024;

} // verus!
