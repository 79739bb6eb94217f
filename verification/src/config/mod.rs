//! Configuration held by the application: the servers it knows and the
//! errors that editing them can give.
use vstd::prelude::*;

pub mod api_key_config;
pub mod mcp_server_config;

verus! {

/// Why a configuration could not be read, written or changed.
#[derive(Debug)]
pub enum ConfigError {
    /// A file could not be read or written; the text says why.
    Io(String),
    /// A file did not hold valid JSON; the text says why.
    Json(String),
    /// A configuration file is missing; the text names it.
    NotFound(String),
    /// A request contradicts the configuration; the text says how.
    Invalid(String),
    /// The process may not touch a file; the text says which.
    Permission(String),
}

} // verus!
