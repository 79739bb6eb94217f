//! Stored API tokens.
use vstd::prelude::*;

verus! {

/// An API token as the router stores it.
#[derive(Clone, Debug, PartialEq, Eq)]
pub struct Model {
    /// Primary key.
    pub id: String,
    /// A display name.
    pub name: String,
    /// The token's value (unique).
    pub token: String,
    /// An optional description.
    pub description: Option<String>,
    /// Creation time, seconds since the Unix epoch.
    pub created_at: i64,
    /// Last update time, seconds since the Unix epoch.
    pub updated_at: i64,
    /// Whether the token is enabled.
    pub enabled: bool,
    /// Last use, seconds since the Unix epoch.
    pub last_used_at: Option<i64>,
    /// How many times the token was used.
    pub usage_count: i32,
    /// Expiry, seconds since the Unix epoch.
    pub expires_at: Option<i64>,
}

} // verus!
