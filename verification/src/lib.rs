//! Core logic of an MCP router: routing names, permission checks, paging,
//! connection bookkeeping, configuration and settings rules, API keys and
//! marketplace listings.
use vstd::prelude::*;

pub mod aggregator;
pub mod app_info;
pub mod auth_context;
pub mod clock;
pub mod commands;
pub mod config;
pub mod crypto;
pub mod dashboard;
pub mod db;
pub mod entities;
pub mod error;
pub mod http_client;
pub mod ids;
pub mod json;
pub mod keyed;
pub mod marketplace;
pub mod mcp_client;
pub mod mcp_manager;
pub mod notification_callback;
pub mod session_manager;
pub mod settings;
pub mod shell_environment;
pub mod startup;
pub mod state_manager;
pub mod text;
pub mod tray;
pub mod types;

verus! {

} // verus!
