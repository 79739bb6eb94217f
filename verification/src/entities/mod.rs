//! The stored records of the router: servers, their tools, resources and
//! prompts, tokens and permissions.
pub mod mcp_prompt;
pub mod mcp_resource;
pub mod mcp_server;
pub mod mcp_tool;
pub mod permission;
pub mod token;
