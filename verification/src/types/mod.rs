//! Message, configuration, error, permission and MCP types.

pub mod config;
pub mod error;
pub mod mcp;
pub mod message;
pub mod permission;
