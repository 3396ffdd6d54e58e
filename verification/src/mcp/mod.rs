//! MCP tools, the embedded MCP server's tool registry, and its client.

pub mod client;
pub mod server;
pub mod tool;
