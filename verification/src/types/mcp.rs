//! Configuration and result types of MCP (Model Context Protocol) servers.

use vstd::prelude::*;
use std::collections::HashMap;

verus! {

/// MCP server transport type.
#[derive(Debug, Clone)]
pub enum McpTransport {
    /// stdio transport.
    Stdio { command: String, args: Vec<String>, env: Option<HashMap<String, String>> },
    /// Server-Sent Events transport.
    Sse { url: String },
    /// HTTP transport.
    Http { url: String, headers: Option<HashMap<String, String>> },
    /// SDK embedded server.
    Sdk { instance: Option<()> },
}

/// MCP server configuration.
#[derive(Debug, Clone)]
pub struct McpServerConfig {
    pub name: String,
    pub transport: McpTransport,
    pub timeout_ms: Option<u64>,
    pub tools: Option<Vec<McpToolDefinition>>,
}

/// MCP tool definition.
#[derive(Debug)]
pub struct McpToolDefinition {
    pub name: String,
    pub description: String,
    pub input_schema: serde_json::Value,
}

impl Clone for McpToolDefinition {
    fn clone(&self) -> (d: Self)
        ensures
            d == *self,
    {
        McpToolDefinition {
            name: self.name.clone(),
            description: self.description.clone(),
            input_schema: self.input_schema.clone(),
        }
    }
}

/// MCP tool result.
#[derive(Debug, Clone)]
pub struct McpToolResult {
    pub content: Vec<ToolContent>,
    pub is_error: bool,
}

/// Tool content types.
#[derive(Debug, Clone)]
pub enum ToolContent {
    Text { text: String },
    Image { data: String, mime_type: String },
    Resource { uri: String, mime_type: String, text: Option<String>, blob: Option<String> },
}

} // verus!
