//! Verified core of a Rust SDK for driving the QwenCode command-line agent:
//! message and configuration types, the tool-permission rules, the MCP tool
//! registry, the JSON-RPC message constructors and the input validators.

pub mod json;
pub mod mcp;
pub mod query;
pub mod transport;
pub mod types;
pub mod utils;

pub use mcp::client::McpClient;
pub use mcp::server::{create_sdk_mcp_server, SdkMcpServer};
pub use mcp::tool::McpTool;
pub use query::builder::QueryBuilder;
pub use query::handler::query_builder;
pub use query::session::{generate_session_id, QueryHandle};
pub use types::config::{
    AuthType, QueryOptions, QueryOptionsBuilder, SubagentConfig, SubagentConfigBuilder,
    SystemPromptConfig, TimeoutConfig, TimeoutConfigBuilder,
};
pub use types::error::{is_abort_error, AbortError, QwenError, SDKError};
pub use types::mcp::{McpServerConfig, McpToolDefinition, McpToolResult, McpTransport, ToolContent};
pub use types::message::{
    MessageContent, MessageRole, MessageType, SDKAssistantMessage, SDKMessage, SDKMessageBase,
    SDKPartialAssistantMessage, SDKResultMessage, SDKSystemMessage, SDKUserMessage,
};
pub use types::permission::{PermissionChain, PermissionMode, ToolPermissionResult};
