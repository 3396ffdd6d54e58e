//! MCP client: looks up the tools of one embedded server.

use vstd::prelude::*;

use crate::mcp::server::{has_tool_named, lemma_registry_gives_wf, tool_names, texts, SdkMcpServer};

verus! {

/// MCP client for interacting with one MCP server.
pub struct McpClient<H> {
    server: SdkMcpServer<H>,
}

impl<H> McpClient<H> {
    /// The server that the client talks to.
    pub closed spec fn server_view(&self) -> SdkMcpServer<H> {
        self.server
    }

    /// Create a new MCP client for a server.
    pub fn new(server: SdkMcpServer<H>) -> (c: Self)
        ensures
            c.server_view() == server,
    {
        McpClient { server }
    }

    /// The server that the client talks to; like every server, it is well formed.
    pub fn server(&self) -> (s: &SdkMcpServer<H>)
        ensures
            *s == self.server_view(),
            s.wf(),
    {
        proof {
            use_type_invariant(&self.server.registry);
            lemma_registry_gives_wf(self.server);
        }
        &self.server
    }

    /// List available tools.
    pub fn list_tools(&self) -> (names: Vec<String>)
        ensures
            texts(names@) == tool_names(self.server_view().tools()),
    {
        self.server.get_tool_names()
    }

    /// Check if a tool is available.
    pub fn has_tool(&self, tool_name: &str) -> (b: bool)
        ensures
            b == has_tool_named(self.server_view().tools(), tool_name@),
    {
        self.server.has_tool(tool_name)
    }

    /// Get the server name.
    pub fn server_name(&self) -> (n: &str)
        ensures
            n@ == self.server_view().name_text(),
    {
        self.server.name_str()
    }
}

} // verus!
