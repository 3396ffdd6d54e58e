//! An MCP tool: its definition and the handler that runs it.

use vstd::prelude::*;

use crate::types::mcp::McpToolDefinition;

verus! {

broadcast use vstd::string::group_string_axioms;

/// MCP tool with name, description, schema, and handler.
/// The handler is whatever runs the tool; the library only stores it.
pub struct McpTool<H> {
    pub definition: McpToolDefinition,
    pub handler: H,
}

impl<H> McpTool<H> {
    /// Create a new MCP tool.
    pub fn new(name: &str, description: &str, input_schema: serde_json::Value, handler: H) -> (t: Self)
        ensures
            t.definition.name@ == name@,
            t.definition.description@ == description@,
            t.definition.input_schema == input_schema,
            t.handler == handler,
    {
        McpTool {
            definition: McpToolDefinition {
                name: name.to_owned(),
                description: description.to_owned(),
                input_schema,
            },
            handler,
        }
    }
}

impl<H: Clone> Clone for McpTool<H> {
    fn clone(&self) -> (t: Self)
        ensures
            t.definition == self.definition,
            cloned::<H>(self.handler, t.handler),
    {
        McpTool { definition: self.definition.clone(), handler: self.handler.clone() }
    }
}

} // verus!
