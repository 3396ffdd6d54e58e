//! The embedded MCP server: a registry of tools keyed by name.

use vstd::prelude::*;
use vstd::string::StringExecFns;

use crate::mcp::tool::McpTool;
use crate::types::error::QwenError;
use crate::utils::text::str_eq;

verus! {

broadcast use {vstd::string::group_string_axioms, vstd::seq::group_seq_axioms};

/// SDK MCP server instance: a name and the tools registered with it, at most
/// one per tool name.
pub struct SdkMcpServer<H> {
    pub name: String,
    pub(crate) registry: ToolRegistry<H>,
}

/// The tools of a server, in registration order; no two share a name.
pub(crate) struct ToolRegistry<H> {
    tools: Vec<McpTool<H>>,
}

/// The name of a tool.
pub open spec fn tool_name<H>(t: McpTool<H>) -> Seq<char> {
    t.definition.name@
}

/// The names of the tools, in order.
pub open spec fn tool_names<H>(tools: Seq<McpTool<H>>) -> Seq<Seq<char>> {
    tools.map_values(|t: McpTool<H>| tool_name(t))
}

/// `tools` holds a tool named `name`.
pub open spec fn has_tool_named<H>(tools: Seq<McpTool<H>>, name: Seq<char>) -> bool {
    exists|i: int| 0 <= i < tools.len() && tool_name(#[trigger] tools[i]) == name
}

/// The tool named `name` in `tools`, if any (tools hold distinct names).
pub open spec fn tool_named<H>(tools: Seq<McpTool<H>>, name: Seq<char>) -> Option<McpTool<H>> {
    if has_tool_named(tools, name) {
        Some(tools[choose|i: int| 0 <= i < tools.len() && tool_name(#[trigger] tools[i]) == name])
    } else {
        None
    }
}

/// The tools after registering `t`: it replaces the tool of the same name, in
/// place, or is added at the end.
pub open spec fn register_into<H>(tools: Seq<McpTool<H>>, t: McpTool<H>) -> Seq<McpTool<H>> {
    if has_tool_named(tools, tool_name(t)) {
        tools.update(choose|i: int| 0 <= i < tools.len() && tool_name(#[trigger] tools[i]) == tool_name(t), t)
    } else {
        tools.push(t)
    }
}

/// The tools after registering each of `added`, in order.
pub open spec fn register_all<H>(tools: Seq<McpTool<H>>, added: Seq<McpTool<H>>) -> Seq<McpTool<H>>
    decreases added.len(),
{
    if added.len() == 0 {
        tools
    } else {
        register_into(register_all(tools, added.drop_last()), added.last())
    }
}

/// The views of a sequence of strings.
pub open spec fn texts(v: Seq<String>) -> Seq<Seq<char>> {
    v.map_values(|s: String| s@)
}

/// No two tools share a name.
pub open spec fn distinct_names<H>(tools: Seq<McpTool<H>>) -> bool {
    forall|i: int, j: int| 0 <= i < tools.len() && 0 <= j < tools.len() && i != j
        ==> tool_name(#[trigger] tools[i]) != tool_name(#[trigger] tools[j])
}

impl<H> ToolRegistry<H> {
    /// Every registry holds each tool name at most once.
    #[verifier::type_invariant]
    pub(crate) closed spec fn names_distinct(self) -> bool {
        distinct_names(self.tools@)
    }
}

/// Where the tool named `name` stands in `tools`, if it is there.
fn position_in<H>(tools: &Vec<McpTool<H>>, name: &str) -> (r: Option<usize>)
    ensures
        r matches Some(i) ==> i < tools@.len() && tool_name(tools@[i as int]) == name@,
        r is None ==> !has_tool_named(tools@, name@),
{
    let n = tools.len();
    for i in 0..n
        invariant
            n == tools@.len(),
            forall|j: int| 0 <= j < i ==> tool_name(#[trigger] tools@[j]) != name@,
    {
        if str_eq(tools[i].definition.name.as_str(), name) {
            return Some(i);
        }
    }
    None
}

/// A server whose registry keeps its invariant is well formed.
pub(crate) proof fn lemma_registry_gives_wf<H>(s: SdkMcpServer<H>)
    requires
        s.registry.names_distinct(),
    ensures
        s.wf(),
{
}

impl<H> SdkMcpServer<H> {
    /// The registered tools, in the order their names were first registered.
    pub closed spec fn tools(&self) -> Seq<McpTool<H>> {
        self.registry.tools@
    }

    /// The server's name.
    pub closed spec fn name_text(&self) -> Seq<char> {
        self.name@
    }

    /// Tool names are unique within the server. Every server is well formed:
    /// the operations below ensure it of the servers they are given.
    pub open spec fn wf(&self) -> bool {
        distinct_names(self.tools())
    }

    /// Create a new SDK MCP server with no tools.
    pub fn new(name: &str) -> (s: Self)
        ensures
            s.wf(),
            s.name_text() == name@,
            s.tools() == Seq::<McpTool<H>>::empty(),
    {
        SdkMcpServer { name: name.to_owned(), registry: ToolRegistry { tools: Vec::new() } }
    }

    /// The server's name.
    pub(crate) fn name_str(&self) -> (n: &str)
        ensures
            n@ == self.name_text(),
    {
        self.name.as_str()
    }

    /// Register a tool with the server; a tool of the same name is replaced.
    pub fn register_tool(&mut self, tool: McpTool<H>)
        ensures
            old(self).wf(),
            final(self).wf(),
            final(self).name_text() == old(self).name_text(),
            final(self).tools() == register_into(old(self).tools(), tool),
    {
        proof {
            use_type_invariant(&self.registry);
        }
        let ghost before = self.registry.tools@;
        let mut tools: Vec<McpTool<H>> = Vec::new();
        std::mem::swap(&mut tools, &mut self.registry.tools);
        match position_in(&tools, tool.definition.name.as_str()) {
            Some(i) => {
                proof {
                    let ghost k = choose|k: int| 0 <= k < before.len() && tool_name(#[trigger] before[k]) == tool_name(tool);
                    assert(tool_name(before[i as int]) == tool_name(tool));
                    assert(k == i);
                }
                tools.set(i, tool);
            },
            None => {
                tools.push(tool);
            },
        }
        proof {
            lemma_register_keeps_names_distinct(before, tool);
        }
        self.registry = ToolRegistry { tools };
    }

    /// Check if a tool exists.
    pub fn has_tool(&self, name: &str) -> (b: bool)
        ensures
            self.wf(),
            b == has_tool_named(self.tools(), name@),
    {
        proof {
            use_type_invariant(&self.registry);
        }
        position_in(&self.registry.tools, name).is_some()
    }

    /// Get all tool names, in registration order.
    pub fn get_tool_names(&self) -> (names: Vec<String>)
        ensures
            self.wf(),
            texts(names@) == tool_names(self.tools()),
    {
        proof {
            use_type_invariant(&self.registry);
        }
        let tools = &self.registry.tools;
        let mut names: Vec<String> = Vec::new();
        let n = tools.len();
        for i in 0..n
            invariant
                n == tools@.len(),
                names@.len() == i,
                forall|k: int| 0 <= k < i ==> #[trigger] names@[k]@ == tool_name(tools@[k]),
        {
            names.push(tools[i].definition.name.clone());
        }
        proof {
            assert(texts(names@) =~= tool_names(tools@));
        }
        names
    }

    /// Get tool count.
    pub fn tool_count(&self) -> (n: usize)
        ensures
            self.wf(),
            n == self.tools().len(),
    {
        proof {
            use_type_invariant(&self.registry);
        }
        self.registry.tools.len()
    }
}

impl<H: Clone> SdkMcpServer<H> {
    /// Get a copy of the tool named `name`.
    pub fn get_tool(&self, name: &str) -> (r: Option<McpTool<H>>)
        ensures
            self.wf(),
            r is Some <==> has_tool_named(self.tools(), name@),
            r matches Some(t) ==> t.definition == tool_named(self.tools(), name@)->0.definition
                && cloned::<H>(tool_named(self.tools(), name@)->0.handler, t.handler),
    {
        proof {
            use_type_invariant(&self.registry);
        }
        let tools = &self.registry.tools;
        match position_in(tools, name) {
            Some(i) => {
                proof {
                    let ghost s = tools@;
                    let ghost k = choose|k: int| 0 <= k < s.len() && tool_name(#[trigger] s[k]) == name@;
                    assert(k == i);
                }
                Some(tools[i].clone())
            },
            None => None,
        }
    }

    /// The tool to execute under `name`, or the error "Tool '<name>' not found".
    pub fn resolve_tool(&self, name: &str) -> (r: Result<McpTool<H>, QwenError>)
        ensures
            self.wf(),
            r is Ok <==> has_tool_named(self.tools(), name@),
            r matches Ok(t) ==> t.definition == tool_named(self.tools(), name@)->0.definition
                && cloned::<H>(tool_named(self.tools(), name@)->0.handler, t.handler),
            r matches Err(e) ==> e matches QwenError::Message(m) && m@ == "Tool '"@ + name@ + "' not found"@,
    {
        match self.get_tool(name) {
            Some(t) => Ok(t),
            None => Err(QwenError::Message(String::from_str("Tool '").concat(name).concat("' not found"))),
        }
    }
}

/// After registering a tool, looking its name up finds exactly that tool.
pub proof fn lemma_registered_tool_is_found<H>(tools: Seq<McpTool<H>>, t: McpTool<H>)
    requires
        distinct_names(tools),
    ensures
        distinct_names(register_into(tools, t)),
        has_tool_named(register_into(tools, t), tool_name(t)),
        tool_named(register_into(tools, t), tool_name(t)) == Some(t),
{
    let r = register_into(tools, t);
    lemma_register_keeps_names_distinct(tools, t);
    if has_tool_named(tools, tool_name(t)) {
        let i = choose|i: int| 0 <= i < tools.len() && tool_name(#[trigger] tools[i]) == tool_name(t);
        assert(r[i] == t);
    } else {
        assert(r[tools.len() as int] == t);
    }
    let k = choose|k: int| 0 <= k < r.len() && tool_name(#[trigger] r[k]) == tool_name(t);
    if has_tool_named(tools, tool_name(t)) {
        let i = choose|i: int| 0 <= i < tools.len() && tool_name(#[trigger] tools[i]) == tool_name(t);
        assert(k == i);
    } else {
        assert(k == tools.len());
    }
}

/// Registering keeps tool names unique.
pub proof fn lemma_register_keeps_names_distinct<H>(tools: Seq<McpTool<H>>, t: McpTool<H>)
    requires
        distinct_names(tools),
    ensures
        distinct_names(register_into(tools, t)),
{
}

/// Registering a tool leaves the tools of every other name as they were.
pub proof fn lemma_register_leaves_other_tools<H>(tools: Seq<McpTool<H>>, t: McpTool<H>, name: Seq<char>)
    requires
        distinct_names(tools),
        name != tool_name(t),
    ensures
        has_tool_named(register_into(tools, t), name) == has_tool_named(tools, name),
        tool_named(register_into(tools, t), name) == tool_named(tools, name),
{
    let r = register_into(tools, t);
    lemma_register_keeps_names_distinct(tools, t);
    if has_tool_named(tools, name) {
        let i = choose|i: int| 0 <= i < tools.len() && tool_name(#[trigger] tools[i]) == name;
        assert(r[i] == tools[i]);
        let k = choose|k: int| 0 <= k < r.len() && tool_name(#[trigger] r[k]) == name;
        assert(k == i);
    }
    if has_tool_named(r, name) {
        let k = choose|k: int| 0 <= k < r.len() && tool_name(#[trigger] r[k]) == name;
        assert(tools[k] == r[k]);
    }
}

/// Registering a new name adds one tool; registering a known name replaces
/// that tool and keeps the count.
pub proof fn lemma_register_count<H>(tools: Seq<McpTool<H>>, t: McpTool<H>)
    ensures
        register_into(tools, t).len() == tools.len() + if has_tool_named(tools, tool_name(t)) { 0int } else { 1int },
{
}

/// A server created with a list of tools holds a tool under each of their names.
pub proof fn lemma_created_server_has_every_tool<H>(added: Seq<McpTool<H>>, i: int)
    requires
        0 <= i < added.len(),
    ensures
        distinct_names(register_all(Seq::<McpTool<H>>::empty(), added)),
        has_tool_named(register_all(Seq::<McpTool<H>>::empty(), added), tool_name(added[i])),
    decreases added.len(),
{
    let base = Seq::<McpTool<H>>::empty();
    lemma_register_all_distinct(base, added);
    let prev = register_all(base, added.drop_last());
    lemma_register_all_distinct(base, added.drop_last());
    lemma_registered_tool_is_found(prev, added.last());
    if i < added.len() - 1 {
        lemma_created_server_has_every_tool(added.drop_last(), i);
        assert(added.drop_last()[i] == added[i]);
        let n = tool_name(added[i]);
        if n != tool_name(added.last()) {
            lemma_register_leaves_other_tools(prev, added.last(), n);
        }
    }
}

/// Registering any list of tools keeps tool names unique.
pub proof fn lemma_register_all_distinct<H>(tools: Seq<McpTool<H>>, added: Seq<McpTool<H>>)
    requires
        distinct_names(tools),
    ensures
        distinct_names(register_all(tools, added)),
    decreases added.len(),
{
    if added.len() > 0 {
        lemma_register_all_distinct(tools, added.drop_last());
        lemma_register_keeps_names_distinct(register_all(tools, added.drop_last()), added.last());
    }
}

/// Registering tools whose names are all different into an empty server
/// holds exactly those tools, in their order, so the server's tool count is
/// their number.
pub proof fn lemma_created_server_holds_exactly<H>(added: Seq<McpTool<H>>)
    requires
        distinct_names(added),
    ensures
        register_all(Seq::<McpTool<H>>::empty(), added) == added,
        register_all(Seq::<McpTool<H>>::empty(), added).len() == added.len(),
    decreases added.len(),
{
    if added.len() > 0 {
        let prev = added.drop_last();
        assert(distinct_names(prev)) by {
            assert forall|i: int, j: int| 0 <= i < prev.len() && 0 <= j < prev.len() && i != j
                implies tool_name(#[trigger] prev[i]) != tool_name(#[trigger] prev[j]) by {
                assert(prev[i] == added[i] && prev[j] == added[j]);
            }
        }
        lemma_created_server_holds_exactly(prev);
        assert(!has_tool_named(prev, tool_name(added.last()))) by {
            if has_tool_named(prev, tool_name(added.last())) {
                let k = choose|k: int| 0 <= k < prev.len() && tool_name(#[trigger] prev[k]) == tool_name(added.last());
                assert(prev[k] == added[k]);
                assert(tool_name(added[k]) != tool_name(added[added.len() - 1]));
            }
        }
        assert(prev.push(added.last()) =~= added);
    }
}

/// Create an SDK MCP server with the given tools registered, in order.
pub fn create_sdk_mcp_server<H>(name: &str, tools: Vec<McpTool<H>>) -> (s: SdkMcpServer<H>)
    ensures
        s.wf(),
        s.name_text() == name@,
        s.tools() == register_all(Seq::<McpTool<H>>::empty(), tools@),
{
    let mut server = SdkMcpServer::new(name);
    let ghost all = tools@;
    for tool in it: tools
        invariant
            it.seq() == all,
            server.wf(),
            server.name_text() == name@,
            server.tools() == register_all(Seq::<McpTool<H>>::empty(), all.take(it.index() as int)),
    {
        proof {
            assert(all.take(it.index() + 1).drop_last() =~= all.take(it.index() as int));
        }
        server.register_tool(tool);
    }
    proof {
        assert(all.take(all.len() as int) =~= all);
    }
    server
}

} // verus!
