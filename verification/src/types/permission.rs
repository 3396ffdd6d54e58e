//! Permission modes and the checks that decide whether a tool may run.

use vstd::prelude::*;

use crate::utils::text::{str_eq, str_starts_with};

verus! {

broadcast use vstd::string::group_string_axioms;

/// Permission mode for tool execution.
#[derive(Debug, Clone, Copy, PartialEq, Eq, Structural)]
pub enum PermissionMode {
    /// Read tools execute automatically; write tools require approval.
    Default,
    /// Blocks write tools; the model only produces a plan.
    Plan,
    /// Automatically approves the `edit` and `write_file` tools.
    AutoEdit,
    /// Automatically approves every tool.
    Yolo,
}

impl Default for PermissionMode {
    fn default() -> (m: Self)
        ensures
            m == PermissionMode::Default,
    {
        PermissionMode::Default
    }
}

/// Result of a tool permission check.
#[derive(Debug, Clone)]
pub enum ToolPermissionResult {
    /// Allow the tool to run, with the (possibly rewritten) input.
    Allow { updated_input: serde_json::Value },
    /// Deny the tool, with a message for the model.
    Deny { message: String },
}

/// The tool lists and mode from which a permission decision is made.
/// Priority: excluded tools, then the mode, then the explicitly allowed tools.
#[derive(Debug, Clone)]
pub struct PermissionChain {
    pub exclude_tools: Vec<String>,
    pub allowed_tools: Vec<String>,
    pub mode: PermissionMode,
}

/// The text `*`, which in an exclusion list stands for every tool.
pub open spec fn wildcard() -> Seq<char> {
    seq!['*']
}

/// `tool` is excluded by `exclude`: it is listed by name, or the list holds `*`.
pub open spec fn excludes(exclude: Seq<String>, tool: Seq<char>) -> bool {
    exists|i: int| 0 <= i < exclude.len() && (#[trigger] exclude[i]@ == tool || exclude[i]@ == wildcard())
}

/// `tool` is listed by name in `allowed`.
pub open spec fn lists(allowed: Seq<String>, tool: Seq<char>) -> bool {
    exists|i: int| 0 <= i < allowed.len() && #[trigger] allowed[i]@ == tool
}

/// The prefix that marks read-only tools.
pub open spec fn read_prefix() -> Seq<char> {
    seq!['r', 'e', 'a', 'd', '_']
}

/// Whether the mode alone lets `tool` run without asking.
pub open spec fn auto_executes(mode: PermissionMode, tool: Seq<char>) -> bool {
    match mode {
        PermissionMode::Yolo => true,
        PermissionMode::AutoEdit => tool == seq!['e', 'd', 'i', 't']
            || tool == seq!['w', 'r', 'i', 't', 'e', '_', 'f', 'i', 'l', 'e'],
        PermissionMode::Plan => false,
        PermissionMode::Default => read_prefix().is_prefix_of(tool),
    }
}

impl PermissionChain {
    pub fn new(exclude_tools: Vec<String>, allowed_tools: Vec<String>, mode: PermissionMode) -> (c: Self)
        ensures
            c.exclude_tools@ == exclude_tools@,
            c.allowed_tools@ == allowed_tools@,
            c.mode == mode,
    {
        PermissionChain { exclude_tools, allowed_tools, mode }
    }

    /// Check whether a tool is excluded (by name, or by a `*` entry).
    pub fn is_excluded(&self, tool_name: &str) -> (b: bool)
        ensures
            b == excludes(self.exclude_tools@, tool_name@),
    {
        proof {
            reveal_strlit("*");
            assert("*"@ =~= wildcard());
        }
        let n = self.exclude_tools.len();
        for i in 0..n
            invariant
                n == self.exclude_tools@.len(),
                "*"@ == wildcard(),
                forall|j: int| 0 <= j < i ==> !(#[trigger] self.exclude_tools@[j]@ == tool_name@
                    || self.exclude_tools@[j]@ == wildcard()),
        {
            let t = self.exclude_tools[i].as_str();
            if str_eq(t, tool_name) || str_eq(t, "*") {
                return true;
            }
        }
        false
    }

    /// Check whether a tool is explicitly allowed.
    pub fn is_explicitly_allowed(&self, tool_name: &str) -> (b: bool)
        ensures
            b == lists(self.allowed_tools@, tool_name@),
    {
        let n = self.allowed_tools.len();
        for i in 0..n
            invariant
                n == self.allowed_tools@.len(),
                forall|j: int| 0 <= j < i ==> #[trigger] self.allowed_tools@[j]@ != tool_name@,
        {
            if str_eq(self.allowed_tools[i].as_str(), tool_name) {
                return true;
            }
        }
        false
    }

    /// Check whether the mode lets a tool run without asking.
    pub fn should_auto_execute(&self, tool_name: &str) -> (b: bool)
        ensures
            b == auto_executes(self.mode, tool_name@),
            self.mode == PermissionMode::Plan ==> !b,
            self.mode == PermissionMode::Yolo ==> b,
    {
        proof {
            reveal_strlit("edit");
            reveal_strlit("write_file");
            reveal_strlit("read_");
            assert("edit"@ =~= seq!['e', 'd', 'i', 't']);
            assert("write_file"@ =~= seq!['w', 'r', 'i', 't', 'e', '_', 'f', 'i', 'l', 'e']);
            assert("read_"@ =~= read_prefix());
        }
        match self.mode {
            PermissionMode::Yolo => true,
            PermissionMode::AutoEdit => str_eq(tool_name, "edit") || str_eq(tool_name, "write_file"),
            PermissionMode::Plan => false,
            PermissionMode::Default => str_starts_with(tool_name, "read_"),
        }
    }
}

/// What each mode lets run without asking: in Plan mode no tool at all, in
/// Yolo mode every tool, in AutoEdit mode exactly `edit` and `write_file`, and
/// in Default mode exactly the tools whose name starts with `read_`.
pub proof fn lemma_auto_execution_by_mode(tool: Seq<char>)
    ensures
        !auto_executes(PermissionMode::Plan, tool),
        auto_executes(PermissionMode::Yolo, tool),
        auto_executes(PermissionMode::AutoEdit, tool)
            <==> (tool == seq!['e', 'd', 'i', 't'] || tool == seq!['w', 'r', 'i', 't', 'e', '_', 'f', 'i', 'l', 'e']),
        auto_executes(PermissionMode::Default, tool)
            <==> (tool.len() >= 5 && tool[0] == 'r' && tool[1] == 'e' && tool[2] == 'a' && tool[3] == 'd' && tool[4] == '_'),
{
    if tool.len() >= 5 && tool[0] == 'r' && tool[1] == 'e' && tool[2] == 'a' && tool[3] == 'd' && tool[4] == '_' {
        assert(read_prefix() =~= tool.subrange(0, 5));
    }
}

/// A tool is excluded when the list names it, and every tool is excluded when
/// the list holds `*`; a tool that the list neither names nor covers by `*`
/// is not excluded.
pub proof fn lemma_exclusion_by_name_or_wildcard(exclude: Seq<String>, tool: Seq<char>, i: int)
    requires
        0 <= i < exclude.len(),
    ensures
        exclude[i]@ == tool ==> excludes(exclude, tool),
        exclude[i]@ == seq!['*'] ==> excludes(exclude, tool),
        (forall|j: int| 0 <= j < exclude.len() ==> #[trigger] exclude[j]@ != tool && exclude[j]@ != seq!['*'])
            ==> !excludes(exclude, tool),
{
}

/// A tool is explicitly allowed exactly when the allowed list names it.
pub proof fn lemma_allowed_by_name(allowed: Seq<String>, tool: Seq<char>, i: int)
    requires
        0 <= i < allowed.len(),
    ensures
        allowed[i]@ == tool ==> lists(allowed, tool),
        (forall|j: int| 0 <= j < allowed.len() ==> #[trigger] allowed[j]@ != tool) ==> !lists(allowed, tool),
{
}

} // verus!
