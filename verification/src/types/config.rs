//! Query options and the configuration records they hold.

use vstd::prelude::*;
use std::collections::HashMap;
use std::path::PathBuf;

use crate::types::mcp::McpServerConfig;
use crate::types::error::QwenError;
use crate::types::permission::PermissionMode;

verus! {

/// Authentication type.
#[derive(Debug, Clone, Copy, PartialEq, Eq, Structural)]
pub enum AuthType {
    Openai,
    QwenOauth,
}

impl Default for AuthType {
    fn default() -> (a: Self)
        ensures
            a == AuthType::Openai,
    {
        AuthType::Openai
    }
}

/// System prompt configuration.
#[derive(Debug, Clone)]
pub enum SystemPromptConfig {
    /// Custom system prompt string.
    Custom(String),
    /// Preset with optional appended text.
    Preset { preset: String, append: Option<String> },
}

/// Timeout configuration for SDK operations, in milliseconds.
#[derive(Debug, Clone, Copy)]
pub struct TimeoutConfig {
    /// Timeout for the can_use_tool callback.
    pub can_use_tool: u64,
    /// Timeout for MCP tool requests.
    pub mcp_request: u64,
    /// Timeout for control requests.
    pub control_request: u64,
    /// Timeout for closing the stream.
    pub stream_close: u64,
}

/// Default timeout for the permission callback, MCP requests and control requests.
pub const DEFAULT_REQUEST_TIMEOUT_MS: u64 = 60000;

/// Default timeout for closing the input stream.
pub const DEFAULT_STREAM_CLOSE_TIMEOUT_MS: u64 = 15000;

/// The documented default timeouts: 60 s for the callback and for requests, 15 s to close the stream.
pub open spec fn default_timeouts() -> TimeoutConfig {
    TimeoutConfig {
        can_use_tool: 60000,
        mcp_request: 60000,
        control_request: 60000,
        stream_close: 15000,
    }
}

impl Default for TimeoutConfig {
    fn default() -> (t: Self)
        ensures
            t == default_timeouts(),
    {
        TimeoutConfig {
            can_use_tool: DEFAULT_REQUEST_TIMEOUT_MS,
            mcp_request: DEFAULT_REQUEST_TIMEOUT_MS,
            control_request: DEFAULT_REQUEST_TIMEOUT_MS,
            stream_close: DEFAULT_STREAM_CLOSE_TIMEOUT_MS,
        }
    }
}

/// Subagent configuration.
#[derive(Debug, Clone)]
pub struct SubagentConfig {
    pub name: String,
    pub description: String,
    pub tools: Option<Vec<String>>,
}

impl Default for SubagentConfig {
    fn default() -> (c: Self)
        ensures
            c.name@ == Seq::<char>::empty(),
            c.description@ == Seq::<char>::empty(),
            c.tools is None,
    {
        SubagentConfig { name: String::new(), description: String::new(), tools: None }
    }
}

/// Query options for configuring SDK behavior.
#[derive(Debug, Clone)]
pub struct QueryOptions {
    /// Working directory for the session.
    pub cwd: Option<PathBuf>,
    /// AI model to use (e.g. "qwen-max", "qwen-plus").
    pub model: Option<String>,
    /// Path to the qwen executable (looked up when absent).
    pub path_to_qwen_executable: Option<String>,
    /// Permission mode for tool approval.
    pub permission_mode: PermissionMode,
    /// Environment variables merged with the current process's.
    pub env: Option<HashMap<String, String>>,
    /// System prompt configuration.
    pub system_prompt: Option<SystemPromptConfig>,
    /// MCP servers configuration.
    pub mcp_servers: Option<HashMap<String, McpServerConfig>>,
    /// Enable debug logging.
    pub debug: bool,
    /// Maximum session turns (-1 for unlimited).
    pub max_session_turns: i32,
    /// Allowlist of tools.
    pub core_tools: Option<Vec<String>>,
    /// Denylist of tools.
    pub exclude_tools: Option<Vec<String>>,
    /// Tools that bypass can_use_tool and auto-execute.
    pub allowed_tools: Option<Vec<String>>,
    /// Authentication type.
    pub auth_type: AuthType,
    /// Subagent configuration.
    pub agents: Option<Vec<SubagentConfig>>,
    /// Include partial messages during generation.
    pub include_partial_messages: bool,
    /// Session ID whose history is resumed.
    pub resume: Option<String>,
    /// Session ID, without resuming history.
    pub session_id: Option<String>,
    /// Timeout configuration.
    pub timeouts: Option<TimeoutConfig>,
}

/// Unlimited session turns.
pub const UNLIMITED_TURNS: i32 = -1;

/// The default options: nothing set, default permission mode and
/// authentication, no debug output, unlimited turns, no partial messages.
pub open spec fn is_default_options(o: QueryOptions) -> bool {
    &&& o.cwd is None
    &&& o.model is None
    &&& o.path_to_qwen_executable is None
    &&& o.permission_mode == PermissionMode::Default
    &&& o.env is None
    &&& o.system_prompt is None
    &&& o.mcp_servers is None
    &&& !o.debug
    &&& o.max_session_turns == -1
    &&& o.core_tools is None
    &&& o.exclude_tools is None
    &&& o.allowed_tools is None
    &&& o.auth_type == AuthType::Openai
    &&& o.agents is None
    &&& !o.include_partial_messages
    &&& o.resume is None
    &&& o.session_id is None
    &&& o.timeouts is None
}

impl Default for QueryOptions {
    fn default() -> (o: Self)
        ensures
            is_default_options(o),
    {
        QueryOptions {
            cwd: None,
            model: None,
            path_to_qwen_executable: None,
            permission_mode: PermissionMode::default(),
            env: None,
            system_prompt: None,
            mcp_servers: None,
            debug: false,
            max_session_turns: UNLIMITED_TURNS,
            core_tools: None,
            exclude_tools: None,
            allowed_tools: None,
            auth_type: AuthType::default(),
            agents: None,
            include_partial_messages: false,
            resume: None,
            session_id: None,
            timeouts: None,
        }
    }
}


/// Builder for `TimeoutConfig`; an unset timeout takes its default.
#[derive(Debug, Clone, Copy)]
pub struct TimeoutConfigBuilder {
    pub can_use_tool: Option<u64>,
    pub mcp_request: Option<u64>,
    pub control_request: Option<u64>,
    pub stream_close: Option<u64>,
}

/// The value that is set, or else the default.
pub open spec fn or_default<T>(v: Option<T>, default: T) -> T {
    match v {
        Some(x) => x,
        None => default,
    }
}

/// The value that is set, or else the default.
fn value_or<T>(v: Option<T>, default: T) -> (r: T)
    ensures
        r == or_default(v, default),
{
    match v {
        Some(x) => x,
        None => default,
    }
}

/// The configuration that a timeout builder makes.
pub open spec fn built_timeouts(b: TimeoutConfigBuilder) -> TimeoutConfig {
    TimeoutConfig {
        can_use_tool: or_default(b.can_use_tool, 60000),
        mcp_request: or_default(b.mcp_request, 60000),
        control_request: or_default(b.control_request, 60000),
        stream_close: or_default(b.stream_close, 15000),
    }
}

impl Default for TimeoutConfigBuilder {
    fn default() -> (b: Self)
        ensures
            b.can_use_tool is None && b.mcp_request is None && b.control_request is None && b.stream_close is None,
    {
        TimeoutConfigBuilder { can_use_tool: None, mcp_request: None, control_request: None, stream_close: None }
    }
}

impl TimeoutConfigBuilder {
    pub fn can_use_tool(self, value: u64) -> (b: Self)
        ensures
            b == (TimeoutConfigBuilder { can_use_tool: Some(value), ..self }),
    {
        TimeoutConfigBuilder { can_use_tool: Some(value), ..self }
    }

    pub fn mcp_request(self, value: u64) -> (b: Self)
        ensures
            b == (TimeoutConfigBuilder { mcp_request: Some(value), ..self }),
    {
        TimeoutConfigBuilder { mcp_request: Some(value), ..self }
    }

    pub fn control_request(self, value: u64) -> (b: Self)
        ensures
            b == (TimeoutConfigBuilder { control_request: Some(value), ..self }),
    {
        TimeoutConfigBuilder { control_request: Some(value), ..self }
    }

    pub fn stream_close(self, value: u64) -> (b: Self)
        ensures
            b == (TimeoutConfigBuilder { stream_close: Some(value), ..self }),
    {
        TimeoutConfigBuilder { stream_close: Some(value), ..self }
    }

    /// Build the configuration; this never fails.
    pub fn build(self) -> (r: Result<TimeoutConfig, QwenError>)
        ensures
            r == Ok::<TimeoutConfig, QwenError>(built_timeouts(self)),
    {
        Ok(TimeoutConfig {
            can_use_tool: value_or(self.can_use_tool, DEFAULT_REQUEST_TIMEOUT_MS),
            mcp_request: value_or(self.mcp_request, DEFAULT_REQUEST_TIMEOUT_MS),
            control_request: value_or(self.control_request, DEFAULT_REQUEST_TIMEOUT_MS),
            stream_close: value_or(self.stream_close, DEFAULT_STREAM_CLOSE_TIMEOUT_MS),
        })
    }
}

/// A timeout builder with nothing set builds the default timeouts.
pub proof fn lemma_empty_timeout_builder_builds_default()
    ensures
        built_timeouts(TimeoutConfigBuilder {
            can_use_tool: None,
            mcp_request: None,
            control_request: None,
            stream_close: None,
        }) == default_timeouts(),
{
}

/// Builder for `SubagentConfig`; an unset field takes its default.
#[derive(Debug, Clone)]
pub struct SubagentConfigBuilder {
    pub name: Option<String>,
    pub description: Option<String>,
    pub tools: Option<Option<Vec<String>>>,
}

impl Default for SubagentConfigBuilder {
    fn default() -> (b: Self)
        ensures
            b.name is None && b.description is None && b.tools is None,
    {
        SubagentConfigBuilder { name: None, description: None, tools: None }
    }
}

/// The text that is set, or else the empty text.
pub open spec fn text_or_empty(v: Option<String>) -> Seq<char> {
    match v {
        Some(s) => s@,
        None => Seq::empty(),
    }
}

impl SubagentConfigBuilder {
    pub fn name(self, value: String) -> (b: Self)
        ensures
            b == (SubagentConfigBuilder { name: Some(value), ..self }),
    {
        SubagentConfigBuilder { name: Some(value), ..self }
    }

    pub fn description(self, value: String) -> (b: Self)
        ensures
            b == (SubagentConfigBuilder { description: Some(value), ..self }),
    {
        SubagentConfigBuilder { description: Some(value), ..self }
    }

    pub fn tools(self, value: Option<Vec<String>>) -> (b: Self)
        ensures
            b == (SubagentConfigBuilder { tools: Some(value), ..self }),
    {
        SubagentConfigBuilder { tools: Some(value), ..self }
    }

    /// Build the configuration; this never fails.
    pub fn build(self) -> (r: Result<SubagentConfig, QwenError>)
        ensures
            r matches Ok(c) && c.name@ == text_or_empty(self.name) && c.description@ == text_or_empty(self.description)
                && c.tools == or_default(self.tools, None),
            r matches Ok(c) && (self.name matches Some(n) ==> c.name@ == n@)
                && (self.description matches Some(d) ==> c.description@ == d@)
                && (self.tools matches Some(t) ==> c.tools == t)
                && (self.name is None ==> c.name@.len() == 0)
                && (self.description is None ==> c.description@.len() == 0)
                && (self.tools is None ==> c.tools is None),
    {
        Ok(SubagentConfig {
            name: value_or(self.name, String::new()),
            description: value_or(self.description, String::new()),
            tools: value_or(self.tools, None),
        })
    }
}

/// Builder for `QueryOptions`; an unset field takes its default.
#[derive(Debug, Clone)]
pub struct QueryOptionsBuilder {
    pub cwd: Option<Option<PathBuf>>,
    pub model: Option<Option<String>>,
    pub path_to_qwen_executable: Option<Option<String>>,
    pub permission_mode: Option<PermissionMode>,
    pub env: Option<Option<HashMap<String, String>>>,
    pub system_prompt: Option<Option<SystemPromptConfig>>,
    pub mcp_servers: Option<Option<HashMap<String, McpServerConfig>>>,
    pub debug: Option<bool>,
    pub max_session_turns: Option<i32>,
    pub core_tools: Option<Option<Vec<String>>>,
    pub exclude_tools: Option<Option<Vec<String>>>,
    pub allowed_tools: Option<Option<Vec<String>>>,
    pub auth_type: Option<AuthType>,
    pub agents: Option<Option<Vec<SubagentConfig>>>,
    pub include_partial_messages: Option<bool>,
    pub resume: Option<Option<String>>,
    pub session_id: Option<Option<String>>,
    pub timeouts: Option<Option<TimeoutConfig>>,
}

/// The options that a builder makes: each field that is set, and the default
/// of each field that is not.
pub open spec fn built_options(b: QueryOptionsBuilder) -> QueryOptions {
    QueryOptions {
        cwd: or_default(b.cwd, None),
        model: or_default(b.model, None),
        path_to_qwen_executable: or_default(b.path_to_qwen_executable, None),
        permission_mode: or_default(b.permission_mode, PermissionMode::Default),
        env: or_default(b.env, None),
        system_prompt: or_default(b.system_prompt, None),
        mcp_servers: or_default(b.mcp_servers, None),
        debug: or_default(b.debug, false),
        max_session_turns: or_default(b.max_session_turns, -1i32),
        core_tools: or_default(b.core_tools, None),
        exclude_tools: or_default(b.exclude_tools, None),
        allowed_tools: or_default(b.allowed_tools, None),
        auth_type: or_default(b.auth_type, AuthType::Openai),
        agents: or_default(b.agents, None),
        include_partial_messages: or_default(b.include_partial_messages, false),
        resume: or_default(b.resume, None),
        session_id: or_default(b.session_id, None),
        timeouts: or_default(b.timeouts, None),
    }
}

/// A builder with nothing set.
pub open spec fn empty_options_builder() -> QueryOptionsBuilder {
    QueryOptionsBuilder {
        cwd: None,
        model: None,
        path_to_qwen_executable: None,
        permission_mode: None,
        env: None,
        system_prompt: None,
        mcp_servers: None,
        debug: None,
        max_session_turns: None,
        core_tools: None,
        exclude_tools: None,
        allowed_tools: None,
        auth_type: None,
        agents: None,
        include_partial_messages: None,
        resume: None,
        session_id: None,
        timeouts: None,
    }
}

impl Default for QueryOptionsBuilder {
    fn default() -> (b: Self)
        ensures
            b == empty_options_builder(),
    {
        QueryOptionsBuilder {
            cwd: None,
            model: None,
            path_to_qwen_executable: None,
            permission_mode: None,
            env: None,
            system_prompt: None,
            mcp_servers: None,
            debug: None,
            max_session_turns: None,
            core_tools: None,
            exclude_tools: None,
            allowed_tools: None,
            auth_type: None,
            agents: None,
            include_partial_messages: None,
            resume: None,
            session_id: None,
            timeouts: None,
        }
    }
}

impl QueryOptionsBuilder {
    pub fn cwd(self, value: PathBuf) -> (b: Self)
        ensures
            b == (QueryOptionsBuilder { cwd: Some(Some(value)), ..self }),
    {
        QueryOptionsBuilder { cwd: Some(Some(value)), ..self }
    }

    pub fn model(self, value: String) -> (b: Self)
        ensures
            b == (QueryOptionsBuilder { model: Some(Some(value)), ..self }),
    {
        QueryOptionsBuilder { model: Some(Some(value)), ..self }
    }

    pub fn path_to_qwen_executable(self, value: String) -> (b: Self)
        ensures
            b == (QueryOptionsBuilder { path_to_qwen_executable: Some(Some(value)), ..self }),
    {
        QueryOptionsBuilder { path_to_qwen_executable: Some(Some(value)), ..self }
    }

    pub fn permission_mode(self, value: PermissionMode) -> (b: Self)
        ensures
            b == (QueryOptionsBuilder { permission_mode: Some(value), ..self }),
    {
        QueryOptionsBuilder { permission_mode: Some(value), ..self }
    }

    pub fn env(self, value: Option<HashMap<String, String>>) -> (b: Self)
        ensures
            b == (QueryOptionsBuilder { env: Some(value), ..self }),
    {
        QueryOptionsBuilder { env: Some(value), ..self }
    }

    pub fn system_prompt(self, value: Option<SystemPromptConfig>) -> (b: Self)
        ensures
            b == (QueryOptionsBuilder { system_prompt: Some(value), ..self }),
    {
        QueryOptionsBuilder { system_prompt: Some(value), ..self }
    }

    pub fn mcp_servers(self, value: Option<HashMap<String, McpServerConfig>>) -> (b: Self)
        ensures
            b == (QueryOptionsBuilder { mcp_servers: Some(value), ..self }),
    {
        QueryOptionsBuilder { mcp_servers: Some(value), ..self }
    }

    pub fn debug(self, value: bool) -> (b: Self)
        ensures
            b == (QueryOptionsBuilder { debug: Some(value), ..self }),
    {
        QueryOptionsBuilder { debug: Some(value), ..self }
    }

    pub fn max_session_turns(self, value: i32) -> (b: Self)
        ensures
            b == (QueryOptionsBuilder { max_session_turns: Some(value), ..self }),
    {
        QueryOptionsBuilder { max_session_turns: Some(value), ..self }
    }

    pub fn core_tools(self, value: Option<Vec<String>>) -> (b: Self)
        ensures
            b == (QueryOptionsBuilder { core_tools: Some(value), ..self }),
    {
        QueryOptionsBuilder { core_tools: Some(value), ..self }
    }

    pub fn exclude_tools(self, value: Option<Vec<String>>) -> (b: Self)
        ensures
            b == (QueryOptionsBuilder { exclude_tools: Some(value), ..self }),
    {
        QueryOptionsBuilder { exclude_tools: Some(value), ..self }
    }

    pub fn allowed_tools(self, value: Option<Vec<String>>) -> (b: Self)
        ensures
            b == (QueryOptionsBuilder { allowed_tools: Some(value), ..self }),
    {
        QueryOptionsBuilder { allowed_tools: Some(value), ..self }
    }

    pub fn auth_type(self, value: AuthType) -> (b: Self)
        ensures
            b == (QueryOptionsBuilder { auth_type: Some(value), ..self }),
    {
        QueryOptionsBuilder { auth_type: Some(value), ..self }
    }

    pub fn agents(self, value: Option<Vec<SubagentConfig>>) -> (b: Self)
        ensures
            b == (QueryOptionsBuilder { agents: Some(value), ..self }),
    {
        QueryOptionsBuilder { agents: Some(value), ..self }
    }

    pub fn include_partial_messages(self, value: bool) -> (b: Self)
        ensures
            b == (QueryOptionsBuilder { include_partial_messages: Some(value), ..self }),
    {
        QueryOptionsBuilder { include_partial_messages: Some(value), ..self }
    }

    pub fn resume(self, value: String) -> (b: Self)
        ensures
            b == (QueryOptionsBuilder { resume: Some(Some(value)), ..self }),
    {
        QueryOptionsBuilder { resume: Some(Some(value)), ..self }
    }

    pub fn session_id(self, value: String) -> (b: Self)
        ensures
            b == (QueryOptionsBuilder { session_id: Some(Some(value)), ..self }),
    {
        QueryOptionsBuilder { session_id: Some(Some(value)), ..self }
    }

    pub fn timeouts(self, value: Option<TimeoutConfig>) -> (b: Self)
        ensures
            b == (QueryOptionsBuilder { timeouts: Some(value), ..self }),
    {
        QueryOptionsBuilder { timeouts: Some(value), ..self }
    }

    /// Build the options; this never fails.
    pub fn build(self) -> (r: Result<QueryOptions, QwenError>)
        ensures
            r == Ok::<QueryOptions, QwenError>(built_options(self)),
    {
        Ok(QueryOptions {
            cwd: value_or(self.cwd, None),
            model: value_or(self.model, None),
            path_to_qwen_executable: value_or(self.path_to_qwen_executable, None),
            permission_mode: value_or(self.permission_mode, PermissionMode::default()),
            env: value_or(self.env, None),
            system_prompt: value_or(self.system_prompt, None),
            mcp_servers: value_or(self.mcp_servers, None),
            debug: value_or(self.debug, false),
            max_session_turns: value_or(self.max_session_turns, UNLIMITED_TURNS),
            core_tools: value_or(self.core_tools, None),
            exclude_tools: value_or(self.exclude_tools, None),
            allowed_tools: value_or(self.allowed_tools, None),
            auth_type: value_or(self.auth_type, AuthType::default()),
            agents: value_or(self.agents, None),
            include_partial_messages: value_or(self.include_partial_messages, false),
            resume: value_or(self.resume, None),
            session_id: value_or(self.session_id, None),
            timeouts: value_or(self.timeouts, None),
        })
    }
}

/// An options builder with nothing set builds the default options, the same
/// as `QueryOptions::default`.
pub proof fn lemma_empty_options_builder_builds_default()
    ensures
        is_default_options(built_options(empty_options_builder())),
{
}

/// Building options carries every field that was set into the options
/// unchanged, whatever the other fields hold; a field that was not set is
/// absent, or for the plain settings takes its default: the default
/// permission mode and authentication, no debug output, unlimited turns, no
/// partial messages.
pub proof fn lemma_options_builder_carries_each_field(b: QueryOptionsBuilder)
    ensures
        b.cwd matches Some(v) ==> built_options(b).cwd == v,
        b.model matches Some(v) ==> built_options(b).model == v,
        b.path_to_qwen_executable matches Some(v) ==> built_options(b).path_to_qwen_executable == v,
        b.permission_mode matches Some(v) ==> built_options(b).permission_mode == v,
        b.env matches Some(v) ==> built_options(b).env == v,
        b.system_prompt matches Some(v) ==> built_options(b).system_prompt == v,
        b.mcp_servers matches Some(v) ==> built_options(b).mcp_servers == v,
        b.debug matches Some(v) ==> built_options(b).debug == v,
        b.max_session_turns matches Some(v) ==> built_options(b).max_session_turns == v,
        b.core_tools matches Some(v) ==> built_options(b).core_tools == v,
        b.exclude_tools matches Some(v) ==> built_options(b).exclude_tools == v,
        b.allowed_tools matches Some(v) ==> built_options(b).allowed_tools == v,
        b.auth_type matches Some(v) ==> built_options(b).auth_type == v,
        b.agents matches Some(v) ==> built_options(b).agents == v,
        b.include_partial_messages matches Some(v) ==> built_options(b).include_partial_messages == v,
        b.resume matches Some(v) ==> built_options(b).resume == v,
        b.session_id matches Some(v) ==> built_options(b).session_id == v,
        b.timeouts matches Some(v) ==> built_options(b).timeouts == v,
        b.cwd is None ==> built_options(b).cwd is None,
        b.model is None ==> built_options(b).model is None,
        b.path_to_qwen_executable is None ==> built_options(b).path_to_qwen_executable is None,
        b.env is None ==> built_options(b).env is None,
        b.system_prompt is None ==> built_options(b).system_prompt is None,
        b.mcp_servers is None ==> built_options(b).mcp_servers is None,
        b.core_tools is None ==> built_options(b).core_tools is None,
        b.exclude_tools is None ==> built_options(b).exclude_tools is None,
        b.allowed_tools is None ==> built_options(b).allowed_tools is None,
        b.agents is None ==> built_options(b).agents is None,
        b.resume is None ==> built_options(b).resume is None,
        b.session_id is None ==> built_options(b).session_id is None,
        b.timeouts is None ==> built_options(b).timeouts is None,
        b.permission_mode is None ==> built_options(b).permission_mode == PermissionMode::Default,
        b.debug is None ==> !built_options(b).debug,
        b.max_session_turns is None ==> built_options(b).max_session_turns == -1,
        b.auth_type is None ==> built_options(b).auth_type == AuthType::Openai,
        b.include_partial_messages is None ==> !built_options(b).include_partial_messages,
{
}

/// Building timeouts carries every timeout that was set; one that was not set
/// is 60 s, or 15 s for closing the stream.
pub proof fn lemma_timeout_builder_carries_each_field(b: TimeoutConfigBuilder)
    ensures
        b.can_use_tool matches Some(v) ==> built_timeouts(b).can_use_tool == v,
        b.mcp_request matches Some(v) ==> built_timeouts(b).mcp_request == v,
        b.control_request matches Some(v) ==> built_timeouts(b).control_request == v,
        b.stream_close matches Some(v) ==> built_timeouts(b).stream_close == v,
        b.can_use_tool is None ==> built_timeouts(b).can_use_tool == 60000,
        b.mcp_request is None ==> built_timeouts(b).mcp_request == 60000,
        b.control_request is None ==> built_timeouts(b).control_request == 60000,
        b.stream_close is None ==> built_timeouts(b).stream_close == 15000,
{
}

/// The text of an optional string: the string's own text when it is set,
/// the empty text when it is not.
pub proof fn lemma_text_or_empty(v: Option<String>)
    ensures
        v matches Some(t) ==> text_or_empty(v) == t@,
        v is None ==> text_or_empty(v).len() == 0,
{
}

/// The documented defaults: 60 s for the permission callback, MCP requests
/// and control requests, 15 s to close the stream; default options set
/// nothing, use the default permission mode and authentication, print no
/// debug output, allow unlimited turns (-1) and send no partial messages.
pub proof fn lemma_documented_defaults(o: QueryOptions)
    ensures
        default_timeouts().can_use_tool == 60000,
        default_timeouts().mcp_request == 60000,
        default_timeouts().control_request == 60000,
        default_timeouts().stream_close == 15000,
        is_default_options(o) ==> o.max_session_turns == -1 && !o.debug && !o.include_partial_messages
            && o.permission_mode == PermissionMode::Default && o.auth_type == AuthType::Openai
            && o.model is None && o.session_id is None && o.resume is None && o.timeouts is None,
{
}

} // verus!
