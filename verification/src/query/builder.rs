//! The fluent query builder.

use vstd::prelude::*;

use crate::query::session::{is_uuid_v4_text, QueryHandle};
use crate::types::config::{is_default_options, QueryOptions};
use crate::types::error::QwenError;
use crate::types::permission::PermissionMode;
use crate::utils::helpers::{path_from_text, string_to_path};

verus! {

broadcast use vstd::string::group_string_axioms;

/// Query builder for the fluent API: a prompt and the options it runs under.
pub struct QueryBuilder {
    pub options: QueryOptions,
    pub prompt: Option<String>,
}

/// `b` is `a` with only the options changed, to `o`.
pub open spec fn with_options(a: QueryBuilder, b: QueryBuilder, o: QueryOptions) -> bool {
    b.prompt == a.prompt && b.options == o
}

impl QueryBuilder {
    /// A builder with no prompt and the default options.
    pub fn new() -> (b: Self)
        ensures
            b.prompt is None,
            is_default_options(b.options),
    {
        QueryBuilder { options: QueryOptions::default(), prompt: None }
    }

    /// Set the prompt for the query.
    pub fn prompt(self, prompt: &str) -> (b: Self)
        ensures
            b.prompt matches Some(p) && p@ == prompt@,
            b.options == self.options,
    {
        QueryBuilder { prompt: Some(prompt.to_owned()), ..self }
    }

    /// Set the working directory.
    pub fn cwd(self, path: &str) -> (b: Self)
        ensures
            with_options(self, b, QueryOptions { cwd: Some(path_from_text(path@)), ..self.options }),
    {
        let mut b = self;
        b.options.cwd = Some(string_to_path(path));
        b
    }

    /// Set the AI model.
    pub fn model(self, model: &str) -> (b: Self)
        ensures
            b.prompt == self.prompt,
            b.options.model matches Some(m) && m@ == model@,
            b.options == (QueryOptions { model: b.options.model, ..self.options }),
    {
        let mut b = self;
        b.options.model = Some(model.to_owned());
        b
    }

    /// Set the permission mode.
    pub fn permission_mode(self, mode: PermissionMode) -> (b: Self)
        ensures
            with_options(self, b, QueryOptions { permission_mode: mode, ..self.options }),
    {
        let mut b = self;
        b.options.permission_mode = mode;
        b
    }

    /// Enable or disable debug mode.
    pub fn debug(self, debug: bool) -> (b: Self)
        ensures
            with_options(self, b, QueryOptions { debug: debug, ..self.options }),
    {
        let mut b = self;
        b.options.debug = debug;
        b
    }

    /// Set the maximum number of session turns.
    pub fn max_turns(self, max: i32) -> (b: Self)
        ensures
            with_options(self, b, QueryOptions { max_session_turns: max, ..self.options }),
    {
        let mut b = self;
        b.options.max_session_turns = max;
        b
    }

    /// Set the session ID.
    pub fn session_id(self, session_id: &str) -> (b: Self)
        ensures
            b.prompt == self.prompt,
            b.options.session_id matches Some(s) && s@ == session_id@,
            b.options == (QueryOptions { session_id: b.options.session_id, ..self.options }),
    {
        let mut b = self;
        b.options.session_id = Some(session_id.to_owned());
        b
    }

    /// Build the query: the prompt and the options.
    pub fn build(self) -> (r: Result<(Option<String>, QueryOptions), QwenError>)
        ensures
            r == Ok::<(Option<String>, QueryOptions), QwenError>((self.prompt, self.options)),
    {
        Ok((self.prompt, self.options))
    }

    /// Start the query's session: a handle for the session that the options
    /// name, or for a fresh one.
    pub fn execute(self) -> (r: Result<QueryHandle, QwenError>)
        ensures
            r matches Ok(h) && !h.closed() && match self.options.session_id {
                Some(s) => h.session_text() == s@,
                None => is_uuid_v4_text(h.session_text()),
            },
    {
        let (_prompt, options) = match self.build() {
            Ok(parts) => parts,
            Err(e) => return Err(e),
        };
        Ok(QueryHandle::new(options.session_id))
    }
}

impl Default for QueryBuilder {
    fn default() -> (b: Self)
        ensures
            b.prompt is None,
            is_default_options(b.options),
    {
        QueryBuilder::new()
    }
}

} // verus!
