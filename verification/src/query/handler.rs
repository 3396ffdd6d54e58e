//! Entry point of the fluent query API.

use vstd::prelude::*;

use crate::query::builder::QueryBuilder;
use crate::types::config::is_default_options;

verus! {

/// Query builder function for the fluent API: no prompt, default options.
pub fn query_builder() -> (b: QueryBuilder)
    ensures
        b.prompt is None,
        is_default_options(b.options),
{
    QueryBuilder::new()
}

} // verus!
