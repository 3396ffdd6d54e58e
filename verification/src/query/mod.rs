//! Sessions and the query builder.

pub mod builder;
pub mod executor;
pub mod handler;
pub mod session;
