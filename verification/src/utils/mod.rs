//! Validation and formatting helpers.

pub mod helpers;
pub mod text;
pub mod validation;
