//! Command specifications: paths, argument declarations, their values and
//! the diagnostics raised when values break them.

pub mod arg_spec;
pub mod command_tree;
pub mod diagnostic;
pub mod json;
pub mod validation;
pub mod value;
