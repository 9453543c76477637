//! GraphQL abstract syntax tree.

pub mod base;
pub mod directive;
pub mod operation;
pub mod operation_ext;
pub mod selection_set;
pub mod span;
pub mod type_system;
pub mod types;
pub mod value;
pub mod variable;
