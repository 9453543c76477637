//! Checks of type system documents and of operations against them.

pub mod common;
pub mod definitions;
pub mod error;
pub mod named;
pub mod types;
pub mod values;
pub mod type_system_checker;
pub mod operation_checker;
