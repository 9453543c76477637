//! Printing documents back as GraphQL text.

pub mod writer;
pub mod base;
pub mod operation;
pub mod type_system;
pub mod balance;
