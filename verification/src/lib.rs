//! GraphQL tooling: AST, schema and operation checking, configuration
//! handling and printing, with their behaviour stated as Verus contracts.

pub mod ast;
pub mod checker;
pub mod cli;
pub mod config;
pub mod loader;
pub mod printer;
pub mod runtime;
