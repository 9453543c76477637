//! Logic of the command line tool: stored input files, output kinds and built-in definitions.

pub mod builtins;
pub mod check;
pub mod commands;
pub mod context;
pub mod error;
pub mod file_store;
pub mod generate;
pub mod json;
pub mod output;
pub mod plugin_host;
pub mod report;
pub mod schema_loader;
