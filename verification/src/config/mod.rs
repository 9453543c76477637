//! Configuration of code generation and of the command line tool.

pub mod config;
pub mod execute;
pub mod load_config;
pub mod node;
pub mod parse_config;
pub mod parsing_utils;
pub mod scalar_type;
pub mod type_target;
