//! State of the loader that prints operation documents for a bundler: its tasks and its log.

pub mod logger;
pub mod tasks;
