//! Waiting for results computed by Node.js.

pub mod ticket;
