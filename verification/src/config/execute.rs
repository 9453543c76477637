//! Errors of running a configuration file that is a program.

use vstd::prelude::*;

verus! {

/// Why a configuration file that is a program gave no configuration.
#[derive(Debug, Copy, Clone, PartialEq, Eq, Structural)]
pub enum ExecuteConfigError {
    FailedToExecuteConfigFile,
    FailedToReadResult,
}

impl ExecuteConfigError {
    /// The message shown for the error.
    pub fn message(&self) -> (r: &'static str)
        ensures
            r@ == (match self {
                ExecuteConfigError::FailedToExecuteConfigFile => "Failed to execute config file"@,
                ExecuteConfigError::FailedToReadResult => "Failed to read result"@,
            }),
    {
        match self {
            ExecuteConfigError::FailedToExecuteConfigFile => "Failed to execute config file",
            ExecuteConfigError::FailedToReadResult => "Failed to read result",
        }
    }
}

} // verus!
