//! Errors of the command line tool.

use vstd::prelude::*;
use vstd::string::StringExecFns;

use std::path::PathBuf;

verus! {

#[derive(Debug)]
pub enum CliError {
    NoCommandSpecified,
    UnknownCommand(String),
    InvalidCommand(String),
    NoSchemaSpecified,
    IntrospectionOnce,
    MixGraphQLAndIntrospection,
    OptionRequired { option: String, command: String },
    CannotEmitRuntimeToDts,
    FailedToCalculateSourceMapFileName { path: PathBuf },
    GlobError(String),
    CommandNotSuccessful(String),
}


/// The text that `Path::to_string_lossy` gives of a path.
pub uninterp spec fn lossy_text(path: PathBuf) -> Seq<char>;

/// `Path::to_string_lossy` on a path, made an owned string: the text named by `lossy_text`.
/// How bytes that are not text are replaced is not restated.
#[verifier::external_body]
pub(crate) fn path_text(path: &PathBuf) -> (r: String)
    ensures
        r@ == lossy_text(*path),
{
    path.to_string_lossy().into_owned()
}

/// A message made of a text, a value, and a text.
pub open spec fn framed(before: Seq<char>, value: Seq<char>, after: Seq<char>) -> Seq<char> {
    before + value + after
}

/// Builds `before`, then `value`, then `after`.
fn frame(before: &str, value: &str, after: &str) -> (r: String)
    ensures
        r@ == framed(before@, value@, after@),
{
    let mut r = String::from_str(before);
    r.append(value);
    r.append(after);
    r
}

impl CliError {
    /// The message of an error.
    pub open spec fn spec_message(self) -> Seq<char> {
        match self {
            CliError::NoCommandSpecified => "No command specified"@,
            CliError::UnknownCommand(c) => framed("Unknown command '"@, c@, "'"@),
            CliError::InvalidCommand(m) => framed("Invalid command: "@, m@, ""@),
            CliError::NoSchemaSpecified => "Schema file not specified"@,
            CliError::IntrospectionOnce => "Introspection JSON can only be specified once"@,
            CliError::MixGraphQLAndIntrospection => "Cannot mix GraphQL and Introspection JSON for schema"@,
            CliError::OptionRequired { option, command } => framed(
                "Option '"@,
                option@,
                "' is required for the '"@,
            ) + command@ + "' command. "@,
            CliError::CannotEmitRuntimeToDts => "Cannot emit code including runtime to a .d.ts file."@,
            CliError::FailedToCalculateSourceMapFileName { path } => framed(
                "Failed to calculate source map file name for '"@,
                lossy_text(path),
                "'."@,
            ),
            CliError::GlobError(m) => m@,
            CliError::CommandNotSuccessful(c) => framed("Command not successful: "@, c@, ""@),
        }
    }

    /// The message shown for an error.
    pub fn message(&self) -> (r: String)
        ensures
            r@ == self.spec_message(),
    {
        match self {
            CliError::NoCommandSpecified => String::from_str("No command specified"),
            CliError::UnknownCommand(c) => frame("Unknown command '", c.as_str(), "'"),
            CliError::InvalidCommand(m) => frame("Invalid command: ", m.as_str(), ""),
            CliError::NoSchemaSpecified => String::from_str("Schema file not specified"),
            CliError::IntrospectionOnce => String::from_str(
                "Introspection JSON can only be specified once",
            ),
            CliError::MixGraphQLAndIntrospection => String::from_str(
                "Cannot mix GraphQL and Introspection JSON for schema",
            ),
            CliError::OptionRequired { option, command } => {
                let mut r = frame("Option '", option.as_str(), "' is required for the '");
                r.append(command.as_str());
                r.append("' command. ");
                r
            },
            CliError::CannotEmitRuntimeToDts => String::from_str(
                "Cannot emit code including runtime to a .d.ts file.",
            ),
            CliError::FailedToCalculateSourceMapFileName { path } => {
                let p = path_text(path);
                frame("Failed to calculate source map file name for '", p.as_str(), "'.")
            },
            CliError::GlobError(m) => String::from_str(m.as_str()),
            CliError::CommandNotSuccessful(c) => frame("Command not successful: ", c.as_str(), ""),
        }
    }
}

} // verus!
