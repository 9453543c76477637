//! Output formats of the command line tool.

use vstd::prelude::*;

use crate::ast::base::str_eq;

verus! {

#[derive(Copy, Clone, Debug, PartialEq, Eq, Structural)]
pub enum OutputFormat {
    Human,
    Json,
    Rdjson,
}

/// The error of parsing an unknown output format; it holds the given name.
#[derive(Debug)]
pub struct FromStrError(pub String);

/// The output format named by a string, if any.
pub open spec fn spec_output_format(s: Seq<char>) -> Option<OutputFormat> {
    if s == "human"@ {
        Some(OutputFormat::Human)
    } else if s == "json"@ {
        Some(OutputFormat::Json)
    } else if s == "rdjson"@ {
        Some(OutputFormat::Rdjson)
    } else {
        None
    }
}

impl OutputFormat {
    /// Parses an output format from its name; an unknown name is returned in the error.
    pub fn parse(s: &str) -> (r: Result<Self, FromStrError>)
        ensures
            match spec_output_format(s@) {
                Some(f) => r matches Ok(g) && g == f,
                None => r matches Err(e) && e.0@ == s@,
            },
    {
        if str_eq(s, "human") {
            Ok(OutputFormat::Human)
        } else if str_eq(s, "json") {
            Ok(OutputFormat::Json)
        } else if str_eq(s, "rdjson") {
            Ok(OutputFormat::Rdjson)
        } else {
            Err(FromStrError(s.to_owned()))
        }
    }
}

impl std::str::FromStr for OutputFormat {
    type Err = FromStrError;

    fn from_str(s: &str) -> (r: Result<Self, Self::Err>)
        ensures
            match spec_output_format(s@) {
                Some(f) => r matches Ok(g) && g == f,
                None => r matches Err(e) && e.0@ == s@,
            },
    {
        OutputFormat::parse(s)
    }
}

} // verus!
