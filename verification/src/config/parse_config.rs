//! Turning the fields found in a config file into a [`Config`].

use vstd::prelude::*;

use super::config::{Config, GenerateConfig};
use super::parsing_utils::StringOrVecString;

verus! {

/// The top-level fields of a GraphQL config file.
#[derive(Debug)]
pub struct ConfigParser {
    pub schema: Option<StringOrVecString>,
    pub documents: Option<StringOrVecString>,
    pub extensions: Option<Extensions>,
}

/// The `extensions` field of a GraphQL config file.
#[derive(Debug)]
pub struct Extensions {
    pub nitrogql: Option<NitrogqlConfigParser>,
}

/// The `extensions.nitrogql` field of a GraphQL config file.
#[derive(Debug)]
pub struct NitrogqlConfigParser {
    pub plugins: Vec<String>,
    pub generate: Option<GenerateConfig>,
}

/// Strings of an optional string-or-list field; an absent field gives none.
pub open spec fn opt_strings(o: Option<StringOrVecString>) -> Seq<String> {
    match o {
        Some(s) => s.spec_vec(),
        None => Seq::empty(),
    }
}

/// The `extensions.nitrogql` section of a parsed config file, if present.
pub open spec fn nitrogql_section(parsed: ConfigParser) -> Option<NitrogqlConfigParser> {
    match parsed.extensions {
        Some(e) => e.nitrogql,
        None => None,
    }
}

/// Builds a config from the fields of a parsed config file.
/// Absent fields give empty lists and the default generate config.
pub fn config_from_parsed(parsed: ConfigParser) -> (r: Config)
    ensures
        r.schema@ == opt_strings(parsed.schema),
        r.operations@ == opt_strings(parsed.documents),
        match nitrogql_section(parsed) {
            None => r.plugins@.len() == 0 && r.generate.is_default(),
            Some(n) => r.plugins@ == n.plugins@ && match n.generate {
                Some(g) => r.generate == g,
                None => r.generate.is_default(),
            },
        },
{
    let ConfigParser { schema, documents, extensions } = parsed;
    let nitrogql = match extensions {
        Some(e) => e.nitrogql,
        None => None,
    };
    let (plugins, generate) = match nitrogql {
        Some(n) => {
            let g = match n.generate {
                Some(g) => g,
                None => GenerateConfig::default(),
            };
            (n.plugins, g)
        },
        None => (Vec::new(), GenerateConfig::default()),
    };
    let schema = match schema {
        Some(s) => s.into_vec(),
        None => Vec::new(),
    };
    let operations = match documents {
        Some(s) => s.into_vec(),
        None => Vec::new(),
    };
    Config { schema, operations, plugins, generate }
}

} // verus!
