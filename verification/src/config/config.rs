//! The configuration read from a GraphQL config file.

use vstd::prelude::*;

use crate::ast::base::str_eq;
use std::collections::HashMap;
use std::path::PathBuf;

verus! {

/// File system paths are carried through unchanged.
#[verifier::external_type_specification]
#[verifier::external_body]
pub struct ExPathBuf(PathBuf);

#[derive(Debug)]
pub struct Config {
    /// Path(s) to schema definition files.
    pub schema: Vec<String>,
    /// Path(s) to operation definition files.
    pub operations: Vec<String>,
    // extensions
    /// List of plugins.
    pub plugins: Vec<String>,
    pub generate: GenerateConfig,
}

impl Default for Config {
    fn default() -> (r: Self)
        ensures
            r.schema@.len() == 0,
            r.operations@.len() == 0,
            r.plugins@.len() == 0,
            r.generate.is_default(),
    {
        Config {
            schema: Vec::new(),
            operations: Vec::new(),
            plugins: Vec::new(),
            generate: GenerateConfig::default(),
        }
    }
}

/// Config related to the 'generate' command.
#[derive(Debug)]
pub struct GenerateConfig {
    /// Mode of generation.
    pub mode: GenerateMode,
    /// Output file path for schema.
    pub schema_output: Option<PathBuf>,
    /// Output file path for processed GraphQL sources.
    pub server_graphql_output: Option<PathBuf>,
    /// Output file path for resolvers.
    pub resolvers_output: Option<PathBuf>,
    /// Module specifier for import schema types from operations.
    /// Defaults to relative paths.
    pub schema_module_specifier: Option<String>,
    /// Config related to generated types.
    pub ty: GenerateTypeConfig,
    /// Config related to generated names.
    pub name: GenerateNameConfig,
    /// Config related to exporting generated names.
    pub export: GenerateExportConfig,
    /// Whether to emit runtime for generated schema types.
    pub emit_schema_runtime: bool,
}

impl GenerateConfig {
    /// The values that a config file leaves unspecified.
    pub open spec fn is_default(self) -> bool {
        &&& self.mode == GenerateMode::WithLoaderTS5_0
        &&& self.schema_output is None
        &&& self.server_graphql_output is None
        &&& self.resolvers_output is None
        &&& self.schema_module_specifier is None
        &&& self.ty.is_default()
        &&& self.name.is_default()
        &&& self.export.is_default()
        &&& !self.emit_schema_runtime
    }
}

impl Default for GenerateConfig {
    fn default() -> (r: Self)
        ensures
            r.is_default(),
    {
        GenerateConfig {
            mode: GenerateMode::default(),
            schema_output: None,
            server_graphql_output: None,
            resolvers_output: None,
            schema_module_specifier: None,
            ty: GenerateTypeConfig::default(),
            name: GenerateNameConfig::default(),
            export: GenerateExportConfig::default(),
            emit_schema_runtime: false,
        }
    }
}

/// Mode of code generation.
#[derive(Debug, Copy, Clone, PartialEq, Eq, Structural)]
pub enum GenerateMode {
    /// To be used with a webpack loader for .graphql files, emits .d.graphql.ts files that are supported by TS 5.0 and later
    WithLoaderTS5_0,
    /// To be used with a webpack loader for .graphql files, emits .d.graphql.ts files that are supported by TS 4.0
    WithLoaderTS4_0,
    /// To be used standalone. Emits .graphql.ts that are supported by TS 4.0
    StandaloneTS4_0,
}

impl Default for GenerateMode {
    fn default() -> (r: Self)
        ensures
            r == GenerateMode::WithLoaderTS5_0,
    {
        GenerateMode::WithLoaderTS5_0
    }
}

/// The mode named by a string, if any.
pub open spec fn spec_mode_from_str(s: Seq<char>) -> Option<GenerateMode> {
    if s == "with-loader-ts-5.0"@ {
        Some(GenerateMode::WithLoaderTS5_0)
    } else if s == "with-loader-ts-4.0"@ {
        Some(GenerateMode::WithLoaderTS4_0)
    } else if s == "standalone-ts-4.0"@ {
        Some(GenerateMode::StandaloneTS4_0)
    } else {
        None
    }
}

/// The error of parsing an unknown generation mode.
#[derive(Debug)]
pub struct FromStrError;

impl GenerateMode {
    /// Parses a generation mode from its name.
    pub fn parse(value: &str) -> (r: Result<Self, FromStrError>)
        ensures
            match spec_mode_from_str(value@) {
                Some(m) => r == Ok::<GenerateMode, FromStrError>(m),
                None => r is Err,
            },
    {
        if str_eq(value, "with-loader-ts-5.0") {
            Ok(GenerateMode::WithLoaderTS5_0)
        } else if str_eq(value, "with-loader-ts-4.0") {
            Ok(GenerateMode::WithLoaderTS4_0)
        } else if str_eq(value, "standalone-ts-4.0") {
            Ok(GenerateMode::StandaloneTS4_0)
        } else {
            Err(FromStrError)
        }
    }
}

impl std::str::FromStr for GenerateMode {
    type Err = FromStrError;

    fn from_str(value: &str) -> (r: Result<Self, Self::Err>)
        ensures
            match spec_mode_from_str(value@) {
                Some(m) => r == Ok::<GenerateMode, FromStrError>(m),
                None => r is Err,
            },
    {
        GenerateMode::parse(value)
    }
}

/// Config related to generated types.
#[derive(Debug)]
pub struct GenerateTypeConfig {
    /// Type of scalars.
    pub scalar_types: HashMap<String, String>,
    /// Whether to allow undefined as input value
    /// for nullable input fields.
    pub allow_undefined_as_optional_input: bool,
}

impl GenerateTypeConfig {
    /// No scalar types and undefined allowed for optional inputs.
    pub open spec fn is_default(self) -> bool {
        &&& self.scalar_types@.len() == 0
        &&& self.allow_undefined_as_optional_input
    }
}

impl Default for GenerateTypeConfig {
    fn default() -> (r: Self)
        ensures
            r.is_default(),
    {
        Self { scalar_types: HashMap::new(), allow_undefined_as_optional_input: true }
    }
}

/// Config related to names of generated variables and types.
#[derive(Debug)]
pub struct GenerateNameConfig {
    /// Suffix for type of operation result.
    pub operation_result_type_suffix: Option<String>,
    /// Suffix for type of variables for an operation.
    pub variables_type_suffix: Option<String>,
    /// Suffix for type of fragment.
    pub fragment_type_suffix: Option<String>,
    /// Whether operation name should be capitalized.
    pub capitalize_operation_names: Option<bool>,
    /// Suffix for variable of query.
    pub query_variable_suffix: Option<String>,
    /// Suffix for variable of mutation.
    pub mutation_variable_suffix: Option<String>,
    /// Suffix for variable of subscription.
    pub subscription_variable_suffix: Option<String>,
}

impl GenerateNameConfig {
    /// Every name setting left unspecified.
    pub open spec fn is_default(self) -> bool {
        &&& self.operation_result_type_suffix is None
        &&& self.variables_type_suffix is None
        &&& self.fragment_type_suffix is None
        &&& self.capitalize_operation_names is None
        &&& self.query_variable_suffix is None
        &&& self.mutation_variable_suffix is None
        &&& self.subscription_variable_suffix is None
    }
}

impl Default for GenerateNameConfig {
    fn default() -> (r: Self)
        ensures
            r.is_default(),
    {
        GenerateNameConfig {
            operation_result_type_suffix: None,
            variables_type_suffix: None,
            fragment_type_suffix: None,
            capitalize_operation_names: None,
            query_variable_suffix: None,
            mutation_variable_suffix: None,
            subscription_variable_suffix: None,
        }
    }
}

/// Config related to exported names.
#[derive(Debug)]
pub struct GenerateExportConfig {
    /// Whether operation is exported as a default export.
    /// Effective only when a document contains only one operation.
    pub default_export_for_operation: bool,
    /// Whether operation result type is exported.
    pub operation_result_type: bool,
    /// Whether variables type is exported.
    pub variables_type: bool,
}

impl GenerateExportConfig {
    /// Default export of a single operation, no exported types.
    pub open spec fn is_default(self) -> bool {
        &&& self.default_export_for_operation
        &&& !self.operation_result_type
        &&& !self.variables_type
    }
}

impl Default for GenerateExportConfig {
    fn default() -> (r: Self)
        ensures
            r.is_default(),
    {
        Self {
            default_export_for_operation: true,
            operation_result_type: false,
            variables_type: false,
        }
    }
}

} // verus!
