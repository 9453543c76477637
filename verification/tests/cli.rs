use std::path::PathBuf;

use nitrogql::ast::type_system::TypeSystemOrExtensionDocument;
use nitrogql::cli::commands::{
    override_config, parse_command, require_commands, require_schema, resolve_loaded_schema,
    Command, CommandError, LoadedSchema,
};
use nitrogql::cli::context::OutputFormat;
use nitrogql::cli::error::CliError;
use nitrogql::cli::file_store::{FileKind, FileStore};
use nitrogql::cli::generate::{
    declaration_extension, ends_with, mapped_source_paths, operation_file_indices, path_to_ts, strip_ts_suffix,
    prints_values, required_schema_output, schema_file_indices, source_map_file_name,
};
use nitrogql::ast::base::Pos;
use nitrogql::checker::error::CheckErrorMessage;
use nitrogql::cli::output::{file_of_position, CliOutput, InputFileKind, OutputFileKind};
use nitrogql::cli::plugin_host::PluginHost;
use nitrogql::cli::report::{human_report, json_report, places_are_countable, rdjson_report};
use nitrogql::config::execute::ExecuteConfigError;
use nitrogql::config::node::{load_default_code, supports_module_register_api, version_fields};
use nitrogql::config::load_config::{found_config, read_error_means_missing, search_step, starts_with, SearchAction};
use nitrogql::cli::schema_loader::{
    load_schema_js_code, schema_kind_by_path, schema_kind_from_extension, SchemaFileKind,
};
use nitrogql::config::config::{Config, GenerateMode};
use nitrogql::config::parse_config::{config_from_parsed, ConfigParser, Extensions, NitrogqlConfigParser};
use nitrogql::config::parsing_utils::StringOrVecString;

fn store_with_files() -> FileStore {
    let mut store = FileStore::new();
    store.add_file(PathBuf::from("schema1.graphql"), "type A".to_string(), FileKind::Schema);
    store.add_file(PathBuf::from("schema2.graphql"), "type B".to_string(), FileKind::Schema);
    store.add_file(PathBuf::from("op1.graphql"), "query A".to_string(), FileKind::Operation);
    store.add_file(PathBuf::from("op2.graphql"), "query B".to_string(), FileKind::Operation);
    store
}

#[test]
fn file_store_issues_stable_indices() {
    let mut store = FileStore::new();
    assert_eq!(store.schema_len(), 0);
    let a = store.add_file(PathBuf::from("a.graphql"), "A".to_string(), FileKind::Schema);
    let b = store.add_file(PathBuf::from("b.graphql"), "B".to_string(), FileKind::Operation);
    let c = store.add_file(PathBuf::from("c.graphql"), "C".to_string(), FileKind::Operation);
    assert_eq!((a, b, c), (0, 1, 2));
    assert_eq!(store.schema_len(), 1);
    assert_eq!(store.get_file(a).unwrap().1, "A");
    assert_eq!(store.get_file(b).unwrap().1, "B");
    assert_eq!(store.get_file(c).unwrap().0, PathBuf::from("c.graphql"));
    assert_eq!(store.get_file(c).unwrap().2, FileKind::Operation);
    assert!(store.get_file(3).is_none());
    assert_eq!(store.index(1).1, "B");
}

#[test]
fn file_store_iterates_in_index_order() {
    let store = store_with_files();
    let files = store.iter();
    assert_eq!(files.len(), 4);
    for (i, (idx, file)) in files.iter().enumerate() {
        assert_eq!(i, *idx);
        assert_eq!(file.2, if i < 2 { FileKind::Schema } else { FileKind::Operation });
    }
    assert_eq!(files[2].1 .1, "query A");
}

#[test]
fn source_map_file_indices() {
    let store = store_with_files();
    assert_eq!(schema_file_indices(&store), vec![0, 1, usize::MAX, usize::MAX]);
    assert_eq!(operation_file_indices(&store, 3), vec![0, 1, usize::MAX, 2]);
    let indices = operation_file_indices(&store, 2);
    let paths = mapped_source_paths(&indices, &store);
    assert_eq!(
        paths,
        vec![
            &PathBuf::from("schema1.graphql"),
            &PathBuf::from("schema2.graphql"),
            &PathBuf::from("op1.graphql")
        ]
    );
    let short = vec![usize::MAX, 1];
    assert_eq!(mapped_source_paths(&short, &store), vec![&PathBuf::from("schema2.graphql")]);
}

#[test]
fn path_to_ts_strips_typescript_suffixes() {
    assert_eq!(strip_ts_suffix("schema.d.ts"), "schema");
    assert_eq!(strip_ts_suffix("schema.ts"), "schema");
    assert_eq!(strip_ts_suffix("op.graphql.ts"), "op.graphql");
    assert_eq!(strip_ts_suffix("schema.js"), "schema.js");
    assert_eq!(strip_ts_suffix(".ts"), "");
    assert_eq!(strip_ts_suffix("ts"), "ts");
    assert_eq!(path_to_ts(PathBuf::from("out/schema.d.ts")), PathBuf::from("out/schema"));
    assert_eq!(path_to_ts(PathBuf::from("out/op.graphql.ts")), PathBuf::from("out/op.graphql"));
    assert_eq!(path_to_ts(PathBuf::from("a/b.ts/")), PathBuf::from("a/b"));
    assert_eq!(path_to_ts(PathBuf::from("out.ts/schema.js")), PathBuf::from("out.ts/schema.js"));
    assert_eq!(path_to_ts(PathBuf::from("/")), PathBuf::from("/"));
}

#[test]
fn generate_file_names() {
    assert_eq!(declaration_extension(GenerateMode::WithLoaderTS5_0), "d.graphql.ts");
    assert_eq!(declaration_extension(GenerateMode::WithLoaderTS4_0), "graphql.d.ts");
    assert_eq!(declaration_extension(GenerateMode::StandaloneTS4_0), "graphql.ts");
    assert!(prints_values(GenerateMode::StandaloneTS4_0));
    assert!(!prints_values(GenerateMode::WithLoaderTS5_0));
    assert_eq!(source_map_file_name("schema.d.ts"), "schema.d.ts.map");
}

#[test]
fn generate_requires_schema_output() {
    let mut config = Config::default();
    match required_schema_output(&config) {
        Err(CliError::OptionRequired { option, command }) => {
            assert_eq!(option, "schemaOutput");
            assert_eq!(command, "generate");
        }
        _ => panic!("expected an error"),
    }
    config.generate.schema_output = Some(PathBuf::from("out.d.ts"));
    assert_eq!(required_schema_output(&config).unwrap(), &PathBuf::from("out.d.ts"));
}

#[test]
fn commands_are_parsed() {
    assert_eq!(parse_command("check").unwrap(), Command::Check);
    assert_eq!(parse_command("generate").unwrap(), Command::Generate);
    match parse_command("deploy") {
        Err(CliError::UnknownCommand(name)) => assert_eq!(name, "deploy"),
        _ => panic!("expected an unknown command"),
    }
    assert!(matches!(require_commands(&vec![]), Err(CliError::NoCommandSpecified)));
    assert!(require_commands(&vec!["check".to_string()]).is_ok());
}

#[test]
fn command_line_overrides_config() {
    let mut config = Config::default();
    config.schema = vec!["a.graphql".to_string()];
    config.operations = vec!["op.graphql".to_string()];
    config.plugins = vec!["nitrogql:model-plugin".to_string()];
    let config = override_config(config, vec!["b.graphql".to_string()], vec![], None);
    assert_eq!(config.schema, vec!["b.graphql".to_string()]);
    assert_eq!(config.operations, vec!["op.graphql".to_string()]);
    assert_eq!(config.plugins, vec!["nitrogql:model-plugin".to_string()]);
    assert!(config.generate.schema_output.is_none());
    let config = override_config(config, vec![], vec![], Some(PathBuf::from("s.d.ts")));
    assert_eq!(config.generate.schema_output, Some(PathBuf::from("s.d.ts")));
    assert!(require_schema(&config).is_ok());
    assert!(matches!(require_schema(&Config::default()), Err(CliError::NoSchemaSpecified)));
}

#[test]
fn command_errors_are_merged_in_order() {
    let merged = CommandError::merge(vec![
        CommandError::from_error(1),
        CommandError::new(vec![2, 3], "check".to_string()),
        CommandError::new(vec![4], "generate".to_string()),
    ]);
    assert_eq!(merged.inner, vec![1, 2, 3, 4]);
    assert_eq!(merged.command, Some("check".to_string()));
    let empty: CommandError<u8> = CommandError::merge(vec![]);
    assert!(empty.inner.is_empty());
    assert!(empty.command.is_none());
}

#[test]
fn loaded_schemas_are_resolved() {
    let docs: Vec<LoadedSchema<TypeSystemOrExtensionDocument, u8>> = vec![
        LoadedSchema::GraphQL(TypeSystemOrExtensionDocument { definitions: vec![] }),
        LoadedSchema::GraphQL(TypeSystemOrExtensionDocument { definitions: vec![] }),
    ];
    assert!(matches!(resolve_loaded_schema(docs), Ok(LoadedSchema::GraphQL(_))));
    let docs: Vec<LoadedSchema<TypeSystemOrExtensionDocument, u8>> = vec![LoadedSchema::Introspection(7)];
    assert!(matches!(resolve_loaded_schema(docs), Ok(LoadedSchema::Introspection(7))));
    let docs: Vec<LoadedSchema<TypeSystemOrExtensionDocument, u8>> =
        vec![LoadedSchema::Introspection(1), LoadedSchema::Introspection(2)];
    assert!(matches!(resolve_loaded_schema(docs), Err(CliError::IntrospectionOnce)));
    let docs: Vec<LoadedSchema<TypeSystemOrExtensionDocument, u8>> = vec![
        LoadedSchema::Introspection(1),
        LoadedSchema::GraphQL(TypeSystemOrExtensionDocument { definitions: vec![] }),
    ];
    assert!(matches!(resolve_loaded_schema(docs), Err(CliError::MixGraphQLAndIntrospection)));
}

#[test]
fn output_formats_are_parsed() {
    assert_eq!("human".parse::<OutputFormat>().unwrap(), OutputFormat::Human);
    assert_eq!("json".parse::<OutputFormat>().unwrap(), OutputFormat::Json);
    assert_eq!("rdjson".parse::<OutputFormat>().unwrap(), OutputFormat::Rdjson);
    let err = "xml".parse::<OutputFormat>().unwrap_err();
    assert_eq!(err.0, "xml");
}

#[test]
fn file_kinds_are_named() {
    assert_eq!(InputFileKind::Schema.as_str(), "schema");
    assert_eq!(InputFileKind::Operation.as_str(), "operation");
    assert_eq!(OutputFileKind::GraphqlSource.as_str(), "graphqlSource");
    assert_eq!(
        OutputFileKind::SchemaTypeDefinition.to_source_map_kind(),
        OutputFileKind::SchemaTypeDefinitionSourceMap
    );
    assert_eq!(
        OutputFileKind::OperationTypeDefinitionSourceMap.to_source_map_kind(),
        OutputFileKind::OperationTypeDefinitionSourceMap
    );
    let k = OutputFileKind::ResolversTypeDefinition.to_source_map_kind();
    assert_eq!(k.to_source_map_kind(), k);
}

#[test]
fn schema_files_are_classified() {
    assert_eq!(schema_kind_by_path("a/schema.graphql"), SchemaFileKind::GraphQL);
    assert_eq!(schema_kind_by_path("a/schema.json"), SchemaFileKind::IntrospectionJson);
    assert_eq!(schema_kind_by_path("schema.mts"), SchemaFileKind::SchemaJavaScript);
    assert_eq!(schema_kind_by_path("schema"), SchemaFileKind::GraphQL);
    assert_eq!(schema_kind_by_path("schema.gql"), SchemaFileKind::GraphQL);
    assert_eq!(schema_kind_from_extension(Some("cjs")), SchemaFileKind::SchemaJavaScript);
    assert_eq!(schema_kind_from_extension(None), SchemaFileKind::GraphQL);
    let code = load_schema_js_code("/s.js");
    assert!(code.contains("loadSchemaJs(\"/s.js\")"));
    assert!(code.starts_with("\nimport { loadSchemaJs } from \"@nitrogql/core\";"));
}

#[test]
fn config_is_built_from_parsed_fields() {
    let parsed = ConfigParser {
        schema: Some(StringOrVecString::String("schema.graphql".to_string())),
        documents: Some(StringOrVecString::VecString(vec!["a.graphql".to_string(), "b.graphql".to_string()])),
        extensions: Some(Extensions {
            nitrogql: Some(NitrogqlConfigParser { plugins: vec!["p".to_string()], generate: None }),
        }),
    };
    let config = config_from_parsed(parsed);
    assert_eq!(config.schema, vec!["schema.graphql".to_string()]);
    assert_eq!(config.operations.len(), 2);
    assert_eq!(config.plugins, vec!["p".to_string()]);
    assert_eq!(config.generate.mode, GenerateMode::WithLoaderTS5_0);
    let empty = config_from_parsed(ConfigParser { schema: None, documents: None, extensions: None });
    assert!(empty.schema.is_empty() && empty.operations.is_empty() && empty.plugins.is_empty());
    assert_eq!("standalone-ts-4.0".parse::<GenerateMode>().unwrap(), GenerateMode::StandaloneTS4_0);
    assert!("ts-6".parse::<GenerateMode>().is_err());
}

#[test]
fn cli_output_collects_reports() {
    let mut output = CliOutput::new();
    assert!(!output.has_run("check"));
    output.command_run("check".to_string());
    output.command_run("generate".to_string());
    assert!(output.has_run("check"));
    assert!(output.has_run("generate"));
    assert!(!output.has_run("gen"));
    output.check_error(InputFileKind::Operation, CheckErrorMessage::UnknownType { name: "A" }.with_pos(Pos::new(1, 2, 3)));
    output.extend(vec![
        (InputFileKind::Schema, CheckErrorMessage::UnknownType { name: "B" }.with_pos(Pos::new(0, 0, 0))),
        (InputFileKind::Operation, CheckErrorMessage::UnknownType { name: "C" }.with_pos(Pos::new(0, 0, 1))),
    ]);
    let names = |kind| {
        output
            .errors_of_kind(kind)
            .iter()
            .map(|e| format!("{:?}", e.message))
            .collect::<Vec<_>>()
    };
    assert_eq!(names(InputFileKind::Schema), vec!["UnknownType { name: \"B\" }"]);
    assert_eq!(
        names(InputFileKind::Operation),
        vec!["UnknownType { name: \"A\" }", "UnknownType { name: \"C\" }"]
    );
    assert_eq!(output.get_check_errors().len(), 3);
    output.generated_file(OutputFileKind::GraphqlSource, PathBuf::from("a.graphql.d.ts"));
    assert_eq!(output.get_generated_files().len(), 1);
    assert!(output.get_command_error().is_none());
    output.command_error(Some("check".to_string()), "first".to_string());
    output.command_error(None, "second".to_string());
    assert_eq!(output.get_command_error(), &Some((None, "second".to_string())));
}

#[test]
fn positions_point_into_stored_files() {
    let store = store_with_files();
    assert_eq!(file_of_position(Pos::new(3, 4, 2), &store).map(|f| f.1.as_str()), Some("query A"));
    assert!(file_of_position(Pos::builtin(), &store).is_none());
    assert!(file_of_position(Pos::new(0, 0, 9), &store).is_none());
}

#[test]
fn plugin_sources_are_stored_as_schema() {
    let mut store = FileStore::new();
    store.add_file(PathBuf::from("schema.graphql"), "type A".to_string(), FileKind::Schema);
    {
        let mut host = PluginHost::new(&mut store);
        assert_eq!(host.load_virtual_file("type P".to_string()), "type P");
    }
    let file = store.get_file(1).unwrap();
    assert_eq!(file.0, PathBuf::from("(plugin)"));
    assert_eq!(file.1, "type P");
    assert_eq!(file.2, FileKind::Schema);
    assert_eq!(store.schema_len(), 2);
}

#[test]
fn execute_config_errors_have_messages() {
    assert_eq!(ExecuteConfigError::FailedToExecuteConfigFile.message(), "Failed to execute config file");
    assert_eq!(ExecuteConfigError::FailedToReadResult.message(), "Failed to read result");
}

#[test]
fn config_files_are_searched_in_order() {
    let steps: Vec<String> = (0..14)
        .map(|i| match search_step(i) {
            SearchAction::ReadYaml(name) => format!("yaml {name}"),
            SearchAction::LoadJs(name) => format!("js {name}"),
            SearchAction::NotFound => "none".to_string(),
        })
        .collect();
    assert_eq!(
        steps,
        vec![
            "yaml graphql.config.json",
            "yaml graphql.config.yaml",
            "yaml graphql.config.yml",
            "js graphql.config.js",
            "js graphql.config.mjs",
            "js graphql.config.cjs",
            "yaml .graphqlrc",
            "yaml .graphqlrc.json",
            "yaml .graphqlrc.yaml",
            "yaml .graphqlrc.yml",
            "js .graphqlrc.js",
            "js .graphqlrc.mjs",
            "js .graphqlrc.cjs",
            "none",
        ]
    );
    assert!(matches!(search_step(100), SearchAction::NotFound));
}

#[test]
fn missing_config_files_are_recognized() {
    assert!(read_error_means_missing(true, "anything"));
    assert!(read_error_means_missing(false, "failed to find a pre-opened file descriptor through which x"));
    assert!(!read_error_means_missing(false, "permission denied"));
    assert!(starts_with("abc", "ab"));
    assert!(starts_with("abc", ""));
    assert!(!starts_with("ab", "abc"));
    assert!(!starts_with("abc", "b"));
}

#[test]
fn cli_errors_have_messages() {
    assert_eq!(CliError::NoCommandSpecified.message(), "No command specified");
    assert_eq!(CliError::UnknownCommand("foo".to_string()).message(), "Unknown command 'foo'");
    assert_eq!(CliError::InvalidCommand("x".to_string()).message(), "Invalid command: x");
    assert_eq!(CliError::NoSchemaSpecified.message(), "Schema file not specified");
    assert_eq!(CliError::IntrospectionOnce.message(), "Introspection JSON can only be specified once");
    assert_eq!(
        CliError::MixGraphQLAndIntrospection.message(),
        "Cannot mix GraphQL and Introspection JSON for schema"
    );
    assert_eq!(
        CliError::OptionRequired { option: "schemaOutput".to_string(), command: "generate".to_string() }.message(),
        "Option 'schemaOutput' is required for the 'generate' command. "
    );
    assert_eq!(CliError::CannotEmitRuntimeToDts.message(), "Cannot emit code including runtime to a .d.ts file.");
    assert_eq!(
        CliError::FailedToCalculateSourceMapFileName { path: PathBuf::from("a/b.ts") }.message(),
        "Failed to calculate source map file name for 'a/b.ts'."
    );
    assert_eq!(CliError::GlobError("bad glob".to_string()).message(), "bad glob");
    assert_eq!(CliError::CommandNotSuccessful("check".to_string()).message(), "Command not successful: check");
}

#[test]
fn node_versions_with_module_register_api() {
    assert!(supports_module_register_api(20, 6));
    assert!(supports_module_register_api(21, 0));
    assert!(supports_module_register_api(18, 19));
    assert!(!supports_module_register_api(20, 5));
    assert!(!supports_module_register_api(18, 18));
    assert!(!supports_module_register_api(19, 30));
    assert!(!supports_module_register_api(16, 20));
}

#[test]
fn default_export_loader_code() {
    assert_eq!(
        load_default_code("/a/graphql.config.ts"),
        "\nimport config from \"/a/graphql.config.ts\";\nimport { stdout } from \"process\";\nexport default config?.default ?? config;\n"
    );
}

#[test]
fn loaded_schemas_are_mapped_by_kind() {
    let gql: LoadedSchema<u32, &str> = LoadedSchema::GraphQL(5);
    let intro: LoadedSchema<u32, &str> = LoadedSchema::Introspection("schema");
    assert_eq!(gql.map_into(|g| format!("gql {g}"), |i| format!("intro {i}")), "gql 5");
    assert_eq!(intro.map_into(|g| format!("gql {g}"), |i| format!("intro {i}")), "intro schema");
}

fn found_name(present: Vec<bool>) -> String {
    match found_config(&present) {
        SearchAction::ReadYaml(name) => format!("yaml {name}"),
        SearchAction::LoadJs(name) => format!("js {name}"),
        SearchAction::NotFound => "none".to_string(),
    }
}

#[test]
fn first_present_config_file_is_found() {
    let mut present = vec![false; 13];
    assert_eq!(found_name(present.clone()), "none");
    present[6] = true;
    assert_eq!(found_name(present.clone()), "yaml .graphqlrc");
    present[11] = true;
    assert_eq!(found_name(present.clone()), "yaml .graphqlrc");
    present[3] = true;
    assert_eq!(found_name(present.clone()), "js graphql.config.js");
    assert_eq!(found_name(vec![]), "none");
    assert_eq!(found_name(vec![false, true]), "yaml graphql.config.yaml");
}

#[test]
fn node_version_fields() {
    assert_eq!(version_fields("v20.6.1"), Some(("20", "6")));
    assert_eq!(version_fields("18.19"), Some(("18", "19")));
    assert_eq!(version_fields("vv1.2"), Some(("v1", "2")));
    assert_eq!(version_fields("v21"), None);
    assert_eq!(version_fields("v22..3"), Some(("22", "")));
}

fn reported_output() -> CliOutput<'static> {
    let mut output = CliOutput::new();
    output.command_run("check".to_string());
    output.check_error(InputFileKind::Operation, CheckErrorMessage::UnknownType { name: "A" }.with_pos(Pos::new(1, 2, 2)));
    output.check_error(InputFileKind::Schema, CheckErrorMessage::UnknownType { name: "B" }.with_pos(Pos::builtin()));
    output
}

#[test]
fn json_report_lists_errors_and_files() {
    let store = store_with_files();
    let output = reported_output();
    assert_eq!(
        json_report(&output, &store),
        "{\"check\":{\"errors\":[{\"fileType\":\"operation\",\"file\":{\"path\":\"op1.graphql\",\"line\":1,\"column\":2},\"message\":\"UnknownType { name: \\\"A\\\" }\"},{\"fileType\":\"schema\",\"file\":null,\"message\":\"UnknownType { name: \\\"B\\\" }\"}]}}"
    );
    let mut output = CliOutput::new();
    output.command_error(None, "bad".to_string());
    output.command_run("generate".to_string());
    output.generated_file(OutputFileKind::GraphqlSource, PathBuf::from("a.ts"));
    assert_eq!(
        json_report(&output, &store),
        "{\"error\":{\"command\":null,\"message\":\"bad\"},\"generate\":{\"files\":[{\"fileType\":\"graphqlSource\",\"path\":\"a.ts\"}]}}"
    );
    assert_eq!(json_report(&CliOutput::new(), &store), "{}");
}

#[test]
fn rdjson_report_lists_diagnostics() {
    let store = store_with_files();
    let output = reported_output();
    assert!(places_are_countable(&output, &store));
    assert_eq!(
        rdjson_report(&output, &store),
        "{\"source\":{\"name\":\"nitrogql\",\"url\":\"https:\\/\\/nitrogql.vercel.app\\/\"},\"severity\":\"ERROR\",\"diagnostics\":[{\"message\":\"UnknownType { name: \\\"A\\\" }\",\"location\":{\"path\":\"op1.graphql\",\"range\":{\"start\":{\"line\":2,\"column\":3}}}},{\"message\":\"UnknownType { name: \\\"B\\\" }\",\"location\":{}}]}"
    );
}

#[test]
fn human_report_counts_errors_by_kind() {
    let store = store_with_files();
    let mut output = reported_output();
    output.check_error(InputFileKind::Operation, CheckErrorMessage::UnknownType { name: "C" }.with_pos(Pos::new(9, 0, 3)));
    output.command_error(Some("check".to_string()), "Command not successful: check".to_string());
    assert_eq!(
        human_report(&output, &store),
        "Found 1 error in schema:\n(builtin): UnknownType { name: \"B\" }\n\nFound 2 errors in operations:\nop1.graphql:2:3: UnknownType { name: \"A\" }\nop2.graphql:10:1: UnknownType { name: \"C\" }\n\nError in command 'check':\nCommand not successful: check\n"
    );
    assert_eq!(human_report(&CliOutput::new(), &store), "");
}
