//! Recognizing schema files by their extension.

use vstd::prelude::*;

use crate::ast::base::str_eq;

verus! {

#[derive(Copy, Clone, Debug, PartialEq, Eq, Structural)]
pub enum SchemaFileKind {
    GraphQL,
    IntrospectionJson,
    SchemaJavaScript,
}

/// The extension of the last component of a path, as `std::path::Path::extension` finds it.
pub uninterp spec fn path_extension(path: Seq<char>) -> Option<Seq<char>>;

/// `std::path::Path::extension` of the path, as a string.
/// Trusted: the result is the extension that std finds, named by `path_extension`;
/// how std splits a file name is not restated here.
#[verifier::external_body]
fn extension_of(path: &str) -> (r: Option<String>)
    ensures
        match r {
            Some(e) => path_extension(path@) == Some(e@),
            None => path_extension(path@) is None,
        },
{
    std::path::Path::new(path).extension().and_then(|e| e.to_str()).map(|e| e.to_owned())
}

/// The kind of a schema file with a given extension: `.json` is an introspection result,
/// JavaScript and TypeScript extensions are scripts, and anything else is GraphQL.
pub open spec fn spec_kind_of_extension(ext: Option<Seq<char>>) -> SchemaFileKind {
    match ext {
        Some(e) => if e == "graphql"@ {
            SchemaFileKind::GraphQL
        } else if e == "json"@ {
            SchemaFileKind::IntrospectionJson
        } else if e == "js"@ || e == "mjs"@ || e == "cjs"@ || e == "ts"@ || e == "mts"@ || e
            == "cts"@ {
            SchemaFileKind::SchemaJavaScript
        } else {
            SchemaFileKind::GraphQL
        },
        None => SchemaFileKind::GraphQL,
    }
}

/// Classifies a schema file by its extension.
pub fn schema_kind_from_extension(ext: Option<&str>) -> (r: SchemaFileKind)
    ensures
        r == spec_kind_of_extension(crate::ast::base::opt_str_view(ext)),
{
    match ext {
        Some(e) => {
            if str_eq(e, "graphql") {
                SchemaFileKind::GraphQL
            } else if str_eq(e, "json") {
                SchemaFileKind::IntrospectionJson
            } else if str_eq(e, "js") || str_eq(e, "mjs") || str_eq(e, "cjs") || str_eq(e, "ts")
                || str_eq(e, "mts") || str_eq(e, "cts") {
                SchemaFileKind::SchemaJavaScript
            } else {
                SchemaFileKind::GraphQL
            }
        },
        None => SchemaFileKind::GraphQL,
    }
}

/// Classifies a schema file by the extension of its path.
pub fn schema_kind_by_path(path: &str) -> (r: SchemaFileKind)
    ensures
        r == spec_kind_of_extension(path_extension(path@)),
{
    let ext = extension_of(path);
    match ext {
        Some(e) => schema_kind_from_extension(Some(e.as_str())),
        None => schema_kind_from_extension(None),
    }
}

/// The JavaScript module that loads a schema from the script at `path` and prints it.
pub open spec fn spec_load_schema_js_code(path: Seq<char>) -> Seq<char> {
    "\nimport { loadSchemaJs } from \"@nitrogql/core\";\nimport { stdout } from \"process\";\n\nloadSchemaJs(\""@
        + path + "\").then((schema) => {\n    stdout.write(schema);\n});\n"@
}

/// Builds the JavaScript module that loads a schema from the script at `path`
/// and writes it to standard output.
pub fn load_schema_js_code(path: &str) -> (r: String)
    ensures
        r@ == spec_load_schema_js_code(path@),
{
    let mut code = String::new();
    code.append(
        "\nimport { loadSchemaJs } from \"@nitrogql/core\";\nimport { stdout } from \"process\";\n\nloadSchemaJs(\"",
    );
    code.append(path);
    code.append("\").then((schema) => {\n    stdout.write(schema);\n});\n");
    code
}

} // verus!
