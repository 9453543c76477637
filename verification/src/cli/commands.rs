//! Decisions of a command line run: which commands to run, what configuration applies,
//! which schema documents to use, and how errors of commands are gathered.

use vstd::prelude::*;

use std::path::PathBuf;

use crate::ast::base::str_eq;
use crate::ast::type_system::{all_definitions, TypeSystemOrExtensionDocument};
use crate::config::config::Config;
use crate::runtime::ticket::opt_string_view;

use super::error::CliError;

verus! {

/// A command of the command line tool.
#[derive(Copy, Clone, Debug, PartialEq, Eq, Structural)]
pub enum Command {
    Check,
    Generate,
}

/// The command with a given name, if any.
pub open spec fn spec_command(name: Seq<char>) -> Option<Command> {
    if name == "check"@ {
        Some(Command::Check)
    } else if name == "generate"@ {
        Some(Command::Generate)
    } else {
        None
    }
}

/// The command with the given name; an unknown name is an error that holds it.
pub fn parse_command(command: &str) -> (r: Result<Command, CliError>)
    ensures
        match spec_command(command@) {
            Some(c) => r == Ok::<Command, CliError>(c),
            None => r matches Err(CliError::UnknownCommand(name)) && name@ == command@,
        },
{
    if str_eq(command, "check") {
        Ok(Command::Check)
    } else if str_eq(command, "generate") {
        Ok(Command::Generate)
    } else {
        Err(CliError::UnknownCommand(command.to_owned()))
    }
}

/// A run needs at least one command.
pub fn require_commands(commands: &Vec<String>) -> (r: Result<(), CliError>)
    ensures
        r is Ok <==> commands@.len() > 0,
        r matches Err(e) ==> e is NoCommandSpecified,
{
    if commands.len() == 0 {
        Err(CliError::NoCommandSpecified)
    } else {
        Ok(())
    }
}

/// A run needs at least one schema path.
pub fn require_schema(config: &Config) -> (r: Result<(), CliError>)
    ensures
        r is Ok <==> config.schema@.len() > 0,
        r matches Err(e) ==> e is NoSchemaSpecified,
{
    if config.schema.len() == 0 {
        Err(CliError::NoSchemaSpecified)
    } else {
        Ok(())
    }
}

/// The configuration with the paths given on the command line in place of those of the
/// configuration file: each list replaces the file's when it is not empty, and a schema
/// output path replaces the file's when given.
pub fn override_config(
    config: Config,
    schema: Vec<String>,
    operation: Vec<String>,
    schema_output: Option<PathBuf>,
) -> (r: Config)
    ensures
        r.schema@ == (if schema@.len() > 0 {
            schema@
        } else {
            config.schema@
        }),
        r.operations@ == (if operation@.len() > 0 {
            operation@
        } else {
            config.operations@
        }),
        r.generate.schema_output == (if schema_output is Some {
            schema_output
        } else {
            config.generate.schema_output
        }),
        r.plugins == config.plugins,
        r.generate.mode == config.generate.mode,
        r.generate.server_graphql_output == config.generate.server_graphql_output,
        r.generate.resolvers_output == config.generate.resolvers_output,
        r.generate.schema_module_specifier == config.generate.schema_module_specifier,
        r.generate.ty == config.generate.ty,
        r.generate.name == config.generate.name,
        r.generate.export == config.generate.export,
        r.generate.emit_schema_runtime == config.generate.emit_schema_runtime,
{
    let mut config = config;
    if schema.len() > 0 {
        config.schema = schema;
    }
    if operation.len() > 0 {
        config.operations = operation;
    }
    if let Some(path) = schema_output {
        config.generate.schema_output = Some(path);
    }
    config
}

/// Errors of a command, with the command's name where it is known.
pub struct CommandError<E> {
    pub inner: Vec<E>,
    pub command: Option<String>,
}

/// The errors of the first `n` command errors, in order.
pub open spec fn merged_errors_upto<E>(errors: Seq<CommandError<E>>, n: nat) -> Seq<E>
    decreases n,
{
    if n == 0 || n > errors.len() {
        Seq::empty()
    } else {
        merged_errors_upto(errors, (n - 1) as nat) + errors[n - 1].inner@
    }
}

/// The first command name among the first `n` command errors.
pub open spec fn first_command_upto<E>(errors: Seq<CommandError<E>>, n: nat) -> Option<Seq<char>>
    decreases n,
{
    if n == 0 || n > errors.len() {
        None
    } else {
        match first_command_upto(errors, (n - 1) as nat) {
            Some(c) => Some(c),
            None => opt_string_view(errors[n - 1].command),
        }
    }
}

impl<E> CommandError<E> {
    /// Errors of the named command.
    pub fn new(inner: Vec<E>, command: String) -> (r: Self)
        ensures
            r.inner@ == inner@,
            opt_string_view(r.command) == Some(command@),
    {
        CommandError { inner, command: Some(command) }
    }

    /// One error of no particular command.
    pub fn from_error(error: E) -> (r: Self)
        ensures
            r.inner@ == seq![error],
            r.command is None,
    {
        let mut inner = Vec::new();
        inner.push(error);
        assert(inner@ =~= seq![error]);
        CommandError { inner, command: None }
    }

    /// Gathers command errors: all their errors in order, and the first command name given.
    pub fn merge(errors: Vec<Self>) -> (r: Self)
        ensures
            r.inner@ == merged_errors_upto(errors@, errors@.len()),
            opt_string_view(r.command) == first_command_upto(errors@, errors@.len()),
    {
        let ghost all = errors@;
        let total: usize = errors.len();
        let mut rest = errors;
        let mut inner: Vec<E> = Vec::new();
        let mut command: Option<String> = None;
        let mut i: usize = 0;
        while rest.len() > 0
            invariant
                i <= all.len(),
                all.len() == total,
                rest@ == all.skip(i as int),
                inner@ == merged_errors_upto(all, i as nat),
                opt_string_view(command) == first_command_upto(all, i as nat),
            decreases rest@.len(),
        {
            let mut e = rest.remove(0);
            assert(e == all[i as int]);
            inner.append(&mut e.inner);
            if command.is_none() {
                command = e.command;
            }
            assert(all.skip(i as int).remove(0) =~= all.skip(i + 1));
            i += 1;
        }
        assert(all.skip(i as int).len() == 0);
        CommandError { inner, command }
    }
}

/// A schema that was loaded: GraphQL documents, or an introspection result.
pub enum LoadedSchema<Gql, Intro> {
    GraphQL(Gql),
    Introspection(Intro),
}

impl<Gql, Intro> LoadedSchema<Gql, Intro> {
    /// Applies `graphql` to GraphQL documents and `introspection` to an introspection
    /// result, and returns what the applied one returns.
    pub fn map_into<'a, F, G, R>(&'a self, graphql: F, introspection: G) -> (r: R) where
        F: FnOnce(&'a Gql) -> R,
        G: FnOnce(&'a Intro) -> R,

        requires
            match self {
                LoadedSchema::GraphQL(gql) => call_requires(graphql, (gql,)),
                LoadedSchema::Introspection(schema) => call_requires(introspection, (schema,)),
            },
        ensures
            match self {
                LoadedSchema::GraphQL(gql) => call_ensures(graphql, (gql,), r),
                LoadedSchema::Introspection(schema) => call_ensures(introspection, (schema,), r),
            },
    {
        match self {
            LoadedSchema::GraphQL(gql) => graphql(gql),
            LoadedSchema::Introspection(schema) => introspection(schema),
        }
    }
}

/// The number of introspection results among the first `n` loaded schemas.
pub open spec fn introspection_count<G, I>(docs: Seq<LoadedSchema<G, I>>, n: nat) -> nat
    decreases n,
{
    if n == 0 || n > docs.len() {
        0
    } else {
        introspection_count(docs, (n - 1) as nat) + if docs[n - 1] is Introspection {
            1nat
        } else {
            0nat
        }
    }
}

/// The GraphQL documents among the first `n` loaded schemas, in order.
pub open spec fn graphql_documents<G, I>(docs: Seq<LoadedSchema<G, I>>, n: nat) -> Seq<G>
    decreases n,
{
    if n == 0 || n > docs.len() {
        Seq::empty()
    } else {
        graphql_documents(docs, (n - 1) as nat) + match docs[n - 1] {
            LoadedSchema::GraphQL(g) => seq![g],
            LoadedSchema::Introspection(_) => Seq::empty(),
        }
    }
}

/// The introspection result among the first `n` loaded schemas, the last one if several.
pub open spec fn last_introspection<G, I>(docs: Seq<LoadedSchema<G, I>>, n: nat) -> Option<I>
    decreases n,
{
    if n == 0 || n > docs.len() {
        None
    } else {
        match docs[n - 1] {
            LoadedSchema::Introspection(i) => Some(i),
            LoadedSchema::GraphQL(_) => last_introspection(docs, (n - 1) as nat),
        }
    }
}

/// Resolves the loaded schemas into one: at most one introspection result, and not with
/// GraphQL documents; else the GraphQL documents merged in order.
pub fn resolve_loaded_schema<'a, I>(
    schema_docs: Vec<LoadedSchema<TypeSystemOrExtensionDocument<'a>, I>>,
) -> (r: Result<LoadedSchema<TypeSystemOrExtensionDocument<'a>, I>, CliError>)
    ensures
        ({
            let n = schema_docs@.len();
            let count = introspection_count(schema_docs@, n);
            let gql = graphql_documents(schema_docs@, n);
            &&& count >= 2 ==> (r matches Err(e) && e is IntrospectionOnce)
            &&& count == 1 && gql.len() > 0 ==> (r matches Err(e) && e is MixGraphQLAndIntrospection)
            &&& count == 1 && gql.len() == 0 ==> (r matches Ok(LoadedSchema::Introspection(i))
                && Some(i) == last_introspection(schema_docs@, n))
            &&& count == 0 ==> (r matches Ok(LoadedSchema::GraphQL(d)) && d.definitions@
                == all_definitions(gql))
        }),
{
    let ghost all = schema_docs@;
    let total: usize = schema_docs.len();
    let mut rest = schema_docs;
    let mut introspection: Option<I> = None;
    let mut documents: Vec<TypeSystemOrExtensionDocument<'a>> = Vec::new();
    let mut i: usize = 0;
    while rest.len() > 0
        invariant
            i <= all.len(),
            all.len() == total,
            all == schema_docs@,
            rest@ == all.skip(i as int),
            introspection_count(all, i as nat) <= 1,
            introspection is Some <==> introspection_count(all, i as nat) == 1,
            introspection == last_introspection(all, i as nat),
            documents@ == graphql_documents(all, i as nat),
        decreases rest@.len(),
    {
        let doc = rest.remove(0);
        assert(doc == all[i as int]);
        assert(all.skip(i as int).remove(0) =~= all.skip(i + 1));
        match doc {
            LoadedSchema::Introspection(d) => {
                if introspection.is_some() {
                    proof {
                        assert(introspection_count(all, (i + 1) as nat) == 2);
                        lemma_count_monotone(all, (i + 1) as nat, all.len());
                        assert(introspection_count(all, all.len()) >= 2);
                    }
                    return Err(CliError::IntrospectionOnce);
                }
                introspection = Some(d);
            },
            LoadedSchema::GraphQL(d) => {
                let ghost before = documents@;
                documents.push(d);
                assert(documents@ =~= before + seq![d]);
            },
        }
        i += 1;
    }
    assert(all.skip(i as int).len() == 0);
    match introspection {
        Some(d) => {
            if documents.len() > 0 {
                return Err(CliError::MixGraphQLAndIntrospection);
            }
            Ok(LoadedSchema::Introspection(d))
        },
        None => {
            let merged = TypeSystemOrExtensionDocument::merge(documents);
            Ok(LoadedSchema::GraphQL(merged))
        },
    }
}

proof fn lemma_count_monotone<G, I>(docs: Seq<LoadedSchema<G, I>>, m: nat, n: nat)
    requires
        m <= n <= docs.len(),
    ensures
        introspection_count(docs, m) <= introspection_count(docs, n),
    decreases n,
{
    if n > m {
        lemma_count_monotone(docs, m, (n - 1) as nat);
    }
}

} // verus!
