//! Kinds of input and output files reported by the command line tool.

use vstd::prelude::*;

use std::path::PathBuf;

use crate::ast::base::Pos;
use crate::checker::error::CheckError;
use crate::cli::check::tagged_views;
use crate::cli::file_store::{FileKind, FileStore};

verus! {

/// Kind of input file.
#[derive(Debug, Copy, Clone, PartialEq, Eq, Structural)]
pub enum InputFileKind {
    Schema,
    Operation,
}

impl InputFileKind {
    /// The name of an input file kind as shown in reports.
    pub fn as_str(&self) -> (r: &'static str)
        ensures
            r@ == (match self {
                InputFileKind::Schema => "schema"@,
                InputFileKind::Operation => "operation"@,
            }),
    {
        match self {
            InputFileKind::Schema => "schema",
            InputFileKind::Operation => "operation",
        }
    }
}

/// Kind of output file.
#[derive(Debug, Copy, Clone, PartialEq, Eq, Structural)]
pub enum OutputFileKind {
    SchemaTypeDefinition,
    SchemaTypeDefinitionSourceMap,
    ResolversTypeDefinition,
    ResolversTypeDefinitionSourceMap,
    OperationTypeDefinition,
    OperationTypeDefinitionSourceMap,
    GraphqlSource,
    GraphqlSourceSourceMap,
}

impl OutputFileKind {
    /// Whether a kind is that of a source map.
    pub open spec fn is_source_map(self) -> bool {
        ||| self is SchemaTypeDefinitionSourceMap
        ||| self is ResolversTypeDefinitionSourceMap
        ||| self is OperationTypeDefinitionSourceMap
        ||| self is GraphqlSourceSourceMap
    }

    /// The source map kind that belongs to a kind.
    pub open spec fn spec_source_map_kind(self) -> OutputFileKind {
        match self {
            OutputFileKind::SchemaTypeDefinition
            | OutputFileKind::SchemaTypeDefinitionSourceMap => OutputFileKind::SchemaTypeDefinitionSourceMap,
            OutputFileKind::ResolversTypeDefinition
            | OutputFileKind::ResolversTypeDefinitionSourceMap => OutputFileKind::ResolversTypeDefinitionSourceMap,
            OutputFileKind::OperationTypeDefinition
            | OutputFileKind::OperationTypeDefinitionSourceMap => OutputFileKind::OperationTypeDefinitionSourceMap,
            OutputFileKind::GraphqlSource
            | OutputFileKind::GraphqlSourceSourceMap => OutputFileKind::GraphqlSourceSourceMap,
        }
    }

    /// Convert self to corresponding source map kind.
    /// If self is already a source map kind, return self.
    pub fn to_source_map_kind(self) -> (r: Self)
        ensures
            r == self.spec_source_map_kind(),
            r.is_source_map(),
            self.is_source_map() ==> r == self,
    {
        match self {
            OutputFileKind::SchemaTypeDefinition => OutputFileKind::SchemaTypeDefinitionSourceMap,
            OutputFileKind::SchemaTypeDefinitionSourceMap => {
                OutputFileKind::SchemaTypeDefinitionSourceMap
            },
            OutputFileKind::ResolversTypeDefinition => {
                OutputFileKind::ResolversTypeDefinitionSourceMap
            },
            OutputFileKind::ResolversTypeDefinitionSourceMap => {
                OutputFileKind::ResolversTypeDefinitionSourceMap
            },
            OutputFileKind::OperationTypeDefinition => {
                OutputFileKind::OperationTypeDefinitionSourceMap
            },
            OutputFileKind::OperationTypeDefinitionSourceMap => {
                OutputFileKind::OperationTypeDefinitionSourceMap
            },
            OutputFileKind::GraphqlSource => OutputFileKind::GraphqlSourceSourceMap,
            OutputFileKind::GraphqlSourceSourceMap => OutputFileKind::GraphqlSourceSourceMap,
        }
    }

    /// The name of an output file kind as shown in reports.
    pub open spec fn spec_str(self) -> Seq<char> {
        match self {
            OutputFileKind::SchemaTypeDefinition => "schemaTypeDefinition"@,
            OutputFileKind::SchemaTypeDefinitionSourceMap => "schemaTypeDefinitionSourceMap"@,
            OutputFileKind::ResolversTypeDefinition => "resolversTypeDefinition"@,
            OutputFileKind::ResolversTypeDefinitionSourceMap => "resolversTypeDefinitionSourceMap"@,
            OutputFileKind::OperationTypeDefinition => "operationTypeDefinition"@,
            OutputFileKind::OperationTypeDefinitionSourceMap => "operationTypeDefinitionSourceMap"@,
            OutputFileKind::GraphqlSource => "graphqlSource"@,
            OutputFileKind::GraphqlSourceSourceMap => "graphqlSourceSourceMap"@,
        }
    }

    /// Returns the name of this kind as shown in reports.
    pub fn as_str(&self) -> (r: &'static str)
        ensures
            r@ == self.spec_str(),
    {
        match self {
            OutputFileKind::SchemaTypeDefinition => "schemaTypeDefinition",
            OutputFileKind::SchemaTypeDefinitionSourceMap => "schemaTypeDefinitionSourceMap",
            OutputFileKind::ResolversTypeDefinition => "resolversTypeDefinition",
            OutputFileKind::ResolversTypeDefinitionSourceMap => "resolversTypeDefinitionSourceMap",
            OutputFileKind::OperationTypeDefinition => "operationTypeDefinition",
            OutputFileKind::OperationTypeDefinitionSourceMap => "operationTypeDefinitionSourceMap",
            OutputFileKind::GraphqlSource => "graphqlSource",
            OutputFileKind::GraphqlSourceSourceMap => "graphqlSourceSourceMap",
        }
    }
}

/// Converting to a source map kind twice is converting once.
pub proof fn law_source_map_kind_idempotent(k: OutputFileKind)
    ensures
        k.spec_source_map_kind().spec_source_map_kind() == k.spec_source_map_kind(),
{
}


/// What a run of the command line tool has to report.
pub struct CliOutput<'a> {
    commands_run: Vec<String>,
    command_error: Option<(Option<String>, String)>,
    check_errors: Vec<(InputFileKind, CheckError<'a>)>,
    generated_files: Vec<(OutputFileKind, PathBuf)>,
}

/// The contents of a report.
pub struct CliOutputView<'a> {
    pub commands_run: Seq<String>,
    pub command_error: Option<(Option<String>, String)>,
    pub check_errors: Seq<(InputFileKind, crate::checker::error::CheckErrorView<'a>)>,
    pub generated_files: Seq<(OutputFileKind, PathBuf)>,
}

impl<'a> View for CliOutput<'a> {
    type V = CliOutputView<'a>;

    closed spec fn view(&self) -> CliOutputView<'a> {
        CliOutputView {
            commands_run: self.commands_run@,
            command_error: self.command_error,
            check_errors: tagged_views(self.check_errors@),
            generated_files: self.generated_files@,
        }
    }
}

/// The diagnostics of one kind of input file, in order.
pub open spec fn errors_of_kind<'a>(
    errors: Seq<(InputFileKind, crate::checker::error::CheckErrorView<'a>)>,
    kind: InputFileKind,
) -> Seq<crate::checker::error::CheckErrorView<'a>>
    decreases errors.len(),
{
    if errors.len() == 0 {
        Seq::empty()
    } else {
        let rest = errors_of_kind(errors.drop_last(), kind);
        if errors.last().0 == kind {
            rest.push(errors.last().1)
        } else {
            rest
        }
    }
}

impl<'a> CliOutput<'a> {
    /// Create an empty set.
    pub fn new() -> (r: Self)
        ensures
            r@.commands_run.len() == 0,
            r@.command_error is None,
            r@.check_errors.len() == 0,
            r@.generated_files.len() == 0,
    {
        let r = Self {
            commands_run: Vec::new(),
            command_error: None,
            check_errors: Vec::new(),
            generated_files: Vec::new(),
        };
        assert(tagged_views(r.check_errors@) =~= Seq::empty());
        r
    }

    /// Indicates that a command is run.
    pub fn command_run(&mut self, command_name: String)
        ensures
            final(self)@.commands_run == old(self)@.commands_run.push(command_name),
            final(self)@.command_error == old(self)@.command_error,
            final(self)@.check_errors == old(self)@.check_errors,
            final(self)@.generated_files == old(self)@.generated_files,
    {
        self.commands_run.push(command_name);
    }

    /// Add a command error. A later one replaces an earlier one.
    pub fn command_error(&mut self, command_name: Option<String>, error: String)
        ensures
            final(self)@.command_error == Some((command_name, error)),
            final(self)@.commands_run == old(self)@.commands_run,
            final(self)@.check_errors == old(self)@.check_errors,
            final(self)@.generated_files == old(self)@.generated_files,
    {
        self.command_error = Some((command_name, error));
    }

    /// Add a check error.
    pub fn check_error(&mut self, kind: InputFileKind, error: CheckError<'a>)
        ensures
            final(self)@.check_errors == old(self)@.check_errors.push((kind, error@)),
            final(self)@.commands_run == old(self)@.commands_run,
            final(self)@.command_error == old(self)@.command_error,
            final(self)@.generated_files == old(self)@.generated_files,
    {
        let ghost prev = self.check_errors@;
        self.check_errors.push((kind, error));
        assert(tagged_views(self.check_errors@) =~= tagged_views(prev).push((kind, error@)));
    }

    /// Add check errors, in order.
    pub fn extend(&mut self, errors: Vec<(InputFileKind, CheckError<'a>)>)
        ensures
            final(self)@.check_errors == old(self)@.check_errors + tagged_views(errors@),
            final(self)@.commands_run == old(self)@.commands_run,
            final(self)@.command_error == old(self)@.command_error,
            final(self)@.generated_files == old(self)@.generated_files,
    {
        let ghost all = tagged_views(errors@);
        let total: usize = errors.len();
        let mut rest = errors;
        let mut taken: usize = 0;
        while rest.len() > 0
            invariant
                taken + rest@.len() == all.len(),
                all.len() == total,
                tagged_views(rest@) == all.subrange(taken as int, all.len() as int),
                self@.check_errors == old(self)@.check_errors + all.subrange(0, taken as int),
                self@.commands_run == old(self)@.commands_run,
                self@.command_error == old(self)@.command_error,
                self@.generated_files == old(self)@.generated_files,
            decreases rest@.len(),
        {
            let ghost before = rest@;
            let (kind, error) = rest.remove(0);
            assert(tagged_views(before)[0] == (before[0].0, before[0].1@));
            assert(tagged_views(rest@) =~= all.subrange(taken + 1, all.len() as int)) by {
                assert(rest@ =~= before.subrange(1, before.len() as int));
                assert forall|k: int| 0 <= k < rest@.len() implies tagged_views(rest@)[k]
                    == all[taken + 1 + k] by {
                    assert(tagged_views(before)[k + 1] == (before[k + 1].0, before[k + 1].1@));
                }
            }
            self.check_error(kind, error);
            assert(all.subrange(0, taken + 1) =~= all.subrange(0, taken as int).push(
                all[taken as int],
            ));
            taken = taken + 1;
        }
        assert(all.subrange(0, taken as int) =~= all);
    }

    /// Add a generated file.
    pub fn generated_file(&mut self, kind: OutputFileKind, path: PathBuf)
        ensures
            final(self)@.generated_files == old(self)@.generated_files.push((kind, path)),
            final(self)@.commands_run == old(self)@.commands_run,
            final(self)@.command_error == old(self)@.command_error,
            final(self)@.check_errors == old(self)@.check_errors,
    {
        self.generated_files.push((kind, path));
    }

    /// Whether a command of the given name has been run.
    pub fn has_run(&self, command_name: &str) -> (r: bool)
        ensures
            r <==> exists|i: int|
                0 <= i < self@.commands_run.len() && (#[trigger] self@.commands_run[i])@
                    == command_name@,
    {
        let mut i: usize = 0;
        while i < self.commands_run.len()
            invariant
                i <= self.commands_run@.len(),
                forall|j: int| 0 <= j < i ==> (#[trigger] self.commands_run@[j])@ != command_name@,
            decreases self.commands_run@.len() - i,
        {
            if crate::ast::base::str_eq(self.commands_run[i].as_str(), command_name) {
                assert(self@.commands_run[i as int] == self.commands_run@[i as int]);
                return true;
            }
            i = i + 1;
        }
        false
    }

    /// The command error, if any.
    pub fn get_command_error(&self) -> (r: &Option<(Option<String>, String)>)
        ensures
            *r == self@.command_error,
    {
        &self.command_error
    }

    /// The check errors, in order.
    pub fn get_check_errors(&self) -> (r: &Vec<(InputFileKind, CheckError<'a>)>)
        ensures
            tagged_views(r@) == self@.check_errors,
    {
        &self.check_errors
    }

    /// The generated files, in order.
    pub fn get_generated_files(&self) -> (r: &Vec<(OutputFileKind, PathBuf)>)
        ensures
            r@ == self@.generated_files,
    {
        &self.generated_files
    }

    /// The check errors about one kind of input file, in order.
    pub fn errors_of_kind(&self, kind: InputFileKind) -> (r: Vec<&CheckError<'a>>)
        ensures
            r@.len() == errors_of_kind(self@.check_errors, kind).len(),
            forall|i: int|
                0 <= i < r@.len() ==> (#[trigger] r@[i])@ == errors_of_kind(
                    self@.check_errors,
                    kind,
                )[i],
    {
        let ghost all = self@.check_errors;
        let mut r: Vec<&CheckError<'a>> = Vec::new();
        let mut i: usize = 0;
        while i < self.check_errors.len()
            invariant
                i <= self.check_errors@.len(),
                all == tagged_views(self.check_errors@),
                r@.len() == errors_of_kind(all.subrange(0, i as int), kind).len(),
                forall|j: int|
                    0 <= j < r@.len() ==> (#[trigger] r@[j])@ == errors_of_kind(
                        all.subrange(0, i as int),
                        kind,
                    )[j],
            decreases self.check_errors@.len() - i,
        {
            let ghost next = all.subrange(0, i + 1);
            assert(next.drop_last() =~= all.subrange(0, i as int));
            assert(next.last() == all[i as int]);
            assert(all[i as int] == (self.check_errors@[i as int].0, self.check_errors@[i as int].1@));
            if self.check_errors[i].0 == kind {
                r.push(&self.check_errors[i].1);
            }
            i = i + 1;
        }
        assert(all.subrange(0, i as int) =~= all);
        r
    }
}

/// The stored file that a position points into: none for built-in positions.
pub fn file_of_position<'s>(position: Pos, file_store: &'s FileStore) -> (r: Option<
    &'s (PathBuf, String, FileKind),
>)
    ensures
        position.builtin ==> r is None,
        !position.builtin ==> match r {
            Some(f) => file_store.spec_get(position.file as int) == Some(*f),
            None => file_store.spec_get(position.file as int) is None,
        },
{
    if position.builtin {
        None
    } else {
        file_store.get_file(position.file)
    }
}

} // verus!
