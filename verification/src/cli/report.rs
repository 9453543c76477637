//! The reports of a run, as text: JSON and rdjson.

use vstd::prelude::*;
use vstd::string::StringExecFns;

use std::path::PathBuf;

use crate::ast::base::Pos;
use crate::checker::error::{CheckError, CheckErrorMessage, CheckErrorView};
use crate::cli::check::tagged_views;
use crate::cli::error::{lossy_text, path_text};
use crate::cli::file_store::{FileKind, FileStore};
use crate::cli::json::{
    decimal, json_quoted, key, push_begin_array, push_begin_object, push_end_array,
    push_end_object, push_item_separator, push_json_string, push_null, push_object_key, push_u32,
    separator,
};
use crate::cli::output::{
    errors_of_kind, file_of_position, CliOutput, CliOutputView, InputFileKind, OutputFileKind,
};
use crate::cli::json::digit;

verus! {

/// The text that `{:?}` gives of a diagnostic message.
pub uninterp spec fn debug_text(message: CheckErrorMessage) -> Seq<char>;

/// `format!("{:?}", ..)` of a diagnostic message: the text named by `debug_text`.
#[verifier::external_body]
fn message_text(message: &CheckErrorMessage) -> (r: String)
    ensures
        r@ == debug_text(*message),
{
    format!("{:?}", message)
}

/// The text `null`.
pub open spec fn null() -> Seq<char> {
    seq!['n', 'u', 'l', 'l']
}

/// The name of an input file kind.
pub open spec fn input_kind_str(kind: InputFileKind) -> Seq<char> {
    match kind {
        InputFileKind::Schema => "schema"@,
        InputFileKind::Operation => "operation"@,
    }
}

/// Whether a command of the given name was run.
pub open spec fn ran(o: CliOutputView, name: Seq<char>) -> bool {
    exists|i: int| 0 <= i < o.commands_run.len() && (#[trigger] o.commands_run[i])@ == name
}

/// The stored file that a position points into: none for built-in positions.
pub open spec fn spec_file_of(position: Pos, fs: FileStore) -> Option<(PathBuf, String, FileKind)> {
    if position.builtin {
        None
    } else {
        fs.spec_get(position.file as int)
    }
}

/// The `error` entry of the JSON report, where a command failed.
pub open spec fn json_error_part(o: CliOutputView, first: bool) -> Seq<char> {
    match o.command_error {
        None => Seq::empty(),
        Some((command, message)) => key("error"@, first) + seq!['{'] + key("command"@, true)
            + match command {
            Some(c) => json_quoted(c@),
            None => null(),
        } + key("message"@, false) + json_quoted(message@) + seq!['}'],
    }
}

/// The place of a diagnostic in the JSON report: its file's path, line and column, or
/// `null` where it is in no stored file.
pub open spec fn json_file(fs: FileStore, position: Pos) -> Seq<char> {
    match spec_file_of(position, fs) {
        Some(f) => seq!['{'] + key("path"@, true) + json_quoted(lossy_text(f.0)) + key(
            "line"@,
            false,
        ) + decimal((position.line as u32) as nat) + key("column"@, false) + decimal(
            (position.column as u32) as nat,
        ) + seq!['}'],
        None => null(),
    }
}

/// One diagnostic of the JSON report.
pub open spec fn json_check_item<'a>(
    fs: FileStore,
    e: (InputFileKind, CheckErrorView<'a>),
    first: bool,
) -> Seq<char> {
    separator(first) + seq!['{'] + key("fileType"@, true) + json_quoted(input_kind_str(e.0)) + key(
        "file"@,
        false,
    ) + json_file(fs, e.1.position) + key("message"@, false) + json_quoted(
        debug_text(e.1.message),
    ) + seq!['}']
}

/// The first `n` diagnostics of the JSON report.
pub open spec fn json_check_items<'a>(
    fs: FileStore,
    es: Seq<(InputFileKind, CheckErrorView<'a>)>,
    n: nat,
) -> Seq<char>
    decreases n,
{
    if n == 0 || n > es.len() {
        Seq::empty()
    } else {
        json_check_items(fs, es, (n - 1) as nat) + json_check_item(fs, es[n - 1], n == 1)
    }
}

/// The `check` entry of the JSON report, where `check` was run.
pub open spec fn json_check_part(o: CliOutputView, fs: FileStore, first: bool) -> Seq<char> {
    if ran(o, "check"@) {
        key("check"@, first) + seq!['{'] + key("errors"@, true) + seq!['['] + json_check_items(
            fs,
            o.check_errors,
            o.check_errors.len(),
        ) + seq![']'] + seq!['}']
    } else {
        Seq::empty()
    }
}

/// One generated file of the JSON report.
pub open spec fn json_file_item(f: (OutputFileKind, PathBuf), first: bool) -> Seq<char> {
    separator(first) + seq!['{'] + key("fileType"@, true) + json_quoted(f.0.spec_str()) + key(
        "path"@,
        false,
    ) + json_quoted(lossy_text(f.1)) + seq!['}']
}

/// The first `n` generated files of the JSON report.
pub open spec fn json_file_items(fs: Seq<(OutputFileKind, PathBuf)>, n: nat) -> Seq<char>
    decreases n,
{
    if n == 0 || n > fs.len() {
        Seq::empty()
    } else {
        json_file_items(fs, (n - 1) as nat) + json_file_item(fs[n - 1], n == 1)
    }
}

/// The `generate` entry of the JSON report, where `generate` was run.
pub open spec fn json_generate_part(o: CliOutputView, first: bool) -> Seq<char> {
    if ran(o, "generate"@) {
        key("generate"@, first) + seq!['{'] + key("files"@, true) + seq!['['] + json_file_items(
            o.generated_files,
            o.generated_files.len(),
        ) + seq![']'] + seq!['}']
    } else {
        Seq::empty()
    }
}

/// The JSON report of a run: the failed command, if any; the diagnostics, where `check`
/// was run; the generated files, where `generate` was run.
pub open spec fn spec_json_report(o: CliOutputView, fs: FileStore) -> Seq<char> {
    seq!['{'] + json_error_part(o, true) + json_check_part(o, fs, o.command_error is None)
        + json_generate_part(o, o.command_error is None && !ran(o, "check"@)) + seq!['}']
}

fn push_error_part(buffer: &mut String, output: &CliOutput)
    ensures
        final(buffer)@ == old(buffer)@ + json_error_part(output@, true),
{
    match output.get_command_error() {
        None => {
            assert(buffer@ =~= old(buffer)@ + json_error_part(output@, true));
        },
        Some((command, message)) => {
            push_object_key(buffer, "error", true);
            push_begin_object(buffer);
            push_object_key(buffer, "command", true);
            let ghost b1 = buffer@;
            match command {
                Some(c) => push_json_string(buffer, c.as_str()),
                None => push_null(buffer),
            }
            push_object_key(buffer, "message", false);
            push_json_string(buffer, message.as_str());
            push_end_object(buffer, false);
            assert(buffer@ =~= old(buffer)@ + json_error_part(output@, true));
        },
    }
}

fn push_file(buffer: &mut String, file_store: &FileStore, position: Pos)
    ensures
        final(buffer)@ == old(buffer)@ + json_file(*file_store, position),
{
    match file_of_position(position, file_store) {
        Some(f) => {
            push_begin_object(buffer);
            push_object_key(buffer, "path", true);
            let path = path_text(&f.0);
            push_json_string(buffer, path.as_str());
            push_object_key(buffer, "line", false);
            push_u32(buffer, position.line as u32);
            push_object_key(buffer, "column", false);
            push_u32(buffer, position.column as u32);
            push_end_object(buffer, false);
            assert(buffer@ =~= old(buffer)@ + json_file(*file_store, position));
        },
        None => {
            push_null(buffer);
        },
    }
}

fn push_check_item<'a>(
    buffer: &mut String,
    file_store: &FileStore,
    kind: InputFileKind,
    error: &CheckError<'a>,
    first: bool,
)
    ensures
        final(buffer)@ == old(buffer)@ + json_check_item(*file_store, (kind, error@), first),
{
    push_item_separator(buffer, first);
    push_begin_object(buffer);
    push_object_key(buffer, "fileType", true);
    push_json_string(buffer, kind.as_str());
    push_object_key(buffer, "file", false);
    push_file(buffer, file_store, error.position);
    push_object_key(buffer, "message", false);
    let message = message_text(&error.message);
    push_json_string(buffer, message.as_str());
    push_end_object(buffer, false);
    assert(buffer@ =~= old(buffer)@ + json_check_item(*file_store, (kind, error@), first));
}

fn push_check_part(buffer: &mut String, output: &CliOutput, file_store: &FileStore, first: bool)
    ensures
        final(buffer)@ == old(buffer)@ + json_check_part(output@, *file_store, first),
{
    if !output.has_run("check") {
        assert(buffer@ =~= old(buffer)@ + json_check_part(output@, *file_store, first));
        return;
    }
    push_object_key(buffer, "check", first);
    push_begin_object(buffer);
    push_object_key(buffer, "errors", true);
    push_begin_array(buffer);
    let errors = output.get_check_errors();
    let ghost es = output@.check_errors;
    let ghost b0 = buffer@;
    let mut i: usize = 0;
    while i < errors.len()
        invariant
            i <= errors@.len(),
            tagged_views(errors@) == es,
            buffer@ == b0 + json_check_items(*file_store, es, i as nat),
        decreases errors@.len() - i,
    {
        let (kind, error) = &errors[i];
        assert(es[i as int] == (*kind, error@));
        push_check_item(buffer, file_store, *kind, error, i == 0);
        assert(buffer@ =~= b0 + json_check_items(*file_store, es, (i + 1) as nat));
        i += 1;
    }
    push_end_array(buffer, false);
    push_end_object(buffer, false);
    assert(buffer@ =~= old(buffer)@ + json_check_part(output@, *file_store, first));
}

fn push_generate_part(buffer: &mut String, output: &CliOutput, first: bool)
    ensures
        final(buffer)@ == old(buffer)@ + json_generate_part(output@, first),
{
    if !output.has_run("generate") {
        assert(buffer@ =~= old(buffer)@ + json_generate_part(output@, first));
        return;
    }
    push_object_key(buffer, "generate", first);
    push_begin_object(buffer);
    push_object_key(buffer, "files", true);
    push_begin_array(buffer);
    let files = output.get_generated_files();
    let ghost fs = output@.generated_files;
    let ghost b0 = buffer@;
    let mut i: usize = 0;
    while i < files.len()
        invariant
            i <= files@.len(),
            files@ == fs,
            buffer@ == b0 + json_file_items(fs, i as nat),
        decreases files@.len() - i,
    {
        let (kind, path) = &files[i];
        let ghost b1 = buffer@;
        push_item_separator(buffer, i == 0);
        push_begin_object(buffer);
        push_object_key(buffer, "fileType", true);
        push_json_string(buffer, kind.as_str());
        push_object_key(buffer, "path", false);
        let text = path_text(path);
        push_json_string(buffer, text.as_str());
        push_end_object(buffer, false);
        assert(buffer@ =~= b1 + json_file_item(fs[i as int], i == 0));
        assert(buffer@ =~= b0 + json_file_items(fs, (i + 1) as nat));
        i += 1;
    }
    push_end_array(buffer, false);
    push_end_object(buffer, false);
    assert(buffer@ =~= old(buffer)@ + json_generate_part(output@, first));
}

/// The report of a run in JSON.
pub fn json_report(output: &CliOutput, file_store: &FileStore) -> (r: String)
    ensures
        r@ == spec_json_report(output@, *file_store),
{
    let mut buffer = String::new();
    push_begin_object(&mut buffer);
    push_error_part(&mut buffer, output);
    let no_error = output.get_command_error().is_none();
    push_check_part(&mut buffer, output, file_store, no_error);
    let ran_check = output.has_run("check");
    push_generate_part(&mut buffer, output, no_error && !ran_check);
    push_end_object(&mut buffer, false);
    assert(buffer@ =~= spec_json_report(output@, *file_store));
    buffer
}


/// The place of a diagnostic in the rdjson report: its file's path and its start, counted
/// from one; nothing where it is in no stored file.
pub open spec fn rdjson_location(fs: FileStore, position: Pos) -> Seq<char> {
    match spec_file_of(position, fs) {
        Some(f) => key("path"@, true) + json_quoted(lossy_text(f.0)) + key("range"@, false)
            + seq!['{'] + key("start"@, true) + seq!['{'] + key("line"@, true) + decimal(
            ((position.line as u32) + 1) as nat,
        ) + key("column"@, false) + decimal(((position.column as u32) + 1) as nat) + seq!['}']
            + seq!['}'],
        None => Seq::empty(),
    }
}

/// One diagnostic of the rdjson report.
pub open spec fn rdjson_item<'a>(fs: FileStore, e: CheckErrorView<'a>, first: bool) -> Seq<char> {
    separator(first) + seq!['{'] + key("message"@, true) + json_quoted(debug_text(e.message))
        + key("location"@, false) + seq!['{'] + rdjson_location(fs, e.position) + seq!['}']
        + seq!['}']
}

/// The first `n` diagnostics of the rdjson report.
pub open spec fn rdjson_items<'a>(
    fs: FileStore,
    es: Seq<(InputFileKind, CheckErrorView<'a>)>,
    n: nat,
) -> Seq<char>
    decreases n,
{
    if n == 0 || n > es.len() {
        Seq::empty()
    } else {
        rdjson_items(fs, es, (n - 1) as nat) + rdjson_item(fs, es[n - 1].1, n == 1)
    }
}

/// The rdjson report of a run: the tool as the source, severity `ERROR`, and every
/// diagnostic with its place.
pub open spec fn spec_rdjson_report(o: CliOutputView, fs: FileStore) -> Seq<char> {
    seq!['{'] + key("source"@, true) + seq!['{'] + key("name"@, true) + json_quoted("nitrogql"@)
        + key("url"@, false) + json_quoted("https://nitrogql.vercel.app/"@) + seq!['}'] + key(
        "severity"@,
        false,
    ) + json_quoted("ERROR"@) + key("diagnostics"@, false) + seq!['['] + rdjson_items(
        fs,
        o.check_errors,
        o.check_errors.len(),
    ) + seq![']'] + seq!['}']
}

/// Whether the places of the diagnostics can be counted from one: a diagnostic in a stored
/// file has a line and a column below the largest `u32`.
pub open spec fn places_countable(o: CliOutputView, fs: FileStore) -> bool {
    forall|i: int|
        0 <= i < o.check_errors.len() && (spec_file_of(
            (#[trigger] o.check_errors[i]).1.position,
            fs,
        ) is Some) ==> (o.check_errors[i].1.position.line as u32) < u32::MAX
            && (o.check_errors[i].1.position.column as u32) < u32::MAX
}

fn push_rdjson_item<'a>(buffer: &mut String, file_store: &FileStore, error: &CheckError<'a>, first: bool)
    requires
        spec_file_of(error.position, *file_store) is Some ==> (error.position.line as u32)
            < u32::MAX && (error.position.column as u32) < u32::MAX,
    ensures
        final(buffer)@ == old(buffer)@ + rdjson_item(*file_store, error@, first),
{
    push_item_separator(buffer, first);
    push_begin_object(buffer);
    push_object_key(buffer, "message", true);
    let message = message_text(&error.message);
    push_json_string(buffer, message.as_str());
    push_object_key(buffer, "location", false);
    push_begin_object(buffer);
    let ghost b1 = buffer@;
    match file_of_position(error.position, file_store) {
        Some(f) => {
            push_object_key(buffer, "path", true);
            let path = path_text(&f.0);
            push_json_string(buffer, path.as_str());
            push_object_key(buffer, "range", false);
            push_begin_object(buffer);
            push_object_key(buffer, "start", true);
            push_begin_object(buffer);
            push_object_key(buffer, "line", true);
            push_u32(buffer, error.position.line as u32 + 1);
            push_object_key(buffer, "column", false);
            push_u32(buffer, error.position.column as u32 + 1);
            push_end_object(buffer, false);
            push_end_object(buffer, false);
        },
        None => {},
    }
    assert(buffer@ =~= b1 + rdjson_location(*file_store, error.position));
    push_end_object(buffer, false);
    push_end_object(buffer, false);
    assert(buffer@ =~= old(buffer)@ + rdjson_item(*file_store, error@, first));
}

/// The report of a run in rdjson, the format of reviewdog's diagnostics.
pub fn rdjson_report(output: &CliOutput, file_store: &FileStore) -> (r: String)
    requires
        places_countable(output@, *file_store),
    ensures
        r@ == spec_rdjson_report(output@, *file_store),
{
    let mut buffer = String::new();
    push_begin_object(&mut buffer);
    push_object_key(&mut buffer, "source", true);
    push_begin_object(&mut buffer);
    push_object_key(&mut buffer, "name", true);
    push_json_string(&mut buffer, "nitrogql");
    push_object_key(&mut buffer, "url", false);
    push_json_string(&mut buffer, "https://nitrogql.vercel.app/");
    push_end_object(&mut buffer, false);
    push_object_key(&mut buffer, "severity", false);
    push_json_string(&mut buffer, "ERROR");
    push_object_key(&mut buffer, "diagnostics", false);
    push_begin_array(&mut buffer);
    let errors = output.get_check_errors();
    let ghost es = output@.check_errors;
    let ghost b0 = buffer@;
    let mut i: usize = 0;
    while i < errors.len()
        invariant
            i <= errors@.len(),
            tagged_views(errors@) == es,
            places_countable(output@, *file_store),
            es == output@.check_errors,
            buffer@ == b0 + rdjson_items(*file_store, es, i as nat),
        decreases errors@.len() - i,
    {
        let (_, error) = &errors[i];
        assert(es[i as int].1 == error@);
        push_rdjson_item(&mut buffer, file_store, error, i == 0);
        assert(buffer@ =~= b0 + rdjson_items(*file_store, es, (i + 1) as nat));
        i += 1;
    }
    push_end_array(&mut buffer, false);
    push_end_object(&mut buffer, false);
    assert(buffer@ =~= spec_rdjson_report(output@, *file_store));
    buffer
}

/// Whether every diagnostic of a report can have its place counted from one.
pub fn places_are_countable(output: &CliOutput, file_store: &FileStore) -> (r: bool)
    ensures
        r == places_countable(output@, *file_store),
{
    let errors = output.get_check_errors();
    let ghost es = output@.check_errors;
    let mut i: usize = 0;
    while i < errors.len()
        invariant
            i <= errors@.len(),
            tagged_views(errors@) == es,
            es == output@.check_errors,
            forall|j: int|
                0 <= j < i && (spec_file_of((#[trigger] es[j]).1.position, *file_store) is Some)
                    ==> (es[j].1.position.line as u32) < u32::MAX && (es[j].1.position.column
                    as u32) < u32::MAX,
        decreases errors@.len() - i,
    {
        let (_, error) = &errors[i];
        assert(es[i as int].1 == error@);
        if file_of_position(error.position, file_store).is_some() {
            if error.position.line as u32 == u32::MAX || error.position.column as u32 == u32::MAX {
                return false;
            }
        }
        i += 1;
    }
    true
}


/// The text of a digit.
fn digit_text(d: u128) -> (r: &'static str)
    requires
        d < 10,
    ensures
        r@ == seq![digit(d as nat)],
{
    proof {
        reveal_strlit("0");
        reveal_strlit("1");
        reveal_strlit("2");
        reveal_strlit("3");
        reveal_strlit("4");
        reveal_strlit("5");
        reveal_strlit("6");
        reveal_strlit("7");
        reveal_strlit("8");
        reveal_strlit("9");
    }
    match d {
        0 => "0",
        1 => "1",
        2 => "2",
        3 => "3",
        4 => "4",
        5 => "5",
        6 => "6",
        7 => "7",
        8 => "8",
        _ => "9",
    }
}

/// Appends a number in decimal.
fn push_decimal(buffer: &mut String, n: u128)
    ensures
        final(buffer)@ == old(buffer)@ + decimal(n as nat),
    decreases n,
{
    if n < 10 {
        buffer.append(digit_text(n));
        assert(buffer@ =~= old(buffer)@ + decimal(n as nat));
    } else {
        push_decimal(buffer, n / 10);
        buffer.append(digit_text(n % 10));
        assert(buffer@ =~= old(buffer)@ + decimal(n as nat));
    }
}

/// Where a diagnostic is, for people: its file's path, line and column counted from one, or
/// `(builtin)` where it is in no stored file.
pub open spec fn human_place(fs: FileStore, position: Pos) -> Seq<char> {
    match spec_file_of(position, fs) {
        Some(f) => lossy_text(f.0) + ":"@ + decimal(position.line as nat + 1) + ":"@ + decimal(
            position.column as nat + 1,
        ),
        None => "(builtin)"@,
    }
}

/// The line of one diagnostic in the report for people.
pub open spec fn human_error_line<'a>(fs: FileStore, e: CheckErrorView<'a>) -> Seq<char> {
    human_place(fs, e.position) + ": "@ + debug_text(e.message) + "\n"@
}

/// The lines of the first `n` diagnostics.
pub open spec fn human_error_lines<'a>(fs: FileStore, es: Seq<CheckErrorView<'a>>, n: nat) -> Seq<
    char,
>
    decreases n,
{
    if n == 0 || n > es.len() {
        Seq::empty()
    } else {
        human_error_lines(fs, es, (n - 1) as nat) + human_error_line(fs, es[n - 1])
    }
}

/// The part of the report for people about one kind of file: a heading with the number of
/// errors, their lines and an empty line; nothing where there is no error.
pub open spec fn human_kind_part<'a>(fs: FileStore, es: Seq<CheckErrorView<'a>>, scope: Seq<char>) -> Seq<
    char,
> {
    if es.len() == 0 {
        Seq::empty()
    } else {
        "Found "@ + decimal(es.len()) + " error"@ + (if es.len() > 1 {
            "s"@
        } else {
            Seq::empty()
        }) + " in "@ + scope + ":\n"@ + human_error_lines(fs, es, es.len()) + "\n"@
    }
}

/// The report of a run for people: the errors in the schema, then in the operations, then
/// the failed command.
pub open spec fn spec_human_report(o: CliOutputView, fs: FileStore) -> Seq<char> {
    (if o.check_errors.len() > 0 {
        human_kind_part(fs, errors_of_kind(o.check_errors, InputFileKind::Schema), "schema"@)
            + human_kind_part(
            fs,
            errors_of_kind(o.check_errors, InputFileKind::Operation),
            "operations"@,
        )
    } else {
        Seq::empty()
    }) + match o.command_error {
        Some((Some(c), e)) => "Error in command '"@ + c@ + "':\n"@ + e@ + "\n"@,
        Some((None, e)) => "Error:\n"@ + e@ + "\n"@,
        None => Seq::empty(),
    }
}

fn push_human_error_line<'a>(buffer: &mut String, file_store: &FileStore, error: &CheckError<'a>)
    ensures
        final(buffer)@ == old(buffer)@ + human_error_line(*file_store, error@),
{
    match file_of_position(error.position, file_store) {
        Some(f) => {
            let path = path_text(&f.0);
            buffer.append(path.as_str());
            buffer.append(":");
            push_decimal(buffer, error.position.line as u128 + 1);
            buffer.append(":");
            push_decimal(buffer, error.position.column as u128 + 1);
        },
        None => {
            buffer.append("(builtin)");
        },
    }
    assert(buffer@ =~= old(buffer)@ + human_place(*file_store, error.position));
    buffer.append(": ");
    let message = message_text(&error.message);
    buffer.append(message.as_str());
    buffer.append("\n");
    assert(buffer@ =~= old(buffer)@ + human_error_line(*file_store, error@));
}

fn push_human_kind_part(buffer: &mut String, output: &CliOutput, file_store: &FileStore, kind: InputFileKind, scope: &str)
    ensures
        final(buffer)@ == old(buffer)@ + human_kind_part(
            *file_store,
            errors_of_kind(output@.check_errors, kind),
            scope@,
        ),
{
    let errors = output.errors_of_kind(kind);
    let ghost es = errors_of_kind(output@.check_errors, kind);
    if errors.len() == 0 {
        assert(buffer@ =~= old(buffer)@ + human_kind_part(*file_store, es, scope@));
        return;
    }
    buffer.append("Found ");
    push_decimal(buffer, errors.len() as u128);
    buffer.append(" error");
    if errors.len() > 1 {
        buffer.append("s");
    }
    buffer.append(" in ");
    buffer.append(scope);
    buffer.append(":\n");
    let ghost b0 = buffer@;
    let mut i: usize = 0;
    while i < errors.len()
        invariant
            i <= errors@.len(),
            errors@.len() == es.len(),
            forall|j: int| 0 <= j < errors@.len() ==> (#[trigger] errors@[j])@ == es[j],
            buffer@ == b0 + human_error_lines(*file_store, es, i as nat),
        decreases errors@.len() - i,
    {
        assert(errors@[i as int]@ == es[i as int]);
        push_human_error_line(buffer, file_store, errors[i]);
        assert(buffer@ =~= b0 + human_error_lines(*file_store, es, (i + 1) as nat));
        i += 1;
    }
    buffer.append("\n");
    assert(buffer@ =~= old(buffer)@ + human_kind_part(*file_store, es, scope@));
}

/// The report of a run for people.
pub fn human_report(output: &CliOutput, file_store: &FileStore) -> (r: String)
    ensures
        r@ == spec_human_report(output@, *file_store),
{
    let mut buffer = String::new();
    if output.get_check_errors().len() > 0 {
        push_human_kind_part(&mut buffer, output, file_store, InputFileKind::Schema, "schema");
        push_human_kind_part(&mut buffer, output, file_store, InputFileKind::Operation, "operations");
    }
    let ghost b0 = buffer@;
    match output.get_command_error() {
        Some((Some(c), e)) => {
            buffer.append("Error in command '");
            buffer.append(c.as_str());
            buffer.append("':\n");
            buffer.append(e.as_str());
            buffer.append("\n");
        },
        Some((None, e)) => {
            buffer.append("Error:\n");
            buffer.append(e.as_str());
            buffer.append("\n");
        },
        None => {},
    }
    assert(buffer@ =~= spec_human_report(output@, *file_store));
    buffer
}

} // verus!
