//! Decisions of the `generate` command: where outputs go and which source files their
//! source maps name.

use vstd::prelude::*;
use vstd::string::{StrSliceExecFns, StringExecFns};

use std::path::PathBuf;

use crate::config::config::{Config, GenerateMode};

use super::error::CliError;
use super::file_store::{FileKind, FileStore};

verus! {

/// The extension of the declaration file generated for an operation file, by mode.
pub open spec fn spec_declaration_extension(mode: GenerateMode) -> Seq<char> {
    match mode {
        GenerateMode::WithLoaderTS5_0 => "d.graphql.ts"@,
        GenerateMode::WithLoaderTS4_0 => "graphql.d.ts"@,
        GenerateMode::StandaloneTS4_0 => "graphql.ts"@,
    }
}

/// Returns the extension of the declaration file generated for an operation file.
pub fn declaration_extension(mode: GenerateMode) -> (r: &'static str)
    ensures
        r@ == spec_declaration_extension(mode),
{
    match mode {
        GenerateMode::WithLoaderTS5_0 => "d.graphql.ts",
        GenerateMode::WithLoaderTS4_0 => "graphql.d.ts",
        GenerateMode::StandaloneTS4_0 => "graphql.ts",
    }
}

/// Whether generated operation types also carry runtime values: only standalone output does.
pub fn prints_values(mode: GenerateMode) -> (r: bool)
    ensures
        r == (mode == GenerateMode::StandaloneTS4_0),
{
    match mode {
        GenerateMode::StandaloneTS4_0 => true,
        _ => false,
    }
}

/// The schema output path, which the `generate` command requires.
pub fn required_schema_output(config: &Config) -> (r: Result<&PathBuf, CliError>)
    ensures
        match config.generate.schema_output {
            Some(p) => r matches Ok(q) && *q == p,
            None => r matches Err(CliError::OptionRequired { option, command }) && option@
                == "schemaOutput"@ && command@ == "generate"@,
        },
{
    match &config.generate.schema_output {
        Some(p) => Ok(p),
        None => Err(
            CliError::OptionRequired {
                option: "schemaOutput".to_owned(),
                command: "generate".to_owned(),
            },
        ),
    }
}

/// Whether a text ends with a suffix.
pub open spec fn has_suffix(s: Seq<char>, suffix: Seq<char>) -> bool {
    s.len() >= suffix.len() && s.subrange(s.len() - suffix.len(), s.len() as int) == suffix
}

/// Whether the given text ends with the given suffix.
pub fn ends_with(s: &str, suffix: &str) -> (r: bool)
    ensures
        r == has_suffix(s@, suffix@),
{
    let n = s.unicode_len();
    let m = suffix.unicode_len();
    if n < m {
        return false;
    }
    let mut i: usize = 0;
    while i < m
        invariant
            i <= m <= n,
            n == s@.len(),
            m == suffix@.len(),
            forall|j: int| 0 <= j < i ==> s@[n - m + j] == suffix@[j],
        decreases m - i,
    {
        if s.get_char(n - m + i) != suffix.get_char(i) {
            assert(s@.subrange(n - m, n as int)[i as int] != suffix@[i as int]);
            return false;
        }
        i += 1;
    }
    assert(s@.subrange(n - m, n as int) =~= suffix@);
    true
}

/// The module name of a generated TypeScript file: the file name without `.d.ts`, or
/// else without `.ts`; other names stay as they are.
pub open spec fn spec_path_to_ts(file_name: Seq<char>) -> Seq<char> {
    if has_suffix(file_name, ".d.ts"@) {
        file_name.subrange(0, file_name.len() - 5)
    } else if has_suffix(file_name, ".ts"@) {
        file_name.subrange(0, file_name.len() - 3)
    } else {
        file_name
    }
}

/// Removes the `.d.ts` or `.ts` suffix of a file name.
pub fn strip_ts_suffix(file_name: &str) -> (r: String)
    ensures
        r@ == spec_path_to_ts(file_name@),
{
    proof {
        reveal_strlit(".d.ts");
        reveal_strlit(".ts");
    }
    let n = file_name.unicode_len();
    if ends_with(file_name, ".d.ts") {
        file_name.substring_char(0, n - 5).to_owned()
    } else if ends_with(file_name, ".ts") {
        file_name.substring_char(0, n - 3).to_owned()
    } else {
        file_name.to_owned()
    }
}

/// The last component of a path as text, as `Path::file_name` gives it: none where the
/// path has no file name or the name is not text.
pub uninterp spec fn file_name_text(path: PathBuf) -> Option<Seq<char>>;

/// The path that `PathBuf::set_file_name` makes of a path and a new file name.
pub uninterp spec fn with_file_name(path: PathBuf, name: Seq<char>) -> PathBuf;

/// `Path::file_name` of a path, then `OsStr::to_str`, as an owned string: the text named by
/// `file_name_text`.
#[verifier::external_body]
fn file_name_of(path: &PathBuf) -> (r: Option<String>)
    ensures
        match r {
            Some(n) => file_name_text(*path) == Some(n@),
            None => file_name_text(*path) is None,
        },
{
    path.file_name().and_then(|n| n.to_str()).map(|n| n.to_owned())
}

/// `PathBuf::set_file_name` on a path: the path named by `with_file_name`.
#[verifier::external_body]
fn replace_file_name(path: PathBuf, name: &str) -> (r: PathBuf)
    ensures
        r == with_file_name(path, name@),
{
    let mut path = path;
    path.set_file_name(name);
    path
}

/// The path of a generated TypeScript module as it is imported: the file name without
/// `.d.ts`, or else without `.ts`; a path whose file name has neither, or is not text, or
/// that has no file name, stays as it is.
pub fn path_to_ts(path: PathBuf) -> (r: PathBuf)
    ensures
        match file_name_text(path) {
            None => r == path,
            Some(n) => if spec_path_to_ts(n) == n {
                r == path
            } else {
                r == with_file_name(path, spec_path_to_ts(n))
            },
        },
{
    match file_name_of(&path) {
        None => path,
        Some(name) => {
            let stripped = strip_ts_suffix(name.as_str());
            if stripped.unicode_len() == name.unicode_len() {
                proof {
                    lemma_strip_shortens(name@);
                }
                path
            } else {
                replace_file_name(path, stripped.as_str())
            }
        },
    }
}

proof fn lemma_strip_shortens(n: Seq<char>)
    ensures
        spec_path_to_ts(n).len() == n.len() ==> spec_path_to_ts(n) == n,
{
    reveal_strlit(".d.ts");
    reveal_strlit(".ts");
}

/// The name of the source map file of an output file: its name with `.map` added.
pub fn source_map_file_name(file_name: &str) -> (r: String)
    ensures
        r@ == file_name@ + ".map"@,
{
    let mut name = file_name.to_owned();
    name.append(".map");
    name
}

/// The value of the source map index table that marks a file as not mapped.
pub open spec fn unmapped() -> usize {
    usize::MAX
}

/// The source map index of each stored file for the schema output: schema files keep
/// their own index; other files are not mapped.
pub fn schema_file_indices(file_store: &FileStore) -> (r: Vec<usize>)
    ensures
        r@.len() == file_store@.len(),
        forall|i: int|
            0 <= i < r@.len() ==> #[trigger] r@[i] == (if file_store@[i].2 == FileKind::Schema {
                i as usize
            } else {
                unmapped()
            }),
{
    let files = file_store.iter();
    let mut r: Vec<usize> = Vec::new();
    let mut i: usize = 0;
    while i < files.len()
        invariant
            i <= files@.len() == file_store@.len(),
            forall|j: int| #![trigger files@[j]] 0 <= j < files@.len() ==> files@[j].0 == j && *files@[j].1 == file_store@[j],
            r@.len() == i,
            forall|j: int|
                0 <= j < i ==> #[trigger] r@[j] == (if file_store@[j].2 == FileKind::Schema {
                    j as usize
                } else {
                    unmapped()
                }),
        decreases files@.len() - i,
    {
        let (idx, file) = files[i];
        let mapped = match file.2 {
            FileKind::Schema => idx,
            FileKind::Operation => usize::MAX,
        };
        r.push(mapped);
        i += 1;
    }
    r
}

/// The source map index of each stored file for the output of one operation file: schema
/// files keep their own index, the operation file comes after them, and other files are
/// not mapped.
pub fn operation_file_indices(file_store: &FileStore, file_index: usize) -> (r: Vec<usize>)
    ensures
        r@.len() == file_store@.len(),
        forall|i: int|
            0 <= i < r@.len() ==> #[trigger] r@[i] == (if file_store@[i].2 == FileKind::Schema {
                i as usize
            } else if i == file_index {
                file_store.spec_schema_len() as usize
            } else {
                unmapped()
            }),
{
    let files = file_store.iter();
    let schema_len = file_store.schema_len();
    let mut r: Vec<usize> = Vec::new();
    let mut i: usize = 0;
    while i < files.len()
        invariant
            i <= files@.len() == file_store@.len(),
            schema_len == file_store.spec_schema_len(),
            forall|j: int| #![trigger files@[j]] 0 <= j < files@.len() ==> files@[j].0 == j && *files@[j].1 == file_store@[j],
            r@.len() == i,
            forall|j: int|
                0 <= j < i ==> #[trigger] r@[j] == (if file_store@[j].2 == FileKind::Schema {
                    j as usize
                } else if j == file_index {
                    file_store.spec_schema_len() as usize
                } else {
                    unmapped()
                }),
        decreases files@.len() - i,
    {
        let (idx, file) = files[i];
        let mapped = match file.2 {
            FileKind::Schema => idx,
            FileKind::Operation => if idx == file_index {
                schema_len
            } else {
                usize::MAX
            },
        };
        r.push(mapped);
        i += 1;
    }
    r
}

/// The paths of the first `n` stored files that an index table maps, in order.
pub open spec fn mapped_paths_upto(
    indices: Seq<usize>,
    files: Seq<(PathBuf, String, FileKind)>,
    n: nat,
) -> Seq<PathBuf>
    decreases n,
{
    if n == 0 || n > indices.len() || n > files.len() {
        Seq::empty()
    } else {
        mapped_paths_upto(indices, files, (n - 1) as nat) + if indices[n - 1] != unmapped() {
            seq![files[n - 1].0]
        } else {
            Seq::empty()
        }
    }
}

/// The paths of the source files that a source map names: the stored files that the index
/// table maps, in store order.
pub fn mapped_source_paths<'s>(file_indices: &Vec<usize>, file_store: &'s FileStore) -> (r: Vec<
    &'s PathBuf,
>)
    ensures
        r@.map_values(|p: &PathBuf| *p) == mapped_paths_upto(
            file_indices@,
            file_store@,
            if file_indices@.len() < file_store@.len() {
                file_indices@.len()
            } else {
                file_store@.len()
            },
        ),
{
    let files = file_store.iter();
    let n = if file_indices.len() < files.len() {
        file_indices.len()
    } else {
        files.len()
    };
    let mut r: Vec<&'s PathBuf> = Vec::new();
    assert(r@.map_values(|p: &PathBuf| *p) =~= Seq::<PathBuf>::empty());
    let mut i: usize = 0;
    while i < n
        invariant
            i <= n,
            n <= file_indices@.len(),
            n <= files@.len(),
            files@.len() == file_store@.len(),
            forall|j: int| #![trigger files@[j]] 0 <= j < files@.len() ==> files@[j].0 == j && *files@[j].1 == file_store@[j],
            r@.map_values(|p: &PathBuf| *p) == mapped_paths_upto(file_indices@, file_store@, i as nat),
        decreases n - i,
    {
        let ghost before = r@;
        if file_indices[i] != usize::MAX {
            let file = files[i].1;
            r.push(&file.0);
            assert(r@.map_values(|p: &PathBuf| *p) =~= before.map_values(|p: &PathBuf| *p).push(
                file_store@[i as int].0,
            ));
        }
        assert(r@.map_values(|p: &PathBuf| *p) =~= mapped_paths_upto(
            file_indices@,
            file_store@,
            (i + 1) as nat,
        ));
        i += 1;
    }
    r
}

} // verus!
