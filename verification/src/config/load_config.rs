//! Where a configuration file is looked for, and in which order.

use vstd::prelude::*;

verus! {

/// How a configuration file is read.
#[derive(Copy, Clone, Debug, PartialEq, Eq, Structural)]
pub enum LoaderKind {
    /// Read as YAML (JSON is YAML too).
    Yaml,
    /// Run as a program whose default export is the configuration.
    Js,
}

/// The names of configuration files, in the order in which they are tried.
pub open spec fn spec_config_names() -> Seq<(Seq<char>, LoaderKind)> {
    seq![
        ("graphql.config.json"@, LoaderKind::Yaml),
        ("graphql.config.yaml"@, LoaderKind::Yaml),
        ("graphql.config.yml"@, LoaderKind::Yaml),
        ("graphql.config.js"@, LoaderKind::Js),
        ("graphql.config.mjs"@, LoaderKind::Js),
        ("graphql.config.cjs"@, LoaderKind::Js),
        (".graphqlrc"@, LoaderKind::Yaml),
        (".graphqlrc.json"@, LoaderKind::Yaml),
        (".graphqlrc.yaml"@, LoaderKind::Yaml),
        (".graphqlrc.yml"@, LoaderKind::Yaml),
        (".graphqlrc.js"@, LoaderKind::Js),
        (".graphqlrc.mjs"@, LoaderKind::Js),
        (".graphqlrc.cjs"@, LoaderKind::Js),
    ]
}

/// What the search for a configuration file does next.
#[derive(Copy, Clone, Debug)]
pub enum SearchAction {
    /// Read the named file as YAML; where it is missing, go on with the next name.
    ReadYaml(&'static str),
    /// Run the named file.
    LoadJs(&'static str),
    /// Every name was tried: there is no configuration file.
    NotFound,
}

/// The step of the search at the given place in the list of names.
pub fn search_step(index: usize) -> (r: SearchAction)
    ensures
        index >= spec_config_names().len() ==> r == SearchAction::NotFound,
        index < spec_config_names().len() ==> match r {
            SearchAction::ReadYaml(name) => spec_config_names()[index as int] == (
                name@,
                LoaderKind::Yaml,
            ),
            SearchAction::LoadJs(name) => spec_config_names()[index as int] == (
                name@,
                LoaderKind::Js,
            ),
            SearchAction::NotFound => false,
        },
{
    proof {
        reveal_strlit("graphql.config.json");
        reveal_strlit("graphql.config.yaml");
        reveal_strlit("graphql.config.yml");
        reveal_strlit("graphql.config.js");
        reveal_strlit("graphql.config.mjs");
        reveal_strlit("graphql.config.cjs");
        reveal_strlit(".graphqlrc");
        reveal_strlit(".graphqlrc.json");
        reveal_strlit(".graphqlrc.yaml");
        reveal_strlit(".graphqlrc.yml");
        reveal_strlit(".graphqlrc.js");
        reveal_strlit(".graphqlrc.mjs");
        reveal_strlit(".graphqlrc.cjs");
    }
    match index {
        0 => SearchAction::ReadYaml("graphql.config.json"),
        1 => SearchAction::ReadYaml("graphql.config.yaml"),
        2 => SearchAction::ReadYaml("graphql.config.yml"),
        3 => SearchAction::LoadJs("graphql.config.js"),
        4 => SearchAction::LoadJs("graphql.config.mjs"),
        5 => SearchAction::LoadJs("graphql.config.cjs"),
        6 => SearchAction::ReadYaml(".graphqlrc"),
        7 => SearchAction::ReadYaml(".graphqlrc.json"),
        8 => SearchAction::ReadYaml(".graphqlrc.yaml"),
        9 => SearchAction::ReadYaml(".graphqlrc.yml"),
        10 => SearchAction::LoadJs(".graphqlrc.js"),
        11 => SearchAction::LoadJs(".graphqlrc.mjs"),
        12 => SearchAction::LoadJs(".graphqlrc.cjs"),
        _ => SearchAction::NotFound,
    }
}

/// The step at the first of the first `n` names whose file is present, if any.
pub open spec fn first_present_upto(present: Seq<bool>, n: nat) -> Option<int>
    decreases n,
{
    if n == 0 {
        None
    } else {
        match first_present_upto(present, (n - 1) as nat) {
            Some(i) => Some(i),
            None => if (n - 1) < present.len() && present[n - 1] {
                Some((n - 1) as int)
            } else {
                None
            },
        }
    }
}

/// The configuration file that the search finds, given for each name, in order, whether
/// its file is present (names past the end of `present` count as absent): the first name
/// whose file is present, read or run as its kind says; `NotFound` where none is.
pub fn found_config(present: &Vec<bool>) -> (r: SearchAction)
    ensures
        match first_present_upto(present@, spec_config_names().len()) {
            None => r == SearchAction::NotFound,
            Some(i) => match r {
                SearchAction::ReadYaml(name) => spec_config_names()[i] == (name@, LoaderKind::Yaml),
                SearchAction::LoadJs(name) => spec_config_names()[i] == (name@, LoaderKind::Js),
                SearchAction::NotFound => false,
            },
        },
{
    let mut i: usize = 0;
    while i < 13
        invariant
            i <= 13,
            spec_config_names().len() == 13,
            first_present_upto(present@, i as nat) is None,
        decreases 13 - i,
    {
        if i < present.len() && present[i] {
            assert(first_present_upto(present@, (i + 1) as nat) == Some(i as int));
            proof {
                lemma_first_present_stays(present@, (i + 1) as nat, 13);
            }
            return search_step(i);
        }
        i += 1;
    }
    SearchAction::NotFound
}

proof fn lemma_first_present_stays(present: Seq<bool>, m: nat, n: nat)
    requires
        m <= n,
        first_present_upto(present, m) is Some,
    ensures
        first_present_upto(present, n) == first_present_upto(present, m),
    decreases n - m,
{
    if m < n {
        lemma_first_present_stays(present, m, (n - 1) as nat);
    }
}

/// Whether a text starts with a prefix.
pub open spec fn has_prefix(s: Seq<char>, prefix: Seq<char>) -> bool {
    s.len() >= prefix.len() && s.subrange(0, prefix.len() as int) == prefix
}

/// Whether the given text starts with the given prefix.
pub fn starts_with(s: &str, prefix: &str) -> (r: bool)
    ensures
        r == has_prefix(s@, prefix@),
{
    let n = s.unicode_len();
    let m = prefix.unicode_len();
    if n < m {
        return false;
    }
    let mut i: usize = 0;
    while i < m
        invariant
            i <= m <= n,
            n == s@.len(),
            m == prefix@.len(),
            forall|j: int| 0 <= j < i ==> s@[j] == prefix@[j],
        decreases m - i,
    {
        if s.get_char(i) != prefix.get_char(i) {
            assert(s@.subrange(0, m as int)[i as int] != prefix@[i as int]);
            return false;
        }
        i += 1;
    }
    assert(s@.subrange(0, m as int) =~= prefix@);
    true
}

/// The message with which a sandboxed file system reports a file it cannot reach.
pub open spec fn spec_unreachable_file_message() -> Seq<char> {
    "failed to find a pre-opened file descriptor through which"@
}

/// Whether a failed read means that the file is not there, so that the search goes on:
/// the error says "not found", or its message is that of a sandboxed file system that
/// cannot reach the file.
pub fn read_error_means_missing(not_found: bool, message: &str) -> (r: bool)
    ensures
        r == (not_found || has_prefix(message@, spec_unreachable_file_message())),
{
    not_found || starts_with(message, "failed to find a pre-opened file descriptor through which")
}

} // verus!
