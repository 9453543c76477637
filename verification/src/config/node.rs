//! What the tool asks of Node.js: which way to register the loader for TypeScript
//! configuration files, and the module that reads a configuration file's default export.

use vstd::prelude::*;
use vstd::string::{StrSliceExecFns, StringExecFns};

verus! {

/// Whether a Node.js version has the module register API: 20.6 and later, or 18.19 and
/// later within 18.
pub open spec fn spec_supports_module_register_api(major: u32, minor: u32) -> bool {
    (major > 20 || (major == 20 && minor >= 6)) || (major == 18 && minor >= 19)
}

/// Whether the Node.js version `major.minor` has the module register API.
pub fn supports_module_register_api(major: u32, minor: u32) -> (r: bool)
    ensures
        r == spec_supports_module_register_api(major, minor),
{
    (major > 20 || (major == 20 && minor >= 6)) || (major == 18 && minor >= 19)
}

/// The JavaScript module that imports the file at `path` and exports its default export
/// (or the module itself where it has none).
pub open spec fn spec_load_default_code(path: Seq<char>) -> Seq<char> {
    "\nimport config from \""@ + path
        + "\";\nimport { stdout } from \"process\";\nexport default config?.default ?? config;\n"@
}

/// Builds the JavaScript module that gives the default export of the file at `path`.
pub fn load_default_code(path: &str) -> (r: String)
    ensures
        r@ == spec_load_default_code(path@),
{
    let mut code = String::from_str("\nimport config from \"");
    code.append(path);
    code.append("\";\nimport { stdout } from \"process\";\nexport default config?.default ?? config;\n");
    code
}


/// The place of the first `.` at or after `from`, if any.
pub open spec fn first_dot_from(s: Seq<char>, from: int) -> Option<int>
    decreases s.len() - from,
{
    if from < 0 || from >= s.len() {
        None
    } else if s[from] == '.' {
        Some(from)
    } else {
        first_dot_from(s, from + 1)
    }
}

/// A version text without one leading `v`.
pub open spec fn without_v(v: Seq<char>) -> Seq<char> {
    if v.len() > 0 && v[0] == 'v' {
        v.drop_first()
    } else {
        v
    }
}

/// The first two `.`-separated fields of a version text such as `v20.6.1`, after one
/// leading `v` is taken off; none where there is no second field.
pub open spec fn spec_version_fields(v: Seq<char>) -> Option<(Seq<char>, Seq<char>)> {
    let s = without_v(v);
    match first_dot_from(s, 0) {
        None => None,
        Some(i) => {
            let j = match first_dot_from(s, i + 1) {
                Some(j) => j,
                None => s.len() as int,
            };
            Some((s.subrange(0, i), s.subrange(i + 1, j)))
        },
    }
}

/// The place of the first `.` at or after `from`.
fn find_dot(s: &str, from: usize) -> (r: Option<usize>)
    requires
        from <= s@.len(),
    ensures
        match r {
            Some(i) => first_dot_from(s@, from as int) == Some(i as int),
            None => first_dot_from(s@, from as int) is None,
        },
{
    let n = s.unicode_len();
    let mut k = from;
    while k < n
        invariant
            from <= k <= n,
            n == s@.len(),
            first_dot_from(s@, from as int) == first_dot_from(s@, k as int),
        decreases n - k,
    {
        if s.get_char(k) == '.' {
            return Some(k);
        }
        k += 1;
    }
    None
}

/// The first two fields of a Node.js version text, such as `20` and `6` of `v20.6.1`.
pub fn version_fields(version: &str) -> (r: Option<(&str, &str)>)
    ensures
        match spec_version_fields(version@) {
            None => r is None,
            Some((a, b)) => r matches Some((x, y)) && x@ == a && y@ == b,
        },
{
    let n = version.unicode_len();
    let s = if n > 0 && version.get_char(0) == 'v' {
        version.substring_char(1, n)
    } else {
        version.substring_char(0, n)
    };
    assert(s@ == without_v(version@)) by {
        if n > 0 && version@[0] == 'v' {
            assert(version@.subrange(1, n as int) =~= version@.drop_first());
        } else {
            assert(version@.subrange(0, n as int) =~= version@);
        }
    }
    let m = s.unicode_len();
    match find_dot(s, 0) {
        None => None,
        Some(i) => {
            proof {
                lemma_dot_after(s@, 0);
            }
            let j = match find_dot(s, i + 1) {
                Some(j) => {
                    proof {
                        lemma_dot_after(s@, (i + 1) as int);
                    }
                    j
                },
                None => m,
            };
            Some((s.substring_char(0, i), s.substring_char(i + 1, j)))
        },
    }
}

proof fn lemma_dot_after(s: Seq<char>, from: int)
    requires
        first_dot_from(s, from) is Some,
    ensures
        from <= first_dot_from(s, from)->0 < s.len(),
    decreases s.len() - from,
{
    if from >= 0 && from < s.len() && s[from] != '.' {
        lemma_dot_after(s, from + 1);
    }
}

} // verus!
