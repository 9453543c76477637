//! Looking up fragment definitions of an operation document by name.

use vstd::prelude::*;

use crate::ast::base::str_eq;
use crate::ast::operation::{ExecutableDefinition, FragmentDefinition};
use crate::checker::type_system_checker::check_directive_recursion::str_views;

verus! {

/// The first fragment definition with a given name.
pub open spec fn spec_find_fragment<'a>(defs: Seq<ExecutableDefinition<'a>>, name: Seq<char>) -> Option<
    FragmentDefinition<'a>,
>
    decreases defs.len(),
{
    if defs.len() == 0 {
        None
    } else {
        match defs[0] {
            ExecutableDefinition::FragmentDefinition(f) => if f.name.name@ == name {
                Some(f)
            } else {
                spec_find_fragment(defs.drop_first(), name)
            },
            _ => spec_find_fragment(defs.drop_first(), name),
        }
    }
}

/// Finds the first fragment definition with the given name.
pub fn find_fragment<'d, 'a>(defs: &'d Vec<ExecutableDefinition<'a>>, name: &str) -> (r: Option<
    &'d FragmentDefinition<'a>,
>)
    ensures
        match r {
            Some(f) => spec_find_fragment(defs@, name@) == Some(*f),
            None => spec_find_fragment(defs@, name@) is None,
        },
{
    let mut i: usize = 0;
    assert(defs@.skip(0) =~= defs@);
    while i < defs.len()
        invariant
            i <= defs@.len(),
            spec_find_fragment(defs@, name@) == spec_find_fragment(defs@.skip(i as int), name@),
        decreases defs@.len() - i,
    {
        assert(defs@.skip(i as int).drop_first() =~= defs@.skip(i + 1));
        assert(defs@.skip(i as int)[0] == defs@[i as int]);
        match &defs[i] {
            ExecutableDefinition::FragmentDefinition(f) => {
                if str_eq(f.name.name, name) {
                    return Some(f);
                }
            },
            _ => {},
        }
        i += 1;
    }
    None
}

/// The names of the fragments of a document (operations count as the empty name).
pub open spec fn fragment_names<'a>(defs: Seq<ExecutableDefinition<'a>>) -> Set<Seq<char>> {
    defs.map_values(
        |d: ExecutableDefinition<'a>|
            match d {
                ExecutableDefinition::FragmentDefinition(f) => f.name.name@,
                _ => Seq::<char>::empty(),
            },
    ).to_set()
}

/// How many fragment names are not yet among the names seen: this decreases each time a
/// spread enters a fragment.
pub open spec fn fragment_measure<'a>(defs: Seq<ExecutableDefinition<'a>>, seen: Set<Seq<char>>) -> nat {
    fragment_names(defs).difference(seen).len()
}

proof fn lemma_found_fragment_named<'a>(defs: Seq<ExecutableDefinition<'a>>, name: Seq<char>)
    requires
        spec_find_fragment(defs, name) is Some,
    ensures
        fragment_names(defs).contains(name),
    decreases defs.len(),
{
    let names = defs.map_values(
        |d: ExecutableDefinition<'a>|
            match d {
                ExecutableDefinition::FragmentDefinition(f) => f.name.name@,
                _ => Seq::<char>::empty(),
            },
    );
    match defs[0] {
        ExecutableDefinition::FragmentDefinition(f) => {
            if f.name.name@ == name {
                assert(names[0] == name);
            } else {
                lemma_found_fragment_named(defs.drop_first(), name);
                let rest = defs.drop_first().map_values(
                    |d: ExecutableDefinition<'a>|
                        match d {
                            ExecutableDefinition::FragmentDefinition(f) => f.name.name@,
                            _ => Seq::<char>::empty(),
                        },
                );
                let j = choose|j: int| 0 <= j < rest.len() && rest[j] == name;
                assert(names[j + 1] == rest[j]);
            }
        },
        _ => {
            lemma_found_fragment_named(defs.drop_first(), name);
            let rest = defs.drop_first().map_values(
                |d: ExecutableDefinition<'a>|
                    match d {
                        ExecutableDefinition::FragmentDefinition(f) => f.name.name@,
                        _ => Seq::<char>::empty(),
                    },
            );
            let j = choose|j: int| 0 <= j < rest.len() && rest[j] == name;
            assert(names[j + 1] == rest[j]);
        },
    }
}

/// Entering a defined fragment whose name was not seen makes the measure smaller.
pub proof fn lemma_fragment_measure_decreases<'a>(
    defs: Seq<ExecutableDefinition<'a>>,
    seen: Set<Seq<char>>,
    name: Seq<char>,
)
    requires
        spec_find_fragment(defs, name) is Some,
        !seen.contains(name),
    ensures
        fragment_measure(defs, seen.insert(name)) < fragment_measure(defs, seen),
{
    broadcast use vstd::seq_lib::seq_to_set_is_finite;
    broadcast use vstd::set::group_set_axioms;

    lemma_found_fragment_named(defs, name);
    let u = fragment_names(defs);
    assert(u.difference(seen.insert(name)) =~= u.difference(seen).remove(name));
    assert(u.difference(seen).contains(name));
}

/// The fragments seen so far with one more.
pub fn extend_seen<'a>(seen: &[&'a str], name: &'a str) -> (r: Vec<&'a str>)
    ensures
        str_views(r@).to_set() == str_views(seen@).to_set().insert(name@),
{
    let mut v: Vec<&'a str> = Vec::new();
    let mut i: usize = 0;
    while i < seen.len()
        invariant
            i <= seen@.len(),
            v@ == seen@.take(i as int),
        decreases seen@.len() - i,
    {
        v.push(seen[i]);
        assert(seen@.take(i + 1) =~= seen@.take(i as int).push(seen@[i as int]));
        i += 1;
    }
    assert(seen@.take(i as int) =~= seen@);
    let ghost before = v@;
    v.push(name);
    proof {
        assert(str_views(v@) =~= str_views(before).push(name@));
        str_views(before).lemma_push_to_set_commute(name@);
    }
    v
}

} // verus!
