//! Counting the fields that a selection set selects, through fragments.

use vstd::prelude::*;

use crate::ast::operation::ExecutableDefinition;
use crate::ast::selection_set::{FragmentSpread, Selection, SelectionSet};

use super::fragment_map::{
    extend_seen, find_fragment, fragment_measure, lemma_fragment_measure_decreases,
    spec_find_fragment,
};
use crate::checker::common::str_vec_contains;
use crate::checker::type_system_checker::check_directive_recursion::{
    lemma_strs_contain_set, str_views,
};

verus! {

/// The number of fields a selection set selects: a field counts one, an inline fragment
/// counts its selection set, and a spread counts the selection set of its fragment. A
/// spread of an unknown fragment, or of a fragment being counted already, counts nothing.
pub open spec fn field_count<'a>(
    frags: Seq<ExecutableDefinition<'a>>,
    seen: Set<Seq<char>>,
    ss: SelectionSet<'a>,
) -> nat
    decreases 2 * fragment_measure(frags, seen) + 1, ss, 2nat, 0nat,
{
    field_count_upto(frags, seen, ss, ss.selections@.len())
}

/// The number of fields that the first `n` selections of a selection set select.
pub open spec fn field_count_upto<'a>(
    frags: Seq<ExecutableDefinition<'a>>,
    seen: Set<Seq<char>>,
    ss: SelectionSet<'a>,
    n: nat,
) -> nat
    decreases 2 * fragment_measure(frags, seen) + 1, ss, 1nat, n,
{
    if n == 0 || n > ss.selections@.len() {
        0
    } else {
        proof {
            assert(decreases_to!(ss => ss.selections));
            assert(decreases_to!(ss.selections => ss.selections@));
            assert(decreases_to!(ss.selections@ => ss.selections@[n - 1]));
        }
        field_count_upto(frags, seen, ss, (n - 1) as nat) + selection_field_count(
            frags,
            seen,
            ss.selections@[n - 1],
        )
    }
}

/// The number of fields one selection selects.
pub open spec fn selection_field_count<'a>(
    frags: Seq<ExecutableDefinition<'a>>,
    seen: Set<Seq<char>>,
    sel: Selection<'a>,
) -> nat
    decreases 2 * fragment_measure(frags, seen) + 1, sel, 0nat, 0nat,
{
    match sel {
        Selection::Field(_) => 1,
        Selection::InlineFragment(i) => field_count(frags, seen, i.selection_set),
        Selection::FragmentSpread(s) => spread_field_count(frags, seen, s),
    }
}

/// The number of fields a fragment spread selects.
pub open spec fn spread_field_count<'a>(
    frags: Seq<ExecutableDefinition<'a>>,
    seen: Set<Seq<char>>,
    s: FragmentSpread<'a>,
) -> nat
    decreases 2 * fragment_measure(frags, seen), s, 0nat, 0nat,
{
    let name = s.fragment_name.name@;
    if seen.contains(name) {
        0
    } else {
        match spec_find_fragment(frags, name) {
            None => 0,
            Some(f) => {
                proof {
                    lemma_fragment_measure_decreases(frags, seen, name);
                }
                field_count(frags, seen.insert(name), f.selection_set)
            },
        }
    }
}

/// A count, with everything from two on counted as two.
pub open spec fn capped(n: nat) -> nat {
    if n >= 2 {
        2
    } else {
        n
    }
}

fn count_fields<'a>(
    fragments: &'a Vec<ExecutableDefinition<'a>>,
    seen: &[&'a str],
    selection_set: &'a SelectionSet<'a>,
) -> (r: usize)
    ensures
        r == capped(field_count(fragments@, str_views(seen@).to_set(), *selection_set)),
    decreases 2 * fragment_measure(fragments@, str_views(seen@).to_set()) + 1,
        *selection_set,
        2nat,
        0nat,
{
    let ghost s = str_views(seen@).to_set();
    let mut total: usize = 0;
    let mut i: usize = 0;
    while i < selection_set.selections.len()
        invariant
            i <= selection_set.selections@.len(),
            s == str_views(seen@).to_set(),
            total == capped(field_count_upto(fragments@, s, *selection_set, i as nat)),
        decreases selection_set.selections@.len() - i,
    {
        proof {
            assert(decreases_to!(*selection_set => selection_set.selections));
            assert(decreases_to!(selection_set.selections => selection_set.selections@));
            assert(decreases_to!(selection_set.selections@ => selection_set.selections@[i as int]));
        }
        let c = count_selection(fragments, seen, &selection_set.selections[i]);
        total = if total + c >= 2 {
            2
        } else {
            total + c
        };
        i += 1;
    }
    total
}

fn count_selection<'a>(
    fragments: &'a Vec<ExecutableDefinition<'a>>,
    seen: &[&'a str],
    selection: &'a Selection<'a>,
) -> (r: usize)
    ensures
        r == capped(selection_field_count(fragments@, str_views(seen@).to_set(), *selection)),
    decreases 2 * fragment_measure(fragments@, str_views(seen@).to_set()) + 1,
        *selection,
        0nat,
        0nat,
{
    match selection {
        Selection::Field(_) => 1,
        Selection::InlineFragment(inline) => count_fields(fragments, seen, &inline.selection_set),
        Selection::FragmentSpread(spread) => count_spread(fragments, seen, spread),
    }
}

fn count_spread<'a>(
    fragments: &'a Vec<ExecutableDefinition<'a>>,
    seen: &[&'a str],
    spread: &'a FragmentSpread<'a>,
) -> (r: usize)
    ensures
        r == capped(spread_field_count(fragments@, str_views(seen@).to_set(), *spread)),
    decreases 2 * fragment_measure(fragments@, str_views(seen@).to_set()),
        *spread,
        0nat,
        0nat,
{
    let name = spread.fragment_name.name;
    let found = str_vec_contains(seen, name);
    proof {
        lemma_strs_contain_set(seen@, name@);
    }
    if found {
        return 0;
    }
    match find_fragment(fragments, name) {
        None => 0,
        Some(fragment) => {
            let extended = extend_seen(seen, name);
            proof {
                lemma_fragment_measure_decreases(fragments@, str_views(seen@).to_set(), name@);
            }
            count_fields(fragments, extended.as_slice(), &fragment.selection_set)
        },
    }
}

/// Whether a selection set selects more than one field, counting through fragments.
pub fn selection_set_has_more_than_one_fields<'a>(
    fragments: &'a Vec<ExecutableDefinition<'a>>,
    selection_set: &'a SelectionSet<'a>,
) -> (r: bool)
    ensures
        r == (field_count(fragments@, Set::empty(), *selection_set) > 1),
{
    let seen: Vec<&'a str> = Vec::new();
    assert(str_views(seen@).to_set() =~= Set::empty());
    count_fields(fragments, seen.as_slice(), selection_set) > 1
}

} // verus!
