//! Checks of selection sets against the types they select from, following fragment spreads.

use vstd::prelude::*;

use crate::ast::base::{str_eq, HasPos, Pos};
use crate::ast::operation::ExecutableDefinition;
use crate::ast::selection_set::{Field, FragmentSpread, InlineFragment, Selection, SelectionSet};
use crate::ast::type_system::{InputValueDefinition, TypeDefinition, TypeSystemDefinition};
use crate::ast::variable::VariablesDefinition;

use super::fragment_conditions::{check_fragment_condition, spec_condition_errors};
use super::fragment_map::{
    extend_seen, find_fragment, fragment_measure, lemma_fragment_measure_decreases,
    spec_find_fragment,
};
use crate::checker::common::{
    argument_definitions, check_arguments, check_directives, defined_arguments,
    spec_argument_errors, spec_directive_errors, str_vec_contains, strs_contain,
};
use crate::checker::definitions::{find_type, spec_find_type};
use crate::checker::error::{
    err, err_if, err_info, one_info, push_error, push_error_if, views, CheckError,
    CheckErrorMessage, CheckErrorView, TypeKind,
};
use crate::checker::named::{find_named, first_named};
use crate::checker::type_system_checker::check_directive_recursion::{
    lemma_strs_contain_set, str_views,
};
use crate::checker::values::opt_deref;

verus! {

/// The kind of a type definition, as named in diagnostics.
pub open spec fn spec_kind_of_type_definition(t: TypeDefinition) -> TypeKind {
    match t {
        TypeDefinition::Scalar(_) => TypeKind::Scalar,
        TypeDefinition::Object(_) => TypeKind::Object,
        TypeDefinition::Interface(_) => TypeKind::Interface,
        TypeDefinition::Union(_) => TypeKind::Union,
        TypeDefinition::Enum(_) => TypeKind::Enum,
        TypeDefinition::InputObject(_) => TypeKind::InputObject,
    }
}

/// Returns the kind of a type definition.
pub fn kind_of_type_definition(definition: &TypeDefinition) -> (r: TypeKind)
    ensures
        r == spec_kind_of_type_definition(*definition),
{
    match definition {
        TypeDefinition::Scalar(_) => TypeKind::Scalar,
        TypeDefinition::Object(_) => TypeKind::Object,
        TypeDefinition::Interface(_) => TypeKind::Interface,
        TypeDefinition::Union(_) => TypeKind::Union,
        TypeDefinition::Enum(_) => TypeKind::Enum,
        TypeDefinition::InputObject(_) => TypeKind::InputObject,
    }
}

/// Output types, which have fields to select: objects, interfaces and unions. A union's
/// only field is `__typename`.
pub open spec fn has_direct_fields(t: TypeDefinition) -> bool {
    t is Object || t is Interface || t is Union
}

/// The fields declared by a type definition.
pub open spec fn declared_fields<'a>(t: TypeDefinition<'a>) -> Seq<
    crate::ast::type_system::FieldDefinition<'a>,
> {
    match t {
        TypeDefinition::Object(o) => o.fields@,
        TypeDefinition::Interface(i) => i.fields@,
        _ => Seq::empty(),
    }
}

/// The field that a selection of a given name picks on a type: the first declared field of
/// the name, or else, on an output type, the `__typename` meta field of type `String`
/// without arguments. Given as its argument definitions and the name of its type.
pub open spec fn spec_select_field<'a>(t: TypeDefinition<'a>, name: Seq<char>) -> Option<
    (Seq<InputValueDefinition<'a>>, Seq<char>),
> {
    let fields = declared_fields(t);
    match first_named(fields, name) {
        Some(j) => Some((defined_arguments(fields[j].arguments), fields[j].ty.spec_unwrapped().name.name@)),
        None => if has_direct_fields(t) && name == "__typename"@ {
            Some((Seq::empty(), "String"@))
        } else {
            None
        },
    }
}

/// Finds the field that a selection of the given name picks on a type.
pub fn select_field<'a>(t: &'a TypeDefinition<'a>, name: &str) -> (r: Option<
    (&'a [InputValueDefinition<'a>], &'a str),
>)
    ensures
        match r {
            Some(p) => spec_select_field(*t, name@) == Some((p.0@, p.1@)),
            None => spec_select_field(*t, name@) is None,
        },
{
    let fields: &'a [crate::ast::type_system::FieldDefinition<'a>] = match t {
        TypeDefinition::Object(o) => o.fields.as_slice(),
        TypeDefinition::Interface(i) => i.fields.as_slice(),
        _ => &[],
    };
    assert(fields@ == declared_fields(*t));
    match find_named(fields, name) {
        Some(j) => Some(
            (argument_definitions(&fields[j].arguments), fields[j].ty.unwrapped_type().name.name),
        ),
        None => {
            let output = match t {
                TypeDefinition::Object(_) | TypeDefinition::Interface(_) | TypeDefinition::Union(_) => true,
                _ => false,
            };
            if output && str_eq(name, "__typename") {
                let none: &'a [InputValueDefinition<'a>] = &[];
                assert(none@ =~= Seq::<InputValueDefinition<'a>>::empty());
                Some((none, "String"))
            } else {
                None
            }
        },
    }
}

/// Diagnostics of a selection set on a type, with the fragments `seen` on the way here.
pub open spec fn selection_set_errors<'a>(
    defs: Seq<TypeSystemDefinition<'a>>,
    frags: Seq<ExecutableDefinition<'a>>,
    vars: Option<VariablesDefinition<'a>>,
    seen: Set<Seq<char>>,
    root: TypeDefinition<'a>,
    ss: SelectionSet<'a>,
) -> Seq<CheckErrorView<'a>>
    decreases 2 * fragment_measure(frags, seen) + 1, ss, 2nat, 0nat,
{
    if has_direct_fields(root) {
        selections_upto(defs, frags, vars, seen, root, ss, ss.selections@.len())
    } else {
        seq![
            err_info(
                ss.position,
                CheckErrorMessage::SelectionOnInvalidType {
                    kind: spec_kind_of_type_definition(root),
                    name: root.spec_name().name,
                },
                seq![(root.spec_position(), CheckErrorMessage::DefinitionPos { name: root.spec_name().name })],
            ),
        ]
    }
}

/// Diagnostics of the first `n` selections of a selection set.
pub open spec fn selections_upto<'a>(
    defs: Seq<TypeSystemDefinition<'a>>,
    frags: Seq<ExecutableDefinition<'a>>,
    vars: Option<VariablesDefinition<'a>>,
    seen: Set<Seq<char>>,
    root: TypeDefinition<'a>,
    ss: SelectionSet<'a>,
    n: nat,
) -> Seq<CheckErrorView<'a>>
    decreases 2 * fragment_measure(frags, seen) + 1, ss, 1nat, n,
{
    if n == 0 || n > ss.selections@.len() {
        Seq::empty()
    } else {
        proof {
            assert(decreases_to!(ss => ss.selections));
            assert(decreases_to!(ss.selections => ss.selections@));
            assert(decreases_to!(ss.selections@ => ss.selections@[n - 1]));
        }
        selections_upto(defs, frags, vars, seen, root, ss, (n - 1) as nat) + selection_errors(
            defs,
            frags,
            vars,
            seen,
            root,
            ss.selections@[n - 1],
        )
    }
}

/// Diagnostics of one selection.
pub open spec fn selection_errors<'a>(
    defs: Seq<TypeSystemDefinition<'a>>,
    frags: Seq<ExecutableDefinition<'a>>,
    vars: Option<VariablesDefinition<'a>>,
    seen: Set<Seq<char>>,
    root: TypeDefinition<'a>,
    sel: Selection<'a>,
) -> Seq<CheckErrorView<'a>>
    decreases 2 * fragment_measure(frags, seen) + 1, sel, 0nat, 0nat,
{
    match sel {
        Selection::Field(f) => field_selection_errors(defs, frags, vars, seen, root, f),
        Selection::FragmentSpread(s) => fragment_spread_errors(defs, frags, vars, seen, root, s),
        Selection::InlineFragment(i) => inline_fragment_errors(defs, frags, vars, seen, root, i),
    }
}

/// Diagnostics of a field selection: the field must exist on the type; its directives and
/// arguments are checked; a field of an output type needs a selection set, which is
/// checked against that type.
pub open spec fn field_selection_errors<'a>(
    defs: Seq<TypeSystemDefinition<'a>>,
    frags: Seq<ExecutableDefinition<'a>>,
    vars: Option<VariablesDefinition<'a>>,
    seen: Set<Seq<char>>,
    root: TypeDefinition<'a>,
    f: Field<'a>,
) -> Seq<CheckErrorView<'a>>
    decreases 2 * fragment_measure(frags, seen) + 1, f, 0nat, 0nat,
{
    match spec_select_field(root, f.name.name@) {
        None => seq![
            err_info(
                f.name.position,
                CheckErrorMessage::FieldNotFound {
                    field_name: f.name.name,
                    owner_name: root.spec_name().name,
                },
                seq![(root.spec_position(), CheckErrorMessage::DefinitionPos { name: root.spec_name().name })],
            ),
        ],
        Some(target) => spec_directive_errors(defs, vars, f.directives@, "FIELD"@)
            + spec_argument_errors(
            defs,
            vars,
            f.name.position,
            f.name.name,
            "field",
            f.arguments,
            target.0,
        ) + match spec_find_type(defs, target.1) {
            None => seq![err(f.name.position, CheckErrorMessage::TypeSystemError)],
            Some(t) => match f.selection_set {
                Some(ss) => selection_set_errors(defs, frags, vars, seen, t, ss),
                None => err_if(
                    has_direct_fields(t),
                    err(f.name.position, CheckErrorMessage::MustSpecifySelectionSet { name: f.name.name }),
                ),
            },
        },
    }
}

/// Diagnostics of a fragment spread: a fragment may not be spread within itself, must be
/// defined, and its selection set is checked against its type condition.
pub open spec fn fragment_spread_errors<'a>(
    defs: Seq<TypeSystemDefinition<'a>>,
    frags: Seq<ExecutableDefinition<'a>>,
    vars: Option<VariablesDefinition<'a>>,
    seen: Set<Seq<char>>,
    root: TypeDefinition<'a>,
    s: FragmentSpread<'a>,
) -> Seq<CheckErrorView<'a>>
    decreases 2 * fragment_measure(frags, seen), s, 0nat, 0nat,
{
    let name = s.fragment_name.name@;
    if seen.contains(name) {
        seq![err(s.position, CheckErrorMessage::RecursingFragmentSpread { name: s.fragment_name.name })]
    } else {
        match spec_find_fragment(frags, name) {
            None => seq![
                err(
                    s.fragment_name.position,
                    CheckErrorMessage::UnknownFragment { name: s.fragment_name.name },
                ),
            ],
            Some(fragment) => match spec_find_type(defs, fragment.type_condition.name@) {
                None => Seq::empty(),
                Some(cond) => {
                    proof {
                        lemma_fragment_measure_decreases(frags, seen, name);
                    }
                    fragment_core_errors(
                        defs,
                        frags,
                        vars,
                        seen.insert(name),
                        root,
                        s.position,
                        cond,
                        fragment.selection_set,
                    )
                },
            },
        }
    }
}

/// Diagnostics of an inline fragment: without a type condition its selection set is
/// checked against the enclosing type, else against the condition, which must be defined.
pub open spec fn inline_fragment_errors<'a>(
    defs: Seq<TypeSystemDefinition<'a>>,
    frags: Seq<ExecutableDefinition<'a>>,
    vars: Option<VariablesDefinition<'a>>,
    seen: Set<Seq<char>>,
    root: TypeDefinition<'a>,
    i: InlineFragment<'a>,
) -> Seq<CheckErrorView<'a>>
    decreases 2 * fragment_measure(frags, seen) + 1, i, 0nat, 0nat,
{
    match i.type_condition {
        None => selection_set_errors(defs, frags, vars, seen, root, i.selection_set),
        Some(tc) => match spec_find_type(defs, tc.name@) {
            None => seq![err(tc.position, CheckErrorMessage::UnknownType { name: tc.name })],
            Some(cond) => fragment_core_errors(
                defs,
                frags,
                vars,
                seen,
                root,
                i.position,
                cond,
                i.selection_set,
            ),
        },
    }
}

/// Whether spreading a fragment in a scope is left to other checks: a scope that is not an
/// output type, or an interface spread in itself.
pub open spec fn spread_skipped(root: TypeDefinition, cond: TypeDefinition) -> bool {
    root is Scalar || root is Enum || root is InputObject || (root matches TypeDefinition::Interface(
        i1,
    ) && cond matches TypeDefinition::Interface(i2) && i1.name.name@ == i2.name.name@)
}

/// Diagnostics of a fragment with condition `cond` and selection set `ss`, spread at
/// `spread_pos` in the scope of type `root`.
pub open spec fn fragment_core_errors<'a>(
    defs: Seq<TypeSystemDefinition<'a>>,
    frags: Seq<ExecutableDefinition<'a>>,
    vars: Option<VariablesDefinition<'a>>,
    seen: Set<Seq<char>>,
    root: TypeDefinition<'a>,
    spread_pos: Pos,
    cond: TypeDefinition<'a>,
    ss: SelectionSet<'a>,
) -> Seq<CheckErrorView<'a>>
    decreases 2 * fragment_measure(frags, seen) + 1, ss, 3nat, 0nat,
{
    if spread_skipped(root, cond) {
        Seq::empty()
    } else {
        spec_condition_errors(defs, root, spread_pos, cond) + selection_set_errors(
            defs,
            frags,
            vars,
            seen,
            cond,
            ss,
        )
    }
}

/// Checks a selection set against the type it selects from.
pub fn check_selection_set<'a>(
    definitions: &'a Vec<TypeSystemDefinition<'a>>,
    fragments: &'a Vec<ExecutableDefinition<'a>>,
    seen_fragments: &[&'a str],
    variables: Option<&'a VariablesDefinition<'a>>,
    root_type: &'a TypeDefinition<'a>,
    selection_set: &'a SelectionSet<'a>,
    result: &mut Vec<CheckError<'a>>,
)
    ensures
        views(final(result)@) == views(old(result)@) + selection_set_errors(
            definitions@,
            fragments@,
            opt_deref(variables),
            str_views(seen_fragments@).to_set(),
            *root_type,
            *selection_set,
        ),
    decreases 2 * fragment_measure(fragments@, str_views(seen_fragments@).to_set()) + 1,
        *selection_set,
        2nat,
        0nat,
{
    let ghost r0 = views(result@);
    let ghost seen = str_views(seen_fragments@).to_set();
    let output = match root_type {
        TypeDefinition::Object(_) | TypeDefinition::Interface(_) | TypeDefinition::Union(_) => true,
        _ => false,
    };
    if !output {
        let root_name = root_type.name().name;
        let e = CheckErrorMessage::SelectionOnInvalidType {
            kind: kind_of_type_definition(root_type),
            name: root_name,
        }.with_pos(selection_set.position).with_additional_info(
            one_info(*HasPos::position(root_type), CheckErrorMessage::DefinitionPos { name: root_name }),
        );
        push_error(result, e);
        return ;
    }
    let mut i: usize = 0;
    while i < selection_set.selections.len()
        invariant
            i <= selection_set.selections@.len(),
            has_direct_fields(*root_type),
            seen == str_views(seen_fragments@).to_set(),
            views(result@) == r0 + selections_upto(
                definitions@,
                fragments@,
                opt_deref(variables),
                seen,
                *root_type,
                *selection_set,
                i as nat,
            ),
        decreases selection_set.selections@.len() - i,
    {
        proof {
            assert(decreases_to!(*selection_set => selection_set.selections));
            assert(decreases_to!(selection_set.selections => selection_set.selections@));
            assert(decreases_to!(selection_set.selections@ => selection_set.selections@[i as int]));
        }
        check_selection(
            definitions,
            fragments,
            seen_fragments,
            variables,
            root_type,
            &selection_set.selections[i],
            result,
        );
        i += 1;
    }
}

fn check_selection<'a>(
    definitions: &'a Vec<TypeSystemDefinition<'a>>,
    fragments: &'a Vec<ExecutableDefinition<'a>>,
    seen_fragments: &[&'a str],
    variables: Option<&'a VariablesDefinition<'a>>,
    root_type: &'a TypeDefinition<'a>,
    selection: &'a Selection<'a>,
    result: &mut Vec<CheckError<'a>>,
)
    ensures
        views(final(result)@) == views(old(result)@) + selection_errors(
            definitions@,
            fragments@,
            opt_deref(variables),
            str_views(seen_fragments@).to_set(),
            *root_type,
            *selection,
        ),
    decreases 2 * fragment_measure(fragments@, str_views(seen_fragments@).to_set()) + 1,
        *selection,
        0nat,
        0nat,
{
    match selection {
        Selection::Field(field_selection) => {
            check_selection_field(
                definitions,
                fragments,
                seen_fragments,
                variables,
                root_type,
                field_selection,
                result,
            );
        },
        Selection::FragmentSpread(fragment_spread) => {
            check_fragment_spread(
                definitions,
                fragments,
                seen_fragments,
                variables,
                root_type,
                fragment_spread,
                result,
            );
        },
        Selection::InlineFragment(inline_fragment) => {
            check_inline_fragment(
                definitions,
                fragments,
                seen_fragments,
                variables,
                root_type,
                inline_fragment,
                result,
            );
        },
    }
}

fn check_selection_field<'a>(
    definitions: &'a Vec<TypeSystemDefinition<'a>>,
    fragments: &'a Vec<ExecutableDefinition<'a>>,
    seen_fragments: &[&'a str],
    variables: Option<&'a VariablesDefinition<'a>>,
    root_type: &'a TypeDefinition<'a>,
    field_selection: &'a Field<'a>,
    result: &mut Vec<CheckError<'a>>,
)
    ensures
        views(final(result)@) == views(old(result)@) + field_selection_errors(
            definitions@,
            fragments@,
            opt_deref(variables),
            str_views(seen_fragments@).to_set(),
            *root_type,
            *field_selection,
        ),
    decreases 2 * fragment_measure(fragments@, str_views(seen_fragments@).to_set()) + 1,
        *field_selection,
        0nat,
        0nat,
{
    let ghost r0 = views(result@);
    let root_name = root_type.name().name;
    let target_field = match select_field(root_type, field_selection.name.name) {
        None => {
            let e = CheckErrorMessage::FieldNotFound {
                field_name: field_selection.name.name,
                owner_name: root_name,
            }.with_pos(field_selection.name.position).with_additional_info(
                one_info(
                    *HasPos::position(root_type),
                    CheckErrorMessage::DefinitionPos { name: root_name },
                ),
            );
            push_error(result, e);
            return ;
        },
        Some(t) => t,
    };
    check_directives(
        definitions,
        variables,
        field_selection.directives.as_slice(),
        "FIELD",
        result,
    );
    check_arguments(
        definitions,
        variables,
        field_selection.name.position,
        field_selection.name.name,
        "field",
        field_selection.arguments.as_ref(),
        target_field.0,
        result,
    );
    let ghost r1 = views(result@);
    match find_type(definitions, target_field.1) {
        None => {
            push_error(
                result,
                CheckErrorMessage::TypeSystemError.with_pos(field_selection.name.position),
            );
        },
        Some(target_field_type) => {
            match &field_selection.selection_set {
                Some(selection_set) => {
                    check_selection_set(
                        definitions,
                        fragments,
                        seen_fragments,
                        variables,
                        target_field_type,
                        selection_set,
                        result,
                    );
                },
                None => {
                    // No selection set
                    let output = match target_field_type {
                        TypeDefinition::Object(_)
                        | TypeDefinition::Interface(_)
                        | TypeDefinition::Union(_) => true,
                        _ => false,
                    };
                    push_error_if(
                        result,
                        output,
                        CheckErrorMessage::MustSpecifySelectionSet {
                            name: field_selection.name.name,
                        }.with_pos(field_selection.name.position),
                    );
                },
            }
        },
    }
    assert(views(result@) =~= r0 + field_selection_errors(
        definitions@,
        fragments@,
        opt_deref(variables),
        str_views(seen_fragments@).to_set(),
        *root_type,
        *field_selection,
    ));
}

fn check_fragment_spread<'a>(
    definitions: &'a Vec<TypeSystemDefinition<'a>>,
    fragments: &'a Vec<ExecutableDefinition<'a>>,
    seen_fragments: &[&'a str],
    variables: Option<&'a VariablesDefinition<'a>>,
    root_type: &'a TypeDefinition<'a>,
    fragment_spread: &'a FragmentSpread<'a>,
    result: &mut Vec<CheckError<'a>>,
)
    ensures
        views(final(result)@) == views(old(result)@) + fragment_spread_errors(
            definitions@,
            fragments@,
            opt_deref(variables),
            str_views(seen_fragments@).to_set(),
            *root_type,
            *fragment_spread,
        ),
    decreases 2 * fragment_measure(fragments@, str_views(seen_fragments@).to_set()),
        *fragment_spread,
        0nat,
        0nat,
{
    let ghost seen = str_views(seen_fragments@).to_set();
    let name = fragment_spread.fragment_name.name;
    let seen_before = str_vec_contains(seen_fragments, name);
    proof {
        lemma_strs_contain_set(seen_fragments@, name@);
    }
    if seen_before {
        push_error(
            result,
            CheckErrorMessage::RecursingFragmentSpread { name }.with_pos(fragment_spread.position),
        );
        return ;
    }
    let target = match find_fragment(fragments, name) {
        None => {
            push_error(
                result,
                CheckErrorMessage::UnknownFragment { name }.with_pos(
                    fragment_spread.fragment_name.position,
                ),
            );
            return ;
        },
        Some(t) => t,
    };
    let fragment_condition = match find_type(definitions, target.type_condition.name) {
        None => {
            // This should be checked elsewhere
            assert(views(result@) =~= views(old(result)@) + Seq::empty());
            return ;
        },
        Some(c) => c,
    };
    let extended = extend_seen(seen_fragments, name);
    proof {
        lemma_fragment_measure_decreases(fragments@, seen, name@);
    }
    check_fragment_spread_core(
        definitions,
        fragments,
        extended.as_slice(),
        variables,
        root_type,
        fragment_spread.position,
        fragment_condition,
        &target.selection_set,
        result,
    );
}

fn check_inline_fragment<'a>(
    definitions: &'a Vec<TypeSystemDefinition<'a>>,
    fragments: &'a Vec<ExecutableDefinition<'a>>,
    seen_fragments: &[&'a str],
    variables: Option<&'a VariablesDefinition<'a>>,
    root_type: &'a TypeDefinition<'a>,
    inline_fragment: &'a InlineFragment<'a>,
    result: &mut Vec<CheckError<'a>>,
)
    ensures
        views(final(result)@) == views(old(result)@) + inline_fragment_errors(
            definitions@,
            fragments@,
            opt_deref(variables),
            str_views(seen_fragments@).to_set(),
            *root_type,
            *inline_fragment,
        ),
    decreases 2 * fragment_measure(fragments@, str_views(seen_fragments@).to_set()) + 1,
        *inline_fragment,
        0nat,
        0nat,
{
    match &inline_fragment.type_condition {
        None => {
            check_selection_set(
                definitions,
                fragments,
                seen_fragments,
                variables,
                root_type,
                &inline_fragment.selection_set,
                result,
            );
        },
        Some(type_cond) => {
            match find_type(definitions, type_cond.name) {
                None => {
                    push_error(
                        result,
                        CheckErrorMessage::UnknownType { name: type_cond.name }.with_pos(
                            type_cond.position,
                        ),
                    );
                },
                Some(type_cond_definition) => {
                    check_fragment_spread_core(
                        definitions,
                        fragments,
                        seen_fragments,
                        variables,
                        root_type,
                        inline_fragment.position,
                        type_cond_definition,
                        &inline_fragment.selection_set,
                        result,
                    );
                },
            }
        },
    }
}

fn check_fragment_spread_core<'a>(
    definitions: &'a Vec<TypeSystemDefinition<'a>>,
    fragments: &'a Vec<ExecutableDefinition<'a>>,
    seen_fragments: &[&'a str],
    variables: Option<&'a VariablesDefinition<'a>>,
    root_type: &'a TypeDefinition<'a>,
    spread_pos: Pos,
    fragment_condition: &'a TypeDefinition<'a>,
    fragment_selection_set: &'a SelectionSet<'a>,
    result: &mut Vec<CheckError<'a>>,
)
    ensures
        views(final(result)@) == views(old(result)@) + fragment_core_errors(
            definitions@,
            fragments@,
            opt_deref(variables),
            str_views(seen_fragments@).to_set(),
            *root_type,
            spread_pos,
            *fragment_condition,
            *fragment_selection_set,
        ),
    decreases 2 * fragment_measure(fragments@, str_views(seen_fragments@).to_set()) + 1,
        *fragment_selection_set,
        3nat,
        0nat,
{
    let skipped = match (root_type, fragment_condition) {
        (TypeDefinition::Scalar(_), _) | (TypeDefinition::Enum(_), _) | (
            TypeDefinition::InputObject(_),
            _,
        ) => true,
        (TypeDefinition::Interface(i1), TypeDefinition::Interface(i2)) => str_eq(
            i1.name.name,
            i2.name.name,
        ),
        _ => false,
    };
    if skipped {
        assert(views(result@) =~= views(old(result)@) + Seq::empty());
        return ;
    }
    check_fragment_condition(definitions, root_type, spread_pos, fragment_condition, result);
    check_selection_set(
        definitions,
        fragments,
        seen_fragments,
        variables,
        fragment_condition,
        fragment_selection_set,
        result,
    );
}

} // verus!
