//! Checks of operation documents against a type system.

use vstd::prelude::*;

use crate::ast::base::{HasPos, Ident};
use crate::ast::operation::{
    ExecutableDefinition, FragmentDefinition, OperationDefinition, OperationDocument, OperationType,
};
use crate::ast::type_system::{SchemaDefinition, TypeDefinition, TypeSystemDefinition};
use crate::ast::variable::{VariableDefinition, VariablesDefinition};

use self::count_selection_set_fields::{field_count, selection_set_has_more_than_one_fields};
use self::selection::{check_selection_set, has_direct_fields, selection_set_errors};
use super::common::{check_directives, spec_directive_errors};
use super::definitions::{find_type, spec_find_type};
use super::error::{
    err, err_if, err_info, one_info, push_error, push_error_if, views, CheckError,
    CheckErrorMessage, CheckErrorView,
};
use super::named::{occurs_before, repeats_earlier};
use super::type_system_checker::check_directive_recursion::str_views;
use super::types::{inout_kind_of_type, spec_inout_kind};
use super::values::opt_deref;

pub mod context;
pub mod count_selection_set_fields;
pub mod fragment_conditions;
pub mod fragment_map;
pub mod selection;

verus! {

/// The first schema definition of a document.
pub open spec fn spec_find_schema<'a>(defs: Seq<TypeSystemDefinition<'a>>) -> Option<
    SchemaDefinition<'a>,
>
    decreases defs.len(),
{
    if defs.len() == 0 {
        None
    } else {
        match defs[0] {
            TypeSystemDefinition::SchemaDefinition(s) => Some(s),
            _ => spec_find_schema(defs.drop_first()),
        }
    }
}

/// Finds the first schema definition of a document.
pub fn find_schema<'d, 'a>(defs: &'d Vec<TypeSystemDefinition<'a>>) -> (r: Option<
    &'d SchemaDefinition<'a>,
>)
    ensures
        match r {
            Some(s) => spec_find_schema(defs@) == Some(*s),
            None => spec_find_schema(defs@) is None,
        },
{
    let mut i: usize = 0;
    assert(defs@.skip(0) =~= defs@);
    while i < defs.len()
        invariant
            i <= defs@.len(),
            spec_find_schema(defs@) == spec_find_schema(defs@.skip(i as int)),
        decreases defs@.len() - i,
    {
        assert(defs@.skip(i as int).drop_first() =~= defs@.skip(i + 1));
        assert(defs@.skip(i as int)[0] == defs@[i as int]);
        match &defs[i] {
            TypeSystemDefinition::SchemaDefinition(s) => {
                return Some(s);
            },
            _ => {},
        }
        i += 1;
    }
    None
}

/// The root type that a schema definition declares for an operation type: the first one.
pub open spec fn spec_root_type_of<'a>(roots: Seq<(OperationType, Ident<'a>)>, op: OperationType) -> Option<
    Ident<'a>,
>
    decreases roots.len(),
{
    if roots.len() == 0 {
        None
    } else if roots[0].0 == op {
        Some(roots[0].1)
    } else {
        spec_root_type_of(roots.drop_first(), op)
    }
}

/// Finds the root type that a schema definition declares for an operation type.
pub fn operation_type_from_root_types<'a>(schema: &'a SchemaDefinition<'a>, op: OperationType) -> (r:
    Option<&'a Ident<'a>>)
    ensures
        match r {
            Some(id) => spec_root_type_of(schema.definitions@, op) == Some(*id),
            None => spec_root_type_of(schema.definitions@, op) is None,
        },
{
    let roots = &schema.definitions;
    let mut i: usize = 0;
    assert(roots@.skip(0) =~= roots@);
    while i < roots.len()
        invariant
            i <= roots@.len(),
            roots == &schema.definitions,
            spec_root_type_of(roots@, op) == spec_root_type_of(roots@.skip(i as int), op),
        decreases roots@.len() - i,
    {
        assert(roots@.skip(i as int).drop_first() =~= roots@.skip(i + 1));
        assert(roots@.skip(i as int)[0] == roots@[i as int]);
        if roots[i].0 == op {
            return Some(&roots[i].1);
        }
        i += 1;
    }
    None
}

/// The root type name that an operation type has without a schema definition.
pub open spec fn spec_default_root_name(op: OperationType) -> &'static str {
    match op {
        OperationType::Query => "Query",
        OperationType::Mutation => "Mutation",
        OperationType::Subscription => "Subscription",
    }
}

/// Returns the root type name that an operation type has without a schema definition.
pub fn default_root_name(op: OperationType) -> (r: &'static str)
    ensures
        r == spec_default_root_name(op),
{
    match op {
        OperationType::Query => "Query",
        OperationType::Mutation => "Mutation",
        OperationType::Subscription => "Subscription",
    }
}

/// The directive location of an operation type.
pub open spec fn spec_operation_location(op: OperationType) -> Seq<char> {
    match op {
        OperationType::Query => "QUERY"@,
        OperationType::Mutation => "MUTATION"@,
        OperationType::Subscription => "SUBSCRIPTION"@,
    }
}

/// Diagnostics of the variable definition at index `k`: a repeated name, and a type that
/// is unknown or not an input type.
pub open spec fn variable_definition_errors<'a>(
    defs: Seq<TypeSystemDefinition<'a>>,
    vs: Seq<VariableDefinition<'a>>,
    k: int,
) -> Seq<CheckErrorView<'a>> {
    let v = vs[k];
    let named = v.ty.spec_unwrapped().name;
    err_if(
        repeats_earlier(vs, k),
        err(v.pos, CheckErrorMessage::DuplicatedVariableName { name: v.name.name }),
    ) + match spec_inout_kind(defs, named.name@) {
        None => seq![err(v.ty.spec_position(), CheckErrorMessage::UnknownType { name: named.name })],
        Some(t) => err_if(
            !t.spec_is_input(),
            err(v.ty.spec_position(), CheckErrorMessage::NoOutputType { name: named.name }),
        ),
    }
}

/// Diagnostics of the first `n` variable definitions.
pub open spec fn variable_definitions_upto<'a>(
    defs: Seq<TypeSystemDefinition<'a>>,
    vs: Seq<VariableDefinition<'a>>,
    n: nat,
) -> Seq<CheckErrorView<'a>>
    decreases n,
{
    if n == 0 {
        Seq::empty()
    } else {
        variable_definitions_upto(defs, vs, (n - 1) as nat) + variable_definition_errors(
            defs,
            vs,
            n - 1,
        )
    }
}

/// Diagnostics of the variable definitions of an operation.
pub open spec fn spec_variables_errors<'a>(
    defs: Seq<TypeSystemDefinition<'a>>,
    variables: VariablesDefinition<'a>,
) -> Seq<CheckErrorView<'a>> {
    variable_definitions_upto(defs, variables.definitions@, variables.definitions@.len())
}

/// Diagnostics of an operation whose root type is known: its directives, its variable
/// definitions, a subscription that selects more than one field, and its selection set.
pub open spec fn operation_body_errors<'a>(
    defs: Seq<TypeSystemDefinition<'a>>,
    frags: Seq<ExecutableDefinition<'a>>,
    op: OperationDefinition<'a>,
    root: TypeDefinition<'a>,
) -> Seq<CheckErrorView<'a>> {
    let vars = op.variables_definition;
    spec_directive_errors(defs, vars, op.directives@, spec_operation_location(op.operation_type))
        + (match vars {
        Some(v) => spec_variables_errors(defs, v),
        None => Seq::empty(),
    }) + err_if(
        op.operation_type == OperationType::Subscription && field_count(
            frags,
            Set::empty(),
            op.selection_set,
        ) > 1,
        err(op.position, CheckErrorMessage::SubscriptionMustHaveExactlyOneRootField),
    ) + selection_set_errors(defs, frags, vars, Set::empty(), root, op.selection_set)
}

/// Diagnostics of an operation. With a schema definition, the operation type must have a
/// root type there; without one, the root type is `Query`, `Mutation` or `Subscription`.
/// The root type must be defined.
pub open spec fn spec_operation_errors<'a>(
    defs: Seq<TypeSystemDefinition<'a>>,
    frags: Seq<ExecutableDefinition<'a>>,
    op: OperationDefinition<'a>,
) -> Seq<CheckErrorView<'a>> {
    let schema = spec_find_schema(defs);
    if schema matches Some(s) && spec_root_type_of(s.definitions@, op.operation_type) is None {
        seq![
            err_info(
                op.position,
                CheckErrorMessage::NoRootType { operation_type: op.operation_type },
                seq![(schema->0.position, CheckErrorMessage::RootTypesAreDefinedHere)],
            ),
        ]
    } else {
        let root_name: &'a str = match schema {
            Some(s) => spec_root_type_of(s.definitions@, op.operation_type)->0.name,
            None => spec_default_root_name(op.operation_type),
        };
        match spec_find_type(defs, root_name@) {
            None => seq![err(op.position, CheckErrorMessage::UnknownType { name: root_name })],
            Some(root) => operation_body_errors(defs, frags, op, root),
        }
    }
}

/// Diagnostics of a fragment definition: its type condition must be a defined output type.
pub open spec fn spec_fragment_definition_errors<'a>(
    defs: Seq<TypeSystemDefinition<'a>>,
    f: FragmentDefinition<'a>,
) -> Seq<CheckErrorView<'a>> {
    let tc = f.type_condition;
    match spec_find_type(defs, tc.name@) {
        None => seq![err(tc.position, CheckErrorMessage::UnknownType { name: tc.name })],
        Some(t) => err_if(
            !has_direct_fields(t),
            err_info(
                tc.position,
                CheckErrorMessage::InvalidFragmentTarget { name: tc.name },
                seq![(t.spec_position(), CheckErrorMessage::DefinitionPos { name: t.spec_name().name })],
            ),
        ),
    }
}

/// Whether an executable definition is an operation (`operation`) or a fragment with a
/// given name.
pub open spec fn definition_named(d: ExecutableDefinition, operation: bool, name: Seq<char>) -> bool {
    match d {
        ExecutableDefinition::OperationDefinition(o) => operation && (o.name matches Some(n)
            && n.name@ == name),
        ExecutableDefinition::FragmentDefinition(f) => !operation && f.name.name@ == name,
    }
}

/// Index of the first of the first `n` definitions that is an operation (`operation`) or a
/// fragment with a given name.
pub open spec fn first_definition_named<'a>(
    defs: Seq<ExecutableDefinition<'a>>,
    operation: bool,
    name: Seq<char>,
    n: nat,
) -> Option<int>
    decreases n,
{
    if n == 0 {
        None
    } else {
        match first_definition_named(defs, operation, name, (n - 1) as nat) {
            Some(j) => Some(j),
            None => if definition_named(defs[n - 1], operation, name) {
                Some(n - 1)
            } else {
                None
            },
        }
    }
}

/// The number of operations among the first `n` definitions.
pub open spec fn operation_count_upto<'a>(defs: Seq<ExecutableDefinition<'a>>, n: nat) -> nat
    decreases n,
{
    if n == 0 {
        0
    } else {
        operation_count_upto(defs, (n - 1) as nat) + if defs[n - 1] is OperationDefinition {
            1nat
        } else {
            0nat
        }
    }
}

/// Diagnostics of the definition at index `k` of an operation document. An unnamed
/// operation must be the only operation; a name may not repeat that of an earlier
/// operation (or fragment, for fragments).
pub open spec fn executable_definition_errors<'a>(
    defs: Seq<TypeSystemDefinition<'a>>,
    doc: Seq<ExecutableDefinition<'a>>,
    k: int,
) -> Seq<CheckErrorView<'a>> {
    match doc[k] {
        ExecutableDefinition::OperationDefinition(op) => (match op.name {
            None => err_if(
                operation_count_upto(doc, doc.len()) != 1,
                err(op.position, CheckErrorMessage::UnNamedOperationMustBeSingle),
            ),
            Some(name) => match first_definition_named(doc, true, name.name@, k as nat) {
                Some(j) => seq![
                    err_info(
                        name.position,
                        CheckErrorMessage::DuplicateOperationName { operation_type: op.operation_type },
                        seq![(doc[j].spec_position(), CheckErrorMessage::AnotherDefinitionPos { name: name.name })],
                    ),
                ],
                None => Seq::empty(),
            },
        }) + spec_operation_errors(defs, doc, op),
        ExecutableDefinition::FragmentDefinition(f) => (match first_definition_named(
            doc,
            false,
            f.name.name@,
            k as nat,
        ) {
            Some(j) => seq![
                err(f.name.position, CheckErrorMessage::DuplicateFragmentName { other_position: doc[j].spec_position() }),
            ],
            None => Seq::empty(),
        }) + spec_fragment_definition_errors(defs, f),
    }
}

/// Diagnostics of the first `n` definitions of an operation document.
pub open spec fn executable_definitions_upto<'a>(
    defs: Seq<TypeSystemDefinition<'a>>,
    doc: Seq<ExecutableDefinition<'a>>,
    n: nat,
) -> Seq<CheckErrorView<'a>>
    decreases n,
{
    if n == 0 {
        Seq::empty()
    } else {
        executable_definitions_upto(defs, doc, (n - 1) as nat) + executable_definition_errors(
            defs,
            doc,
            n - 1,
        )
    }
}

/// Diagnostics of an operation document against a type system, definition by definition.
pub open spec fn spec_operation_document_errors<'a>(
    defs: Seq<TypeSystemDefinition<'a>>,
    document: OperationDocument<'a>,
) -> Seq<CheckErrorView<'a>> {
    executable_definitions_upto(defs, document.definitions@, document.definitions@.len())
}

fn count_operations<'a>(defs: &Vec<ExecutableDefinition<'a>>) -> (r: usize)
    ensures
        r == operation_count_upto(defs@, defs@.len()),
{
    let mut count: usize = 0;
    let mut i: usize = 0;
    while i < defs.len()
        invariant
            i <= defs@.len(),
            count == operation_count_upto(defs@, i as nat),
            count <= i,
        decreases defs@.len() - i,
    {
        if let ExecutableDefinition::OperationDefinition(_) = &defs[i] {
            count += 1;
        }
        i += 1;
    }
    count
}

fn find_earlier_definition<'a>(
    defs: &'a Vec<ExecutableDefinition<'a>>,
    operation: bool,
    name: &str,
    n: usize,
) -> (r: Option<&'a ExecutableDefinition<'a>>)
    requires
        n <= defs@.len(),
    ensures
        match r {
            Some(d) => first_definition_named(defs@, operation, name@, n as nat) matches Some(j)
                && defs@[j] == *d,
            None => first_definition_named(defs@, operation, name@, n as nat) is None,
        },
{
    let mut i: usize = 0;
    while i < n
        invariant
            i <= n <= defs@.len(),
            first_definition_named(defs@, operation, name@, i as nat) is None,
        decreases n - i,
    {
        let found = match &defs[i] {
            ExecutableDefinition::OperationDefinition(o) => operation && match &o.name {
                Some(id) => crate::ast::base::str_eq(id.name, name),
                None => false,
            },
            ExecutableDefinition::FragmentDefinition(f) => !operation && crate::ast::base::str_eq(
                f.name.name,
                name,
            ),
        };
        if found {
            proof {
                lemma_first_definition_stable(defs@, operation, name@, (i + 1) as nat, n as nat);
            }
            return Some(&defs[i]);
        }
        i += 1;
    }
    None
}

proof fn lemma_first_definition_stable<'a>(
    defs: Seq<ExecutableDefinition<'a>>,
    operation: bool,
    name: Seq<char>,
    m: nat,
    n: nat,
)
    requires
        m <= n,
        first_definition_named(defs, operation, name, m) is Some,
    ensures
        first_definition_named(defs, operation, name, n) == first_definition_named(
            defs,
            operation,
            name,
            m,
        ),
    decreases n,
{
    if n > m {
        lemma_first_definition_stable(defs, operation, name, m, (n - 1) as nat);
    }
}

/// Checks an operation document against a type system.
pub fn check_operation_document<'a>(
    definitions: &'a Vec<TypeSystemDefinition<'a>>,
    document: &'a OperationDocument<'a>,
) -> (r: Vec<CheckError<'a>>)
    ensures
        views(r@) == spec_operation_document_errors(definitions@, *document),
{
    let mut result: Vec<CheckError<'a>> = Vec::new();
    assert(views(result@) =~= Seq::empty());
    let defs = &document.definitions;
    let operation_num = count_operations(defs);
    let mut idx: usize = 0;
    while idx < defs.len()
        invariant
            idx <= defs@.len(),
            defs == &document.definitions,
            operation_num == operation_count_upto(defs@, defs@.len()),
            views(result@) == executable_definitions_upto(definitions@, defs@, idx as nat),
        decreases defs@.len() - idx,
    {
        let ghost before = views(result@);
        match &defs[idx] {
            ExecutableDefinition::OperationDefinition(op) => {
                match &op.name {
                    None => {
                        // Unnamed operation must be the only operation in the document
                        push_error_if(
                            &mut result,
                            operation_num != 1,
                            CheckErrorMessage::UnNamedOperationMustBeSingle.with_pos(op.position),
                        );
                    },
                    Some(name) => {
                        // Find other one with same name
                        match find_earlier_definition(defs, true, name.name, idx) {
                            Some(other) => {
                                let e = CheckErrorMessage::DuplicateOperationName {
                                    operation_type: op.operation_type,
                                }.with_pos(name.position).with_additional_info(
                                    one_info(
                                        *other.position(),
                                        CheckErrorMessage::AnotherDefinitionPos { name: name.name },
                                    ),
                                );
                                push_error(&mut result, e);
                            },
                            None => {
                                assert(views(result@) =~= before + Seq::empty());
                            },
                        }
                    },
                }
                check_operation(definitions, defs, op, &mut result);
            },
            ExecutableDefinition::FragmentDefinition(def) => {
                // Find other one with same name
                match find_earlier_definition(defs, false, def.name.name, idx) {
                    Some(other) => {
                        push_error(
                            &mut result,
                            CheckErrorMessage::DuplicateFragmentName {
                                other_position: *other.position(),
                            }.with_pos(def.name.position),
                        );
                    },
                    None => {
                        assert(views(result@) =~= before + Seq::empty());
                    },
                }
                check_fragment_definition(definitions, def, &mut result);
            },
        }
        assert(views(result@) =~= executable_definitions_upto(
            definitions@,
            defs@,
            (idx + 1) as nat,
        ));
        idx += 1;
    }
    result
}

/// Checks an operation against a type system; `fragments` are the definitions of the
/// document, whose fragments its spreads refer to.
pub fn check_operation<'a>(
    definitions: &'a Vec<TypeSystemDefinition<'a>>,
    fragments: &'a Vec<ExecutableDefinition<'a>>,
    op: &'a OperationDefinition<'a>,
    result: &mut Vec<CheckError<'a>>,
)
    ensures
        views(final(result)@) == views(old(result)@) + spec_operation_errors(
            definitions@,
            fragments@,
            *op,
        ),
{
    let ghost r0 = views(result@);
    let schema = find_schema(definitions);
    let root_type_name: &'a str = match schema {
        Some(s) => match operation_type_from_root_types(s, op.operation_type) {
            None => {
                // An explicit schema definition must declare the root type of the operation.
                let e = CheckErrorMessage::NoRootType { operation_type: op.operation_type }.with_pos(
                    op.position,
                ).with_additional_info(
                    one_info(s.position, CheckErrorMessage::RootTypesAreDefinedHere),
                );
                push_error(result, e);
                return ;
            },
            Some(id) => id.name,
        },
        None => default_root_name(op.operation_type),
    };
    let root_type = match find_type(definitions, root_type_name) {
        None => {
            push_error(
                result,
                CheckErrorMessage::UnknownType { name: root_type_name }.with_pos(op.position),
            );
            return ;
        },
        Some(t) => t,
    };
    let location = match op.operation_type {
        OperationType::Query => "QUERY",
        OperationType::Mutation => "MUTATION",
        OperationType::Subscription => "SUBSCRIPTION",
    };
    let variables = op.variables_definition.as_ref();
    check_directives(definitions, variables, op.directives.as_slice(), location, result);
    match variables {
        Some(variables_definition) => {
            check_variables_definition(definitions, variables_definition, result);
        },
        None => {
            assert(views(result@) =~= views(result@) + Seq::empty());
        },
    }
    let subscription = match op.operation_type {
        OperationType::Subscription => true,
        _ => false,
    };
    let more_than_one = subscription && selection_set_has_more_than_one_fields(
        fragments,
        &op.selection_set,
    );
    push_error_if(
        result,
        more_than_one,
        CheckErrorMessage::SubscriptionMustHaveExactlyOneRootField.with_pos(op.position),
    );
    let seen_fragments: Vec<&'a str> = Vec::new();
    assert(str_views(seen_fragments@).to_set() =~= Set::empty());
    check_selection_set(
        definitions,
        fragments,
        seen_fragments.as_slice(),
        variables,
        root_type,
        &op.selection_set,
        result,
    );
    assert(views(result@) =~= r0 + spec_operation_errors(definitions@, fragments@, *op));
}

/// Checks a fragment definition against a type system.
pub fn check_fragment_definition<'a>(
    definitions: &'a Vec<TypeSystemDefinition<'a>>,
    op: &'a FragmentDefinition<'a>,
    result: &mut Vec<CheckError<'a>>,
)
    ensures
        views(final(result)@) == views(old(result)@) + spec_fragment_definition_errors(
            definitions@,
            *op,
        ),
{
    match find_type(definitions, op.type_condition.name) {
        None => {
            push_error(
                result,
                CheckErrorMessage::UnknownType { name: op.type_condition.name }.with_pos(
                    op.type_condition.position,
                ),
            );
        },
        Some(target) => {
            let output = match target {
                TypeDefinition::Object(_) | TypeDefinition::Interface(_) | TypeDefinition::Union(_) => true,
                _ => false,
            };
            if !output {
                let e = CheckErrorMessage::InvalidFragmentTarget {
                    name: op.type_condition.name,
                }.with_pos(op.type_condition.position).with_additional_info(
                    one_info(
                        *HasPos::position(target),
                        CheckErrorMessage::DefinitionPos { name: target.name().name },
                    ),
                );
                push_error(result, e);
            } else {
                assert(views(result@) =~= views(old(result)@) + Seq::empty());
            }
        },
    }
}

/// Checks the variable definitions of an operation.
pub fn check_variables_definition<'a>(
    definitions: &'a Vec<TypeSystemDefinition<'a>>,
    variables: &'a VariablesDefinition<'a>,
    result: &mut Vec<CheckError<'a>>,
)
    ensures
        views(final(result)@) == views(old(result)@) + spec_variables_errors(
            definitions@,
            *variables,
        ),
{
    let ghost r0 = views(result@);
    let vs = variables.definitions.as_slice();
    let mut i: usize = 0;
    while i < vs.len()
        invariant
            i <= vs@.len(),
            vs@ == variables.definitions@,
            views(result@) == r0 + variable_definitions_upto(definitions@, vs@, i as nat),
        decreases vs@.len() - i,
    {
        let v = &vs[i];
        let repeated = occurs_before(vs, i);
        push_error_if(
            result,
            repeated,
            CheckErrorMessage::DuplicatedVariableName { name: v.name.name }.with_pos(v.pos),
        );
        let named = v.ty.unwrapped_type();
        match inout_kind_of_type(definitions, named.name.name) {
            None => {
                push_error(
                    result,
                    CheckErrorMessage::UnknownType { name: named.name.name }.with_pos(
                        *v.ty.position(),
                    ),
                );
            },
            Some(t) => {
                push_error_if(
                    result,
                    !t.is_input_type(),
                    CheckErrorMessage::NoOutputType { name: named.name.name }.with_pos(
                        *v.ty.position(),
                    ),
                );
            },
        }
        assert(views(result@) =~= r0 + variable_definitions_upto(definitions@, vs@, (i + 1) as nat));
        i += 1;
    }
}

} // verus!
