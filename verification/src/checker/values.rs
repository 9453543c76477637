//! Checking input values against the types that receive them.

use vstd::prelude::*;

use crate::ast::base::{str_eq, HasPos, Ident, Pos};
use crate::ast::type_system::{
    EnumValueDefinition, InputValueDefinition, TypeDefinition, TypeSystemDefinition,
};
use crate::ast::types::Type;
use crate::ast::value::Value;
use crate::ast::variable::{Variable, VariableDefinition, VariablesDefinition};

use super::definitions::{find_type, spec_find_type};
use super::error::{
    err, err_if, err_info, one_info, push_error, views, CheckError, CheckErrorMessage, CheckErrorView,
};

verus! {

/// The first definition of a variable with a given name.
pub open spec fn spec_find_variable_in<'a>(defs: Seq<VariableDefinition<'a>>, name: Seq<char>) -> Option<
    VariableDefinition<'a>,
>
    decreases defs.len(),
{
    if defs.len() == 0 {
        None
    } else if defs[0].name.name@ == name {
        Some(defs[0])
    } else {
        spec_find_variable_in(defs.drop_first(), name)
    }
}

/// The definition of a variable among the variables of an operation, if it has any.
pub open spec fn spec_find_variable<'a>(variables: Option<VariablesDefinition<'a>>, name: Seq<char>) -> Option<
    VariableDefinition<'a>,
> {
    match variables {
        Some(v) => spec_find_variable_in(v.definitions@, name),
        None => None,
    }
}

/// Finds the definition of a variable.
pub fn get_variable_definition<'a>(
    variables: Option<&'a VariablesDefinition<'a>>,
    variable: &Variable<'a>,
) -> (r: Option<&'a VariableDefinition<'a>>)
    ensures
        match r {
            Some(d) => spec_find_variable(opt_deref(variables), variable.name@) == Some(*d),
            None => spec_find_variable(opt_deref(variables), variable.name@) is None,
        },
{
    match variables {
        None => None,
        Some(vars) => {
            let defs = &vars.definitions;
            let mut i: usize = 0;
            assert(defs@.skip(0) =~= defs@);
            while i < defs.len()
                invariant
                    i <= defs@.len(),
                    variables == Some(vars),
                    defs == &vars.definitions,
                    spec_find_variable_in(defs@, variable.name@) == spec_find_variable_in(
                        defs@.skip(i as int),
                        variable.name@,
                    ),
                decreases defs@.len() - i,
            {
                assert(defs@.skip(i as int).drop_first() =~= defs@.skip(i + 1));
                assert(defs@.skip(i as int)[0] == defs@[i as int]);
                if str_eq(defs[i].name.name, variable.name) {
                    assert(spec_find_variable_in(defs@.skip(i as int), variable.name@) == Some(
                        defs@[i as int],
                    ));
                    return Some(&defs[i]);
                }
                i += 1;
            }
            None
        },
    }
}

/// The value behind an optional reference.
pub open spec fn opt_deref<T>(o: Option<&T>) -> Option<T> {
    match o {
        Some(r) => Some(*r),
        None => None,
    }
}

/// Whether a value of type `value_type` may be passed where `expected_type` is expected:
/// non-null may go where nullable is expected but not the other way round,
/// lists need lists, and named types must be the same.
pub open spec fn spec_types_compatible(value_type: Type, expected_type: Type) -> bool
    decreases value_type, expected_type,
{
    match (expected_type, value_type) {
        (Type::NonNull(e), Type::NonNull(v)) => spec_types_compatible(v.ty, e.ty),
        (_, Type::NonNull(v)) => spec_types_compatible(v.ty, expected_type),
        (Type::NonNull(_), _) => false,
        (Type::List(e), Type::List(v)) => spec_types_compatible(v.ty, e.ty),
        (Type::List(_), _) => false,
        (_, Type::List(_)) => false,
        (Type::Named(e), Type::Named(v)) => e.name.name@ == v.name.name@,
    }
}

/// Returns true if `value_type` is assignable to `expected_type`.
pub fn check_type_compatibility(value_type: &Type, expected_type: &Type) -> (r: bool)
    ensures
        r == spec_types_compatible(*value_type, *expected_type),
    decreases value_type, expected_type,
{
    match (expected_type, value_type) {
        (Type::NonNull(expected_inner), Type::NonNull(value_inner)) => {
            check_type_compatibility(&value_inner.ty, &expected_inner.ty)
        },
        (_, Type::NonNull(value_inner)) => check_type_compatibility(&value_inner.ty, expected_type),
        (Type::NonNull(_), _) => false,
        (Type::List(expected_inner), Type::List(value_inner)) => {
            check_type_compatibility(&value_inner.ty, &expected_inner.ty)
        },
        (Type::List(_), _) => false,
        (_, Type::List(_)) => false,
        (Type::Named(expected_name), Type::Named(value_name)) => str_eq(
            expected_name.name.name,
            value_name.name.name,
        ),
    }
}

/// Whether a built-in scalar accepts a literal: each built-in scalar accepts its own
/// kind of literal and null (`ID` accepts strings); custom scalars accept anything.
pub open spec fn scalar_accepts(name: Seq<char>, value: Value) -> bool {
    if name == "Boolean"@ {
        value is BooleanValue || value is NullValue
    } else if name == "Int"@ {
        value is IntValue || value is NullValue
    } else if name == "Float"@ {
        value is FloatValue || value is NullValue
    } else if name == "String"@ || name == "ID"@ {
        value is StringValue || value is NullValue
    } else {
        true
    }
}

/// Whether an input field must be given: it is non-null and has no default value.
pub open spec fn is_required(f: InputValueDefinition) -> bool {
    f.ty is NonNull && f.default_value is None
}

/// The first field of an object value with a given name.
pub open spec fn spec_find_field_index<'a>(fields: Seq<(Ident<'a>, Value<'a>)>, name: Seq<char>) -> Option<
    int,
>
    decreases fields.len(),
{
    if fields.len() == 0 {
        None
    } else {
        match spec_find_field_index(fields.drop_last(), name) {
            Some(k) => Some(k),
            None => if fields.last().0.name@ == name {
                Some(fields.len() - 1)
            } else {
                None
            },
        }
    }
}

/// Whether an input object type has a field with a given name.
pub open spec fn has_input_field(fields: Seq<InputValueDefinition>, name: Seq<char>) -> bool {
    exists|i: int| 0 <= i < fields.len() && #[trigger] fields[i].name.name@ == name
}

/// Related places for the fields of an object value that the input type does not have.
pub open spec fn unknown_field_infos<'a>(
    expected: Seq<InputValueDefinition<'a>>,
    fields: Seq<(Ident<'a>, Value<'a>)>,
) -> Seq<(Pos, CheckErrorMessage<'a>)>
    decreases fields.len(),
{
    if fields.len() == 0 {
        Seq::empty()
    } else {
        let rest = unknown_field_infos(expected, fields.drop_last());
        let key = fields.last().0;
        if has_input_field(expected, key.name@) {
            rest
        } else {
            rest.push((key.position, CheckErrorMessage::UnknownField { name: key.name }))
        }
    }
}

/// Nesting depth of a type reference.
pub open spec fn type_size(t: Type) -> nat
    decreases t,
{
    match t {
        Type::Named(_) => 1,
        Type::List(l) => 1 + type_size(l.ty),
        Type::NonNull(n) => 1 + type_size(n.ty),
    }
}

/// Diagnostics of a value checked against a type reference, in the order they are found.
/// A variable must be defined and its type must be compatible; otherwise the value must
/// fit the type, and a value that does not fit gives a type mismatch after the diagnostics
/// of its parts.
pub open spec fn spec_value_errors<'a>(
    defs: Seq<TypeSystemDefinition<'a>>,
    vars: Option<VariablesDefinition<'a>>,
    value: Value<'a>,
    expected: Type<'a>,
) -> Seq<CheckErrorView<'a>>
    decreases value, 2nat, type_size(expected),
{
    match value {
        Value::Variable(v) => match spec_find_variable(vars, v.name@) {
            None => seq![err(v.position, CheckErrorMessage::UnknownVariable { name: v.name })],
            Some(vd) => err_if(
                !spec_types_compatible(vd.ty, expected),
                err(v.position, CheckErrorMessage::TypeMismatch { ty: &expected }),
            ),
        },
        _ => match expected {
            Type::NonNull(inner) => match value {
                Value::NullValue(n) => seq![
                    err(n.position, CheckErrorMessage::TypeMismatch { ty: &expected }),
                ],
                _ => spec_value_errors(defs, vars, value, inner.ty),
            },
            Type::List(inner) => match value {
                Value::ListValue(l) => spec_list_errors(defs, vars, l.values@, inner.ty),
                _ => seq![
                    err(value.spec_position(), CheckErrorMessage::TypeMismatch { ty: &expected }),
                ],
            },
            Type::Named(n) => match spec_find_type(defs, n.name.name@) {
                None => seq![
                    err_info(
                        n.name.position,
                        CheckErrorMessage::TypeSystemError,
                        seq![(n.name.position, CheckErrorMessage::UnknownType { name: n.name.name })],
                    ),
                ],
                Some(t) => {
                    let c = spec_compat(defs, vars, value, t);
                    c.2 + err_if(
                        !c.0,
                        err_info(
                            value.spec_position(),
                            CheckErrorMessage::TypeMismatch { ty: &expected },
                            c.1,
                        ),
                    )
                },
            },
        },
    }
}

/// Diagnostics of the items of a list value, each checked against the item type.
pub open spec fn spec_list_errors<'a>(
    defs: Seq<TypeSystemDefinition<'a>>,
    vars: Option<VariablesDefinition<'a>>,
    values: Seq<Value<'a>>,
    item: Type<'a>,
) -> Seq<CheckErrorView<'a>>
    decreases values, 0nat, values.len(),
{
    if values.len() == 0 {
        Seq::empty()
    } else {
        spec_list_errors(defs, vars, values.drop_last(), item) + spec_value_errors(
            defs,
            vars,
            values.last(),
            item,
        )
    }
}

/// Checking the fields of an object value against the fields of an input object type:
/// whether every required field is given, the related places of the missing ones,
/// the number of expected fields that are given or optional, and the diagnostics of the
/// given field values.
pub open spec fn spec_object_fields<'a>(
    defs: Seq<TypeSystemDefinition<'a>>,
    vars: Option<VariablesDefinition<'a>>,
    fields: Seq<(Ident<'a>, Value<'a>)>,
    expected: Seq<InputValueDefinition<'a>>,
) -> (bool, Seq<(Pos, CheckErrorMessage<'a>)>, nat, Seq<CheckErrorView<'a>>)
    decreases fields, 0nat, expected.len(),
{
    if expected.len() == 0 {
        (true, Seq::empty(), 0, Seq::empty())
    } else {
        let prev = spec_object_fields(defs, vars, fields, expected.drop_last());
        let f = expected.last();
        match spec_find_field_index(fields, f.name.name@) {
            None => if is_required(f) {
                (
                    false,
                    prev.1.push(
                        (f.position, CheckErrorMessage::RequiredFieldNotSpecified { name: f.name.name }),
                    ),
                    prev.2,
                    prev.3,
                )
            } else {
                (prev.0, prev.1, prev.2 + 1, prev.3)
            },
            Some(k) => if 0 <= k < fields.len() {
                (prev.0, prev.1, prev.2 + 1, prev.3 + spec_value_errors(defs, vars, fields[k].1, f.ty))
            } else {
                prev
            },
        }
    }
}

/// Whether a value (not a variable) fits a type definition, the related places
/// of a misfit, and the diagnostics found on the way.
pub open spec fn spec_compat<'a>(
    defs: Seq<TypeSystemDefinition<'a>>,
    vars: Option<VariablesDefinition<'a>>,
    value: Value<'a>,
    t: TypeDefinition<'a>,
) -> (bool, Seq<(Pos, CheckErrorMessage<'a>)>, Seq<CheckErrorView<'a>>)
    decreases value, 1nat, 0nat,
{
    match t {
        TypeDefinition::Scalar(s) => (scalar_accepts(s.name.name@, value), Seq::empty(), Seq::empty()),
        TypeDefinition::Enum(e) => match value {
            Value::NullValue(_) => (true, Seq::empty(), Seq::empty()),
            Value::EnumValue(ev) => (
                true,
                Seq::empty(),
                err_if(
                    !(exists|i: int|
                        0 <= i < e.values@.len() && #[trigger] e.values@[i].name.name@
                            == ev.value@),
                    err_info(
                        ev.position,
                        CheckErrorMessage::UnknownEnumMember {
                            member: ev.value,
                            enum_name: e.name.name,
                        },
                        seq![
                            (e.name.position, CheckErrorMessage::DefinitionPos { name: e.name.name }),
                        ],
                    ),
                ),
            ),
            _ => (false, Seq::empty(), Seq::empty()),
        },
        TypeDefinition::InputObject(io) => match value {
            Value::ObjectValue(o) => {
                let r = spec_object_fields(defs, vars, o.fields@, io.fields@);
                if r.2 < o.fields@.len() {
                    (false, r.1 + unknown_field_infos(io.fields@, o.fields@), r.3)
                } else {
                    (r.0, r.1, r.3)
                }
            },
            Value::NullValue(_) => (true, Seq::empty(), Seq::empty()),
            _ => (false, Seq::empty(), Seq::empty()),
        },
        _ => (false, Seq::empty(), Seq::empty()),
    }
}

/// An index found for a name is the first field with that name; no index means no field has it.
pub proof fn lemma_find_field_index<'a>(fields: Seq<(Ident<'a>, Value<'a>)>, name: Seq<char>)
    ensures
        match spec_find_field_index(fields, name) {
            Some(k) => 0 <= k < fields.len() && fields[k].0.name@ == name && forall|j: int|
                0 <= j < k ==> #[trigger] fields[j].0.name@ != name,
            None => forall|j: int| 0 <= j < fields.len() ==> #[trigger] fields[j].0.name@ != name,
        },
    decreases fields.len(),
{
    if fields.len() > 0 {
        let d = fields.drop_last();
        lemma_find_field_index(d, name);
        assert(forall|j: int| 0 <= j < d.len() ==> #[trigger] d[j] == fields[j]);
        match spec_find_field_index(d, name) {
            Some(k) => {
                assert(d[k] == fields[k]);
                assert forall|j: int| 0 <= j < k implies #[trigger] fields[j].0.name@ != name by {
                    assert(d[j] == fields[j]);
                }
            },
            None => {
                assert forall|j: int| 0 <= j < fields.len() - 1 implies #[trigger] fields[j].0.name@ != name by {
                    assert(d[j] == fields[j]);
                }
            },
        }
    }
}

/// The first field with a given name is unique.
proof fn lemma_find_field_index_unique<'a>(
    fields: Seq<(Ident<'a>, Value<'a>)>,
    name: Seq<char>,
    k: int,
)
    requires
        0 <= k < fields.len(),
        fields[k].0.name@ == name,
        forall|j: int| 0 <= j < k ==> #[trigger] fields[j].0.name@ != name,
    ensures
        spec_find_field_index(fields, name) == Some(k),
{
    lemma_find_field_index(fields, name);
}

/// Finds the first field of an object value with the given name.
pub fn find_field_index<'a>(fields: &[(Ident<'a>, Value<'a>)], name: &str) -> (r: Option<usize>)
    ensures
        match r {
            Some(k) => spec_find_field_index(fields@, name@) == Some(k as int) && k < fields@.len(),
            None => spec_find_field_index(fields@, name@) is None,
        },
{
    let mut i: usize = 0;
    while i < fields.len()
        invariant
            i <= fields@.len(),
            forall|j: int| 0 <= j < i ==> #[trigger] fields@[j].0.name@ != name@,
        decreases fields@.len() - i,
    {
        if str_eq(fields[i].0.name, name) {
            proof {
                lemma_find_field_index_unique(fields@, name@, i as int);
            }
            return Some(i);
        }
        i += 1;
    }
    proof {
        lemma_find_field_index(fields@, name@);
    }
    None
}

/// Whether an input object type has a field with the given name.
fn input_fields_contain(fields: &Vec<InputValueDefinition>, name: &str) -> (r: bool)
    ensures
        r == has_input_field(fields@, name@),
{
    let mut i: usize = 0;
    while i < fields.len()
        invariant
            i <= fields@.len(),
            forall|j: int| 0 <= j < i ==> #[trigger] fields@[j].name.name@ != name@,
        decreases fields@.len() - i,
    {
        if str_eq(fields[i].name.name, name) {
            return true;
        }
        i += 1;
    }
    false
}

/// Whether an enum type has a member with the given name.
fn enum_has_member(values: &Vec<EnumValueDefinition>, name: &str) -> (r: bool)
    ensures
        r == (exists|i: int| 0 <= i < values@.len() && #[trigger] values@[i].name.name@ == name@),
{
    let mut i: usize = 0;
    while i < values.len()
        invariant
            i <= values@.len(),
            forall|j: int| 0 <= j < i ==> #[trigger] values@[j].name.name@ != name@,
        decreases values@.len() - i,
    {
        if str_eq(values[i].name.name, name) {
            return true;
        }
        i += 1;
    }
    false
}

/// Checks a value against the type that receives it, adding diagnostics to `result`.
pub fn check_value<'a>(
    definitions: &'a Vec<TypeSystemDefinition<'a>>,
    variables: Option<&'a VariablesDefinition<'a>>,
    value: &'a Value<'a>,
    expected_type: &'a Type<'a>,
    result: &mut Vec<CheckError<'a>>,
)
    ensures
        views(final(result)@) == views(old(result)@) + spec_value_errors(
            definitions@,
            opt_deref(variables),
            *value,
            *expected_type,
        ),
    decreases value, 2nat, type_size(*expected_type),
{
    let ghost r0 = views(result@);
    if let Value::Variable(variable) = value {
        match get_variable_definition(variables, variable) {
            None => {
                push_error(
                    result,
                    CheckErrorMessage::UnknownVariable { name: variable.name }.with_pos(
                        variable.position,
                    ),
                );
            },
            Some(v_def) => {
                if !check_type_compatibility(&v_def.ty, expected_type) {
                    push_error(
                        result,
                        CheckErrorMessage::TypeMismatch { ty: expected_type }.with_pos(
                            variable.position,
                        ),
                    );
                } else {
                    assert(views(result@) =~= r0 + Seq::empty());
                }
            },
        }
        return ;
    }
    match expected_type {
        Type::NonNull(inner) => match value {
            Value::NullValue(n) => {
                push_error(
                    result,
                    CheckErrorMessage::TypeMismatch { ty: expected_type }.with_pos(n.position),
                );
            },
            _ => {
                check_value(definitions, variables, value, &inner.ty, result);
            },
        },
        Type::List(expected_inner) => match value {
            Value::ListValue(l) => {
                let mut i: usize = 0;
                assert(l.values@.take(0) =~= Seq::<Value<'a>>::empty());
                while i < l.values.len()
                    invariant
                        i <= l.values@.len(),
                        *value == Value::ListValue(*l),
                        views(result@) == r0 + spec_list_errors(
                            definitions@,
                            opt_deref(variables),
                            l.values@.take(i as int),
                            expected_inner.ty,
                        ),
                    decreases l.values@.len() - i,
                {
                    let ghost before = views(result@);
                    assert(l.values@.take(i + 1).drop_last() =~= l.values@.take(i as int));
                    proof {
                        assert(decreases_to!(*value => (*value)->ListValue_0));
                        assert(decreases_to!(*l => l.values));
                        assert(decreases_to!(l.values => l.values@));
                        assert(decreases_to!(l.values@ => l.values@[i as int]));
                        assert(decreases_to!(*value => l.values@[i as int]));
                    }
                    check_value(definitions, variables, &l.values[i], &expected_inner.ty, result);
                    assert(views(result@) =~= r0 + spec_list_errors(
                        definitions@,
                        opt_deref(variables),
                        l.values@.take(i + 1),
                        expected_inner.ty,
                    ));
                    i += 1;
                }
                assert(l.values@.take(i as int) =~= l.values@);
            },
            _ => {
                push_error(
                    result,
                    CheckErrorMessage::TypeMismatch { ty: expected_type }.with_pos(
                        *value.position(),
                    ),
                );
            },
        },
        Type::Named(expected_name) => {
            match find_type(definitions, expected_name.name.name) {
                None => {
                    let e = CheckErrorMessage::TypeSystemError.with_pos(
                        expected_name.name.position,
                    ).with_additional_info(
                        one_info(
                            expected_name.name.position,
                            CheckErrorMessage::UnknownType { name: expected_name.name.name },
                        ),
                    );
                    push_error(result, e);
                },
                Some(type_def) => {
                    let (is_compatible, info) = is_value_compatible_type_def(
                        definitions,
                        variables,
                        value,
                        type_def,
                        result,
                    );
                    if !is_compatible {
                        let e = CheckErrorMessage::TypeMismatch { ty: expected_type }.with_pos(
                            *value.position(),
                        ).with_additional_info(info);
                        push_error(result, e);
                    } else {
                        assert(views(result@) =~= views(result@) + Seq::empty());
                    }
                },
            }
        },
    }
}

/// Checks whether a value that is not a variable fits a type definition.
/// Returns whether it fits and the related places of a misfit; diagnostics of nested
/// values are added to `result`.
pub fn is_value_compatible_type_def<'a>(
    definitions: &'a Vec<TypeSystemDefinition<'a>>,
    variables: Option<&'a VariablesDefinition<'a>>,
    value: &'a Value<'a>,
    expected_type: &'a TypeDefinition<'a>,
    result: &mut Vec<CheckError<'a>>,
) -> (r: (bool, Vec<(Pos, CheckErrorMessage<'a>)>))
    ensures
        ({
            let c = spec_compat(definitions@, opt_deref(variables), *value, *expected_type);
            &&& r.0 == c.0
            &&& r.1@ == c.1
            &&& views(final(result)@) == views(old(result)@) + c.2
        }),
    decreases value, 1nat, 0nat,
{
    let ghost r0 = views(result@);
    assert(r0 =~= r0 + Seq::empty());
    match expected_type {
        TypeDefinition::Scalar(scalar_def) => {
            let name = scalar_def.name.name;
            let ok = if str_eq(name, "Boolean") {
                matches!(value, Value::BooleanValue(_) | Value::NullValue(_))
            } else if str_eq(name, "Int") {
                matches!(value, Value::IntValue(_) | Value::NullValue(_))
            } else if str_eq(name, "Float") {
                matches!(value, Value::FloatValue(_) | Value::NullValue(_))
            } else if str_eq(name, "String") || str_eq(name, "ID") {
                matches!(value, Value::StringValue(_) | Value::NullValue(_))
            } else {
                true
            };
            (ok, Vec::new())
        },
        TypeDefinition::Enum(enum_def) => match value {
            Value::NullValue(_) => (true, Vec::new()),
            Value::EnumValue(ev) => {
                if !enum_has_member(&enum_def.values, ev.value) {
                    let e = CheckErrorMessage::UnknownEnumMember {
                        member: ev.value,
                        enum_name: enum_def.name.name,
                    }.with_pos(ev.position).with_additional_info(
                        one_info(
                            enum_def.name.position,
                            CheckErrorMessage::DefinitionPos { name: enum_def.name.name },
                        ),
                    );
                    push_error(result, e);
                }
                (true, Vec::new())
            },
            _ => (false, Vec::new()),
        },
        TypeDefinition::InputObject(object_def) => match value {
            Value::ObjectValue(o) => {
                let mut res = true;
                let mut info: Vec<(Pos, CheckErrorMessage<'a>)> = Vec::new();
                let mut seen_fields: usize = 0;
                let mut i: usize = 0;
                assert(object_def.fields@.take(0) =~= Seq::<InputValueDefinition<'a>>::empty());
                while i < object_def.fields.len()
                    invariant
                        i <= object_def.fields@.len(),
                        *value == Value::ObjectValue(*o),
                        seen_fields <= i,
                        ({
                            let st = spec_object_fields(
                                definitions@,
                                opt_deref(variables),
                                o.fields@,
                                object_def.fields@.take(i as int),
                            );
                            &&& res == st.0
                            &&& info@ == st.1
                            &&& seen_fields == st.2
                            &&& views(result@) == r0 + st.3
                        }),
                    decreases object_def.fields@.len() - i,
                {
                    let expected_field = &object_def.fields[i];
                    assert(object_def.fields@.take(i + 1).drop_last() =~= object_def.fields@.take(
                        i as int,
                    ));
                    match find_field_index(o.fields.as_slice(), expected_field.name.name) {
                        None => {
                            if expected_field.ty.is_nonnull()
                                && expected_field.default_value.is_none() {
                                res = false;
                                info.push(
                                    (
                                        expected_field.position,
                                        CheckErrorMessage::RequiredFieldNotSpecified {
                                            name: expected_field.name.name,
                                        },
                                    ),
                                );
                            } else {
                                seen_fields += 1;
                            }
                        },
                        Some(k) => {
                            proof {
                                assert(decreases_to!(*value => (*value)->ObjectValue_0));
                                assert(decreases_to!(*o => o.fields));
                                assert(decreases_to!(o.fields => o.fields@));
                                assert(decreases_to!(o.fields@ => o.fields@[k as int]));
                                assert(decreases_to!(o.fields@[k as int] => o.fields@[k as int].1));
                                assert(decreases_to!(*value => o.fields@[k as int].1));
                            }
                            check_value(
                                definitions,
                                variables,
                                &o.fields[k].1,
                                &expected_field.ty,
                                result,
                            );
                            seen_fields += 1;
                        },
                    }
                    i += 1;
                }
                assert(object_def.fields@.take(i as int) =~= object_def.fields@);
                if seen_fields < o.fields.len() {
                    res = false;
                    let ghost info0 = info@;
                    let mut j: usize = 0;
                    assert(o.fields@.take(0) =~= Seq::<(Ident<'a>, Value<'a>)>::empty());
                    while j < o.fields.len()
                        invariant
                            j <= o.fields@.len(),
                            info@ == info0 + unknown_field_infos(
                                object_def.fields@,
                                o.fields@.take(j as int),
                            ),
                        decreases o.fields@.len() - j,
                    {
                        assert(o.fields@.take(j + 1).drop_last() =~= o.fields@.take(j as int));
                        let key = o.fields[j].0;
                        if !input_fields_contain(&object_def.fields, key.name) {
                            info.push((key.position, CheckErrorMessage::UnknownField { name: key.name }));
                        }
                        j += 1;
                    }
                    assert(o.fields@.take(j as int) =~= o.fields@);
                }
                (res, info)
            },
            Value::NullValue(_) => (true, Vec::new()),
            _ => (false, Vec::new()),
        },
        _ => (false, Vec::new()),
    }
}

/// A value of a type may be passed where the same type is expected, and a non-null value
/// where its nullable type is expected.
pub proof fn law_types_compatible_reflexive<'a>(t: Type<'a>)
    ensures
        spec_types_compatible(t, t),
    decreases t,
{
    match t {
        Type::NonNull(n) => {
            law_types_compatible_reflexive(n.ty);
        },
        Type::List(l) => {
            law_types_compatible_reflexive(l.ty);
        },
        Type::Named(_) => {},
    }
}


/// Whether a message is one that checking a value can give.
pub open spec fn is_value_message(m: CheckErrorMessage) -> bool {
    m is TypeMismatch || m is UnknownVariable || m is TypeSystemError || m is UnknownEnumMember
}

/// Whether every diagnostic of a list has a message that checking a value can give.
pub open spec fn all_value_messages<'a>(s: Seq<CheckErrorView<'a>>) -> bool {
    forall|i: int| 0 <= i < s.len() ==> is_value_message(#[trigger] s[i].message)
}

pub proof fn lemma_value_messages_concat<'a>(a: Seq<CheckErrorView<'a>>, b: Seq<CheckErrorView<'a>>)
    requires
        all_value_messages(a),
        all_value_messages(b),
    ensures
        all_value_messages(a + b),
{
    assert forall|i: int| 0 <= i < (a + b).len() implies is_value_message(#[trigger] (a + b)[i].message) by {
        if i < a.len() {
            assert((a + b)[i] == a[i]);
        } else {
            assert((a + b)[i] == b[i - a.len()]);
        }
    }
}

/// Checking a value gives only type mismatches, unknown variables, type system errors and
/// unknown enum members.
pub proof fn lemma_value_messages<'a>(
    defs: Seq<TypeSystemDefinition<'a>>,
    vars: Option<VariablesDefinition<'a>>,
    value: Value<'a>,
    expected: Type<'a>,
)
    ensures
        all_value_messages(spec_value_errors(defs, vars, value, expected)),
    decreases value, 2nat, type_size(expected),
{
    match value {
        Value::Variable(v) => {},
        _ => match expected {
            Type::NonNull(inner) => match value {
                Value::NullValue(n) => {},
                _ => lemma_value_messages(defs, vars, value, inner.ty),
            },
            Type::List(inner) => match value {
                Value::ListValue(l) => lemma_list_messages(defs, vars, l.values@, inner.ty),
                _ => {},
            },
            Type::Named(n) => match spec_find_type(defs, n.name.name@) {
                None => {},
                Some(t) => {
                    lemma_compat_messages(defs, vars, value, t);
                    let c = spec_compat(defs, vars, value, t);
                    lemma_value_messages_concat(
                        c.2,
                        err_if(
                            !c.0,
                            err_info(
                                value.spec_position(),
                                CheckErrorMessage::TypeMismatch { ty: &expected },
                                c.1,
                            ),
                        ),
                    );
                },
            },
        },
    }
}

proof fn lemma_list_messages<'a>(
    defs: Seq<TypeSystemDefinition<'a>>,
    vars: Option<VariablesDefinition<'a>>,
    values: Seq<Value<'a>>,
    item: Type<'a>,
)
    ensures
        all_value_messages(spec_list_errors(defs, vars, values, item)),
    decreases values, 0nat, values.len(),
{
    if values.len() > 0 {
        lemma_list_messages(defs, vars, values.drop_last(), item);
        lemma_value_messages(defs, vars, values.last(), item);
        lemma_value_messages_concat(
            spec_list_errors(defs, vars, values.drop_last(), item),
            spec_value_errors(defs, vars, values.last(), item),
        );
    }
}

proof fn lemma_object_fields_messages<'a>(
    defs: Seq<TypeSystemDefinition<'a>>,
    vars: Option<VariablesDefinition<'a>>,
    fields: Seq<(Ident<'a>, Value<'a>)>,
    expected: Seq<InputValueDefinition<'a>>,
)
    ensures
        all_value_messages(spec_object_fields(defs, vars, fields, expected).3),
    decreases fields, 0nat, expected.len(),
{
    if expected.len() > 0 {
        lemma_object_fields_messages(defs, vars, fields, expected.drop_last());
        let prev = spec_object_fields(defs, vars, fields, expected.drop_last());
        let f = expected.last();
        match spec_find_field_index(fields, f.name.name@) {
            None => {},
            Some(k) => if 0 <= k < fields.len() {
                lemma_value_messages(defs, vars, fields[k].1, f.ty);
                lemma_value_messages_concat(prev.3, spec_value_errors(defs, vars, fields[k].1, f.ty));
            },
        }
    }
}

proof fn lemma_compat_messages<'a>(
    defs: Seq<TypeSystemDefinition<'a>>,
    vars: Option<VariablesDefinition<'a>>,
    value: Value<'a>,
    t: TypeDefinition<'a>,
)
    ensures
        all_value_messages(spec_compat(defs, vars, value, t).2),
    decreases value, 1nat, 0nat,
{
    match t {
        TypeDefinition::InputObject(io) => match value {
            Value::ObjectValue(o) => lemma_object_fields_messages(defs, vars, o.fields@, io.fields@),
            _ => {},
        },
        _ => {},
    }
}

} // verus!
