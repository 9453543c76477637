//! Checks of type system documents.

use vstd::prelude::*;

use crate::ast::base::Ident;
use crate::ast::type_system::{
    ArgumentsDefinition, DirectiveDefinition, EnumTypeDefinition, FieldDefinition,
    InputObjectTypeDefinition, InputValueDefinition, InterfaceTypeDefinition,
    ObjectTypeDefinition, ScalarTypeDefinition, SchemaDefinition, TypeDefinition,
    TypeSystemDefinition, TypeSystemDocument, UnionTypeDefinition,
};

use self::check_directive_recursion::{check_directive_recursion, spec_recursion_errors};
use self::interfaces::{check_valid_implementation, spec_valid_implementation_errors};
use super::common::{
    all_directive_messages, check_directives, lemma_directive_messages, spec_directive_errors,
};
use super::definitions::{find_type, spec_find_type};
use super::error::{
    err, err_if, push_error, push_error_if, views, CheckError, CheckErrorMessage, CheckErrorView,
};
use super::named::{name_starts_with_unscounsco, occurs_before, repeats_earlier, reserved_name};
use super::types::{inout_kind_of_type, spec_inout_kind};

pub mod check_directive_recursion;
pub mod interfaces;

verus! {

/// A diagnostic for a name that starts with `__`.
pub open spec fn reserved_name_errors<'a>(id: Ident<'a>) -> Seq<CheckErrorView<'a>> {
    err_if(reserved_name(id.name@), err(id.position, CheckErrorMessage::UnscoUnsco))
}

/// A diagnostic for a name that repeats an earlier one.
pub open spec fn duplicate_errors<'a>(repeated: bool, id: Ident<'a>) -> Seq<CheckErrorView<'a>> {
    err_if(repeated, err(id.position, CheckErrorMessage::DuplicatedName { name: id.name }))
}

/// Diagnostics of directives applied at a location of a type system document.
pub open spec fn located_directive_errors<'a>(
    defs: Seq<TypeSystemDefinition<'a>>,
    ds: Seq<crate::ast::directive::Directive<'a>>,
    location: Seq<char>,
) -> Seq<CheckErrorView<'a>> {
    spec_directive_errors(defs, None, ds, location)
}

/// The type of an argument or input field must be a known input type.
pub open spec fn input_type_errors<'a>(
    defs: Seq<TypeSystemDefinition<'a>>,
    v: InputValueDefinition<'a>,
) -> Seq<CheckErrorView<'a>> {
    let named = v.ty.spec_unwrapped().name;
    match spec_inout_kind(defs, named.name@) {
        None => seq![err(v.ty.spec_position(), CheckErrorMessage::UnknownType { name: named.name })],
        Some(k) => err_if(
            !k.spec_is_input(),
            err(v.ty.spec_position(), CheckErrorMessage::NoOutputType { name: named.name }),
        ),
    }
}

/// Diagnostics of the argument definition at index `k`.
pub open spec fn argument_definition_errors<'a>(
    defs: Seq<TypeSystemDefinition<'a>>,
    vs: Seq<InputValueDefinition<'a>>,
    k: int,
) -> Seq<CheckErrorView<'a>> {
    let v = vs[k];
    reserved_name_errors(v.name) + duplicate_errors(repeats_earlier(vs, k), v.name)
        + input_type_errors(defs, v) + located_directive_errors(
        defs,
        v.directives@,
        "ARGUMENT_DEFINITION"@,
    )
}

/// Diagnostics of the first `n` argument definitions.
pub open spec fn argument_definitions_upto<'a>(
    defs: Seq<TypeSystemDefinition<'a>>,
    vs: Seq<InputValueDefinition<'a>>,
    n: nat,
) -> Seq<CheckErrorView<'a>>
    decreases n,
{
    if n == 0 {
        Seq::empty()
    } else {
        argument_definitions_upto(defs, vs, (n - 1) as nat) + argument_definition_errors(
            defs,
            vs,
            n - 1,
        )
    }
}

/// Diagnostics of an arguments definition.
pub open spec fn spec_arguments_definition_errors<'a>(
    defs: Seq<TypeSystemDefinition<'a>>,
    def: ArgumentsDefinition<'a>,
) -> Seq<CheckErrorView<'a>> {
    argument_definitions_upto(defs, def.input_values@, def.input_values@.len())
}

/// Diagnostics of an optional arguments definition.
pub open spec fn optional_arguments_errors<'a>(
    defs: Seq<TypeSystemDefinition<'a>>,
    def: Option<ArgumentsDefinition<'a>>,
) -> Seq<CheckErrorView<'a>> {
    match def {
        Some(a) => spec_arguments_definition_errors(defs, a),
        None => Seq::empty(),
    }
}

/// The type of an object field must be a known output type.
pub open spec fn object_field_type_errors<'a>(
    defs: Seq<TypeSystemDefinition<'a>>,
    f: FieldDefinition<'a>,
) -> Seq<CheckErrorView<'a>> {
    let named = f.ty.spec_unwrapped().name;
    match spec_inout_kind(defs, named.name@) {
        None => seq![err(f.ty.spec_position(), CheckErrorMessage::UnknownType { name: named.name })],
        Some(k) => err_if(
            !k.spec_is_output(),
            err(f.ty.spec_position(), CheckErrorMessage::NoInputType { name: named.name }),
        ),
    }
}

/// The type of an interface field must not be an input type; an unknown type is let pass.
pub open spec fn interface_field_type_errors<'a>(
    defs: Seq<TypeSystemDefinition<'a>>,
    f: FieldDefinition<'a>,
) -> Seq<CheckErrorView<'a>> {
    let named = f.ty.spec_unwrapped().name;
    match spec_inout_kind(defs, named.name@) {
        None => Seq::empty(),
        Some(k) => err_if(
            !k.spec_is_output(),
            err(f.ty.spec_position(), CheckErrorMessage::NoInputType { name: named.name }),
        ),
    }
}

/// Diagnostics of the field at index `k` of an object (`object`) or interface.
pub open spec fn field_errors<'a>(
    defs: Seq<TypeSystemDefinition<'a>>,
    object: bool,
    fs: Seq<FieldDefinition<'a>>,
    k: int,
) -> Seq<CheckErrorView<'a>> {
    let f = fs[k];
    duplicate_errors(repeats_earlier(fs, k), f.name) + reserved_name_errors(f.name) + (if object {
        object_field_type_errors(defs, f)
    } else {
        interface_field_type_errors(defs, f)
    }) + optional_arguments_errors(defs, f.arguments)
}

/// Diagnostics of the first `n` fields of an object or interface.
pub open spec fn fields_upto<'a>(
    defs: Seq<TypeSystemDefinition<'a>>,
    object: bool,
    fs: Seq<FieldDefinition<'a>>,
    n: nat,
) -> Seq<CheckErrorView<'a>>
    decreases n,
{
    if n == 0 {
        Seq::empty()
    } else {
        fields_upto(defs, object, fs, (n - 1) as nat) + field_errors(defs, object, fs, n - 1)
    }
}

/// Diagnostics of the interface at index `k` that a type declares it implements: an
/// interface may not implement itself (`interface`), the name must be a known interface,
/// and the type must validly implement it.
pub open spec fn implemented_errors<'a>(
    defs: Seq<TypeSystemDefinition<'a>>,
    interface: bool,
    name: Ident<'a>,
    fields: Seq<FieldDefinition<'a>>,
    implements: Seq<Ident<'a>>,
    k: int,
) -> Seq<CheckErrorView<'a>> {
    let other = implements[k];
    if interface && name.name@ == other.name@ {
        seq![err(other.position, CheckErrorMessage::NoImplementSelf)]
    } else {
        match spec_find_type(defs, other.name@) {
            None => seq![err(other.position, CheckErrorMessage::UnknownType { name: other.name })],
            Some(TypeDefinition::Interface(def)) => spec_valid_implementation_errors(
                defs,
                name,
                fields,
                implements,
                def,
            ),
            Some(_) => seq![err(other.position, CheckErrorMessage::NotInterface { name: other.name })],
        }
    }
}

/// Diagnostics of the first `n` implemented interfaces.
pub open spec fn implemented_upto<'a>(
    defs: Seq<TypeSystemDefinition<'a>>,
    interface: bool,
    name: Ident<'a>,
    fields: Seq<FieldDefinition<'a>>,
    implements: Seq<Ident<'a>>,
    n: nat,
) -> Seq<CheckErrorView<'a>>
    decreases n,
{
    if n == 0 {
        Seq::empty()
    } else {
        implemented_upto(defs, interface, name, fields, implements, (n - 1) as nat)
            + implemented_errors(defs, interface, name, fields, implements, n - 1)
    }
}

/// Diagnostics of a schema definition.
pub open spec fn spec_schema_errors<'a>(
    defs: Seq<TypeSystemDefinition<'a>>,
    d: SchemaDefinition<'a>,
) -> Seq<CheckErrorView<'a>> {
    located_directive_errors(defs, d.directives@, "SCHEMA"@)
}

/// Diagnostics of a directive definition.
pub open spec fn spec_directive_definition_errors<'a>(
    defs: Seq<TypeSystemDefinition<'a>>,
    d: DirectiveDefinition<'a>,
) -> Seq<CheckErrorView<'a>> {
    spec_recursion_errors(defs, d) + reserved_name_errors(d.name) + optional_arguments_errors(
        defs,
        d.arguments,
    )
}

/// Diagnostics of a scalar type definition.
pub open spec fn spec_scalar_errors<'a>(
    defs: Seq<TypeSystemDefinition<'a>>,
    d: ScalarTypeDefinition<'a>,
) -> Seq<CheckErrorView<'a>> {
    reserved_name_errors(d.name) + located_directive_errors(defs, d.directives@, "SCALAR"@)
}

/// Diagnostics of an object type definition.
pub open spec fn spec_object_errors<'a>(
    defs: Seq<TypeSystemDefinition<'a>>,
    d: ObjectTypeDefinition<'a>,
) -> Seq<CheckErrorView<'a>> {
    reserved_name_errors(d.name) + located_directive_errors(defs, d.directives@, "OBJECT"@)
        + fields_upto(defs, true, d.fields@, d.fields@.len()) + implemented_upto(
        defs,
        false,
        d.name,
        d.fields@,
        d.implements@,
        d.implements@.len(),
    )
}

/// Diagnostics of an interface type definition.
pub open spec fn spec_interface_errors<'a>(
    defs: Seq<TypeSystemDefinition<'a>>,
    d: InterfaceTypeDefinition<'a>,
) -> Seq<CheckErrorView<'a>> {
    reserved_name_errors(d.name) + located_directive_errors(defs, d.directives@, "INTERFACE"@)
        + fields_upto(defs, false, d.fields@, d.fields@.len()) + implemented_upto(
        defs,
        true,
        d.name,
        d.fields@,
        d.implements@,
        d.implements@.len(),
    )
}

/// Diagnostics of the member at index `k` of a union: it must not repeat, and must be a
/// known object type.
pub open spec fn union_member_errors<'a>(
    defs: Seq<TypeSystemDefinition<'a>>,
    members: Seq<Ident<'a>>,
    k: int,
) -> Seq<CheckErrorView<'a>> {
    let m = members[k];
    duplicate_errors(repeats_earlier(members, k), m) + match spec_find_type(defs, m.name@) {
        None => seq![err(m.position, CheckErrorMessage::UnknownType { name: m.name })],
        Some(TypeDefinition::Object(_)) => Seq::empty(),
        Some(_) => seq![
            err(m.position, CheckErrorMessage::NonObjectTypeUnionMember { member_name: m.name }),
        ],
    }
}

/// Diagnostics of the first `n` members of a union.
pub open spec fn union_members_upto<'a>(
    defs: Seq<TypeSystemDefinition<'a>>,
    members: Seq<Ident<'a>>,
    n: nat,
) -> Seq<CheckErrorView<'a>>
    decreases n,
{
    if n == 0 {
        Seq::empty()
    } else {
        union_members_upto(defs, members, (n - 1) as nat) + union_member_errors(defs, members, n - 1)
    }
}

/// Diagnostics of a union type definition.
pub open spec fn spec_union_errors<'a>(
    defs: Seq<TypeSystemDefinition<'a>>,
    d: UnionTypeDefinition<'a>,
) -> Seq<CheckErrorView<'a>> {
    reserved_name_errors(d.name) + located_directive_errors(defs, d.directives@, "UNION"@)
        + union_members_upto(defs, d.members@, d.members@.len())
}

/// Diagnostics of the first `n` values of an enum.
pub open spec fn enum_values_upto<'a>(
    defs: Seq<TypeSystemDefinition<'a>>,
    values: Seq<crate::ast::type_system::EnumValueDefinition<'a>>,
    n: nat,
) -> Seq<CheckErrorView<'a>>
    decreases n,
{
    if n == 0 {
        Seq::empty()
    } else {
        let v = values[n - 1];
        enum_values_upto(defs, values, (n - 1) as nat) + duplicate_errors(
            repeats_earlier(values, n - 1),
            v.name,
        ) + located_directive_errors(defs, v.directives@, "ENUM_VALUE"@)
    }
}

/// Diagnostics of an enum type definition.
pub open spec fn spec_enum_errors<'a>(
    defs: Seq<TypeSystemDefinition<'a>>,
    d: EnumTypeDefinition<'a>,
) -> Seq<CheckErrorView<'a>> {
    reserved_name_errors(d.name) + located_directive_errors(defs, d.directives@, "ENUM"@)
        + enum_values_upto(defs, d.values@, d.values@.len())
}

/// Diagnostics of the first `n` fields of an input object.
pub open spec fn input_fields_upto<'a>(
    defs: Seq<TypeSystemDefinition<'a>>,
    fs: Seq<InputValueDefinition<'a>>,
    n: nat,
) -> Seq<CheckErrorView<'a>>
    decreases n,
{
    if n == 0 {
        Seq::empty()
    } else {
        let f = fs[n - 1];
        input_fields_upto(defs, fs, (n - 1) as nat) + duplicate_errors(
            repeats_earlier(fs, n - 1),
            f.name,
        ) + reserved_name_errors(f.name) + located_directive_errors(
            defs,
            f.directives@,
            "INPUT_FIELD_DEFINITION"@,
        ) + input_type_errors(defs, f)
    }
}

/// Diagnostics of an input object type definition.
pub open spec fn spec_input_object_errors<'a>(
    defs: Seq<TypeSystemDefinition<'a>>,
    d: InputObjectTypeDefinition<'a>,
) -> Seq<CheckErrorView<'a>> {
    reserved_name_errors(d.name) + located_directive_errors(defs, d.directives@, "INPUT_OBJECT"@)
        + input_fields_upto(defs, d.fields@, d.fields@.len())
}

/// Diagnostics of one definition of a type system document.
pub open spec fn spec_definition_errors<'a>(
    defs: Seq<TypeSystemDefinition<'a>>,
    def: TypeSystemDefinition<'a>,
) -> Seq<CheckErrorView<'a>> {
    match def {
        TypeSystemDefinition::SchemaDefinition(d) => spec_schema_errors(defs, d),
        TypeSystemDefinition::TypeDefinition(t) => match t {
            TypeDefinition::Scalar(d) => spec_scalar_errors(defs, d),
            TypeDefinition::Object(d) => spec_object_errors(defs, d),
            TypeDefinition::Interface(d) => spec_interface_errors(defs, d),
            TypeDefinition::Union(d) => spec_union_errors(defs, d),
            TypeDefinition::Enum(d) => spec_enum_errors(defs, d),
            TypeDefinition::InputObject(d) => spec_input_object_errors(defs, d),
        },
        TypeSystemDefinition::DirectiveDefinition(d) => spec_directive_definition_errors(defs, d),
    }
}

/// Diagnostics of the first `n` definitions of a document, each checked against all of them.
pub open spec fn definitions_upto<'a>(defs: Seq<TypeSystemDefinition<'a>>, n: nat) -> Seq<
    CheckErrorView<'a>,
>
    decreases n,
{
    if n == 0 {
        Seq::empty()
    } else {
        definitions_upto(defs, (n - 1) as nat) + spec_definition_errors(defs, defs[n - 1])
    }
}

/// Diagnostics of a type system document, definition by definition in document order.
pub open spec fn spec_type_system_errors<'a>(document: TypeSystemDocument<'a>) -> Seq<
    CheckErrorView<'a>,
> {
    definitions_upto(document.definitions@, document.definitions@.len())
}

/// Checks for invalid type system definition document.
pub fn check_type_system_document<'a>(document: &'a TypeSystemDocument<'a>) -> (r: Vec<
    CheckError<'a>,
>)
    ensures
        views(r@) == spec_type_system_errors(*document),
{
    let definitions = &document.definitions;
    let mut result: Vec<CheckError<'a>> = Vec::new();
    assert(views(result@) =~= Seq::empty());
    let mut i: usize = 0;
    while i < definitions.len()
        invariant
            i <= definitions@.len(),
            definitions == &document.definitions,
            views(result@) == definitions_upto(definitions@, i as nat),
        decreases definitions@.len() - i,
    {
        match &definitions[i] {
            TypeSystemDefinition::SchemaDefinition(d) => {
                check_schema(d, definitions, &mut result);
            },
            TypeSystemDefinition::TypeDefinition(t) => match t {
                TypeDefinition::Scalar(d) => {
                    check_scalar(d, definitions, &mut result);
                },
                TypeDefinition::Object(d) => {
                    check_object(d, definitions, &mut result);
                },
                TypeDefinition::Interface(d) => {
                    check_interface(d, definitions, &mut result);
                },
                TypeDefinition::Union(d) => {
                    check_union(d, definitions, &mut result);
                },
                TypeDefinition::Enum(d) => {
                    check_enum(d, definitions, &mut result);
                },
                TypeDefinition::InputObject(d) => {
                    check_input_object(d, definitions, &mut result);
                },
            },
            TypeSystemDefinition::DirectiveDefinition(d) => {
                check_directive(d, definitions, &mut result);
            },
        }
        i += 1;
    }
    result
}

fn check_schema<'a>(
    d: &'a SchemaDefinition<'a>,
    definitions: &'a Vec<TypeSystemDefinition<'a>>,
    result: &mut Vec<CheckError<'a>>,
)
    ensures
        views(final(result)@) == views(old(result)@) + spec_schema_errors(definitions@, *d),
{
    check_directives(definitions, None, d.directives.as_slice(), "SCHEMA", result);
}

fn check_directive<'a>(
    d: &'a DirectiveDefinition<'a>,
    definitions: &'a Vec<TypeSystemDefinition<'a>>,
    result: &mut Vec<CheckError<'a>>,
)
    ensures
        views(final(result)@) == views(old(result)@) + spec_directive_definition_errors(
            definitions@,
            *d,
        ),
{
    check_directive_recursion(definitions, d, result);
    check_reserved_name(&d.name, result);
    check_optional_arguments_definition(&d.arguments, definitions, result);
}

fn check_reserved_name<'a>(name: &Ident<'a>, result: &mut Vec<CheckError<'a>>)
    ensures
        views(final(result)@) == views(old(result)@) + reserved_name_errors(*name),
{
    let reserved = name_starts_with_unscounsco(name);
    push_error_if(result, reserved, CheckErrorMessage::UnscoUnsco.with_pos(name.position));
}

fn check_optional_arguments_definition<'a>(
    def: &'a Option<ArgumentsDefinition<'a>>,
    definitions: &'a Vec<TypeSystemDefinition<'a>>,
    result: &mut Vec<CheckError<'a>>,
)
    ensures
        views(final(result)@) == views(old(result)@) + optional_arguments_errors(
            definitions@,
            *def,
        ),
{
    match def {
        Some(a) => check_arguments_definition(a, definitions, result),
        None => {
            assert(views(result@) =~= views(old(result)@) + Seq::empty());
        },
    }
}

fn check_scalar<'a>(
    scalar: &'a ScalarTypeDefinition<'a>,
    definitions: &'a Vec<TypeSystemDefinition<'a>>,
    result: &mut Vec<CheckError<'a>>,
)
    ensures
        views(final(result)@) == views(old(result)@) + spec_scalar_errors(definitions@, *scalar),
{
    check_reserved_name(&scalar.name, result);
    check_directives(definitions, None, scalar.directives.as_slice(), "SCALAR", result);
}

fn check_input_type<'a>(
    v: &'a InputValueDefinition<'a>,
    definitions: &'a Vec<TypeSystemDefinition<'a>>,
    result: &mut Vec<CheckError<'a>>,
)
    ensures
        views(final(result)@) == views(old(result)@) + input_type_errors(definitions@, *v),
{
    let named = v.ty.unwrapped_type();
    match inout_kind_of_type(definitions, named.name.name) {
        None => {
            push_error(
                result,
                CheckErrorMessage::UnknownType { name: named.name.name }.with_pos(*v.ty.position()),
            );
        },
        Some(k) => {
            push_error_if(
                result,
                !k.is_input_type(),
                CheckErrorMessage::NoOutputType { name: named.name.name }.with_pos(
                    *v.ty.position(),
                ),
            );
        },
    }
}

fn check_arguments_definition<'a>(
    def: &'a ArgumentsDefinition<'a>,
    definitions: &'a Vec<TypeSystemDefinition<'a>>,
    result: &mut Vec<CheckError<'a>>,
)
    ensures
        views(final(result)@) == views(old(result)@) + spec_arguments_definition_errors(
            definitions@,
            *def,
        ),
{
    let ghost r0 = views(result@);
    let values = def.input_values.as_slice();
    let mut i: usize = 0;
    while i < values.len()
        invariant
            i <= values@.len(),
            values@ == def.input_values@,
            views(result@) == r0 + argument_definitions_upto(definitions@, values@, i as nat),
        decreases values@.len() - i,
    {
        let v = &values[i];
        check_reserved_name(&v.name, result);
        let repeated = occurs_before(values, i);
        push_error_if(
            result,
            repeated,
            CheckErrorMessage::DuplicatedName { name: v.name.name }.with_pos(v.name.position),
        );
        check_input_type(v, definitions, result);
        check_directives(
            definitions,
            None,
            v.directives.as_slice(),
            "ARGUMENT_DEFINITION",
            result,
        );
        assert(views(result@) =~= r0 + argument_definitions_upto(
            definitions@,
            values@,
            (i + 1) as nat,
        ));
        i += 1;
    }
}

fn check_field<'a>(
    object: bool,
    fields: &'a [FieldDefinition<'a>],
    i: usize,
    definitions: &'a Vec<TypeSystemDefinition<'a>>,
    result: &mut Vec<CheckError<'a>>,
)
    requires
        i < fields@.len(),
    ensures
        views(final(result)@) == views(old(result)@) + field_errors(
            definitions@,
            object,
            fields@,
            i as int,
        ),
{
    let ghost r0 = views(result@);
    let f = &fields[i];
    let repeated = occurs_before(fields, i);
    push_error_if(
        result,
        repeated,
        CheckErrorMessage::DuplicatedName { name: f.name.name }.with_pos(f.name.position),
    );
    check_reserved_name(&f.name, result);
    let named = f.ty.unwrapped_type();
    let ghost before = views(result@);
    match inout_kind_of_type(definitions, named.name.name) {
        Some(k) => {
            push_error_if(
                result,
                !k.is_output_type(),
                CheckErrorMessage::NoInputType { name: named.name.name }.with_pos(
                    *f.ty.position(),
                ),
            );
        },
        None => {
            if object {
                push_error(
                    result,
                    CheckErrorMessage::UnknownType { name: named.name.name }.with_pos(
                        *f.ty.position(),
                    ),
                );
            } else {
                assert(views(result@) =~= views(result@) + Seq::empty());
            }
        },
    }
    assert(views(result@) == before + (if object {
        object_field_type_errors(definitions@, *f)
    } else {
        interface_field_type_errors(definitions@, *f)
    }));
    check_optional_arguments_definition(&f.arguments, definitions, result);
    assert(views(result@) =~= r0 + field_errors(definitions@, object, fields@, i as int));
}

fn check_fields<'a>(
    object: bool,
    fields: &'a [FieldDefinition<'a>],
    definitions: &'a Vec<TypeSystemDefinition<'a>>,
    result: &mut Vec<CheckError<'a>>,
)
    ensures
        views(final(result)@) == views(old(result)@) + fields_upto(
            definitions@,
            object,
            fields@,
            fields@.len(),
        ),
{
    let ghost r0 = views(result@);
    let mut i: usize = 0;
    while i < fields.len()
        invariant
            i <= fields@.len(),
            views(result@) == r0 + fields_upto(definitions@, object, fields@, i as nat),
        decreases fields@.len() - i,
    {
        check_field(object, fields, i, definitions, result);
        assert(views(result@) =~= r0 + fields_upto(definitions@, object, fields@, (i + 1) as nat));
        i += 1;
    }
}

fn check_implemented<'a>(
    interface: bool,
    name: &'a Ident<'a>,
    fields: &'a [FieldDefinition<'a>],
    implements: &'a [Ident<'a>],
    definitions: &'a Vec<TypeSystemDefinition<'a>>,
    result: &mut Vec<CheckError<'a>>,
)
    ensures
        views(final(result)@) == views(old(result)@) + implemented_upto(
            definitions@,
            interface,
            *name,
            fields@,
            implements@,
            implements@.len(),
        ),
{
    let ghost r0 = views(result@);
    let mut i: usize = 0;
    while i < implements.len()
        invariant
            i <= implements@.len(),
            views(result@) == r0 + implemented_upto(
                definitions@,
                interface,
                *name,
                fields@,
                implements@,
                i as nat,
            ),
        decreases implements@.len() - i,
    {
        let other = &implements[i];
        if interface && crate::ast::base::str_eq(name.name, other.name) {
            push_error(result, CheckErrorMessage::NoImplementSelf.with_pos(other.position));
        } else {
            match find_type(definitions, other.name) {
                None => {
                    push_error(
                        result,
                        CheckErrorMessage::UnknownType { name: other.name }.with_pos(
                            other.position,
                        ),
                    );
                },
                Some(TypeDefinition::Interface(def)) => {
                    check_valid_implementation(definitions, name, fields, implements, def, result);
                },
                Some(_) => {
                    push_error(
                        result,
                        CheckErrorMessage::NotInterface { name: other.name }.with_pos(
                            other.position,
                        ),
                    );
                },
            }
        }
        assert(views(result@) =~= r0 + implemented_upto(
            definitions@,
            interface,
            *name,
            fields@,
            implements@,
            (i + 1) as nat,
        ));
        i += 1;
    }
}

fn check_object<'a>(
    object: &'a ObjectTypeDefinition<'a>,
    definitions: &'a Vec<TypeSystemDefinition<'a>>,
    result: &mut Vec<CheckError<'a>>,
)
    ensures
        views(final(result)@) == views(old(result)@) + spec_object_errors(definitions@, *object),
{
    let ghost r0 = views(result@);
    check_reserved_name(&object.name, result);
    check_directives(definitions, None, object.directives.as_slice(), "OBJECT", result);
    check_fields(true, object.fields.as_slice(), definitions, result);
    check_implemented(
        false,
        &object.name,
        object.fields.as_slice(),
        object.implements.as_slice(),
        definitions,
        result,
    );
    assert(views(result@) =~= r0 + spec_object_errors(definitions@, *object));
}

fn check_interface<'a>(
    interface: &'a InterfaceTypeDefinition<'a>,
    definitions: &'a Vec<TypeSystemDefinition<'a>>,
    result: &mut Vec<CheckError<'a>>,
)
    ensures
        views(final(result)@) == views(old(result)@) + spec_interface_errors(
            definitions@,
            *interface,
        ),
{
    let ghost r0 = views(result@);
    check_reserved_name(&interface.name, result);
    check_directives(definitions, None, interface.directives.as_slice(), "INTERFACE", result);
    check_fields(false, interface.fields.as_slice(), definitions, result);
    check_implemented(
        true,
        &interface.name,
        interface.fields.as_slice(),
        interface.implements.as_slice(),
        definitions,
        result,
    );
    assert(views(result@) =~= r0 + spec_interface_errors(definitions@, *interface));
}

fn check_union<'a>(
    union: &'a UnionTypeDefinition<'a>,
    definitions: &'a Vec<TypeSystemDefinition<'a>>,
    result: &mut Vec<CheckError<'a>>,
)
    ensures
        views(final(result)@) == views(old(result)@) + spec_union_errors(definitions@, *union),
{
    let ghost r0 = views(result@);
    check_reserved_name(&union.name, result);
    check_directives(definitions, None, union.directives.as_slice(), "UNION", result);
    let ghost r1 = views(result@);
    let members = union.members.as_slice();
    let mut i: usize = 0;
    while i < members.len()
        invariant
            i <= members@.len(),
            members@ == union.members@,
            views(result@) == r1 + union_members_upto(definitions@, members@, i as nat),
        decreases members@.len() - i,
    {
        let member = &members[i];
        let repeated = occurs_before(members, i);
        push_error_if(
            result,
            repeated,
            CheckErrorMessage::DuplicatedName { name: member.name }.with_pos(member.position),
        );
        // The member types of a Union type must all be Object base types;
        match find_type(definitions, member.name) {
            None => {
                push_error(
                    result,
                    CheckErrorMessage::UnknownType { name: member.name }.with_pos(member.position),
                );
            },
            Some(TypeDefinition::Object(_)) => {
                assert(views(result@) =~= views(result@) + Seq::empty());
            },
            Some(_) => {
                push_error(
                    result,
                    CheckErrorMessage::NonObjectTypeUnionMember { member_name: member.name }.with_pos(
                        member.position,
                    ),
                );
            },
        }
        assert(views(result@) =~= r1 + union_members_upto(definitions@, members@, (i + 1) as nat));
        i += 1;
    }
    assert(views(result@) =~= r0 + spec_union_errors(definitions@, *union));
}

fn check_enum<'a>(
    enum_def: &'a EnumTypeDefinition<'a>,
    definitions: &'a Vec<TypeSystemDefinition<'a>>,
    result: &mut Vec<CheckError<'a>>,
)
    ensures
        views(final(result)@) == views(old(result)@) + spec_enum_errors(definitions@, *enum_def),
{
    let ghost r0 = views(result@);
    check_reserved_name(&enum_def.name, result);
    check_directives(definitions, None, enum_def.directives.as_slice(), "ENUM", result);
    let ghost r1 = views(result@);
    let values = enum_def.values.as_slice();
    let mut i: usize = 0;
    while i < values.len()
        invariant
            i <= values@.len(),
            values@ == enum_def.values@,
            views(result@) == r1 + enum_values_upto(definitions@, values@, i as nat),
        decreases values@.len() - i,
    {
        let v = &values[i];
        let repeated = occurs_before(values, i);
        push_error_if(
            result,
            repeated,
            CheckErrorMessage::DuplicatedName { name: v.name.name }.with_pos(v.name.position),
        );
        check_directives(definitions, None, v.directives.as_slice(), "ENUM_VALUE", result);
        assert(views(result@) =~= r1 + enum_values_upto(definitions@, values@, (i + 1) as nat));
        i += 1;
    }
    assert(views(result@) =~= r0 + spec_enum_errors(definitions@, *enum_def));
}

fn check_input_object<'a>(
    input: &'a InputObjectTypeDefinition<'a>,
    definitions: &'a Vec<TypeSystemDefinition<'a>>,
    result: &mut Vec<CheckError<'a>>,
)
    ensures
        views(final(result)@) == views(old(result)@) + spec_input_object_errors(
            definitions@,
            *input,
        ),
{
    let ghost r0 = views(result@);
    check_reserved_name(&input.name, result);
    check_directives(definitions, None, input.directives.as_slice(), "INPUT_OBJECT", result);
    let ghost r1 = views(result@);
    let fields = input.fields.as_slice();
    let mut i: usize = 0;
    while i < fields.len()
        invariant
            i <= fields@.len(),
            fields@ == input.fields@,
            views(result@) == r1 + input_fields_upto(definitions@, fields@, i as nat),
        decreases fields@.len() - i,
    {
        let f = &fields[i];
        let repeated = occurs_before(fields, i);
        push_error_if(
            result,
            repeated,
            CheckErrorMessage::DuplicatedName { name: f.name.name }.with_pos(f.name.position),
        );
        check_reserved_name(&f.name, result);
        check_directives(
            definitions,
            None,
            f.directives.as_slice(),
            "INPUT_FIELD_DEFINITION",
            result,
        );
        check_input_type(f, definitions, result);
        assert(views(result@) =~= r1 + input_fields_upto(definitions@, fields@, (i + 1) as nat));
        i += 1;
    }
    assert(views(result@) =~= r0 + spec_input_object_errors(definitions@, *input));
}


/// Whether a message is about the type of an argument or input field.
pub open spec fn is_type_use_message(m: CheckErrorMessage) -> bool {
    m is NoOutputType || m is NoInputType || m is UnknownType
}

/// An argument definition gets a diagnostic about its type exactly when that type is not
/// an input type: none where its named type is defined as a scalar, an enum or an input
/// object; `NoOutputType` naming the type where it is defined as an object, interface or
/// union type; `UnknownType` naming it where it is not defined.
pub proof fn law_argument_type_must_be_input<'a>(
    defs: Seq<TypeSystemDefinition<'a>>,
    vs: Seq<InputValueDefinition<'a>>,
    k: int,
)
    requires
        0 <= k < vs.len(),
    ensures
        ({
            let errs = argument_definition_errors(defs, vs, k);
            let named = vs[k].ty.spec_unwrapped().name;
            &&& (match spec_find_type(defs, named.name@) {
                Some(TypeDefinition::Scalar(_)) | Some(TypeDefinition::Enum(_)) | Some(
                    TypeDefinition::InputObject(_),
                ) => forall|j: int| 0 <= j < errs.len() ==> !is_type_use_message(#[trigger] errs[j].message),
                Some(_) => exists|j: int|
                    0 <= j < errs.len() && (#[trigger] errs[j]).message
                        == CheckErrorMessage::NoOutputType { name: named.name },
                None => exists|j: int|
                    0 <= j < errs.len() && (#[trigger] errs[j]).message
                        == CheckErrorMessage::UnknownType { name: named.name },
            })
        }),
{
    let v = vs[k];
    let named = v.ty.spec_unwrapped().name;
    let a = reserved_name_errors(v.name);
    let b = duplicate_errors(repeats_earlier(vs, k), v.name);
    let c = input_type_errors(defs, v);
    let d = located_directive_errors(defs, v.directives@, "ARGUMENT_DEFINITION"@);
    let errs = argument_definition_errors(defs, vs, k);
    assert(errs == a + b + c + d);
    lemma_directive_messages(defs, None, v.directives@, "ARGUMENT_DEFINITION"@);
    assert(all_directive_messages(d));
    match spec_find_type(defs, named.name@) {
        Some(TypeDefinition::Scalar(_)) | Some(TypeDefinition::Enum(_)) | Some(
            TypeDefinition::InputObject(_),
        ) => {
            assert(c.len() == 0);
            assert forall|j: int| 0 <= j < errs.len() implies !is_type_use_message(#[trigger] errs[j].message) by {
                if j < a.len() {
                    assert(errs[j] == a[j]);
                } else if j < a.len() + b.len() {
                    assert(errs[j] == b[j - a.len()]);
                } else {
                    assert(errs[j] == d[j - a.len() - b.len()]);
                }
            }
        },
        Some(_) => {
            assert(errs[(a.len() + b.len()) as int] == c[0]);
        },
        None => {
            assert(errs[(a.len() + b.len()) as int] == c[0]);
        },
    }
}

} // verus!
