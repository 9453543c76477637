//! Whether an object or interface validly implements an interface.

use vstd::prelude::*;

use crate::ast::base::Ident;
use crate::ast::type_system::{
    FieldDefinition, InputValueDefinition, InterfaceTypeDefinition, TypeSystemDefinition,
};

use crate::checker::common::{argument_definitions, defined_arguments};
use crate::checker::error::{
    err, err_if, push_error, push_error_if, views, CheckError, CheckErrorMessage, CheckErrorView,
};
use crate::checker::named::{contains_named, find_named, first_named, has_named};
use crate::checker::types::{is_subtype, spec_is_subtype};

verus! {

/// Interfaces that the implemented interface implements and the implementing type does not
/// declare, among the first `n`.
pub open spec fn missing_interfaces_upto<'a>(
    object_name: Ident<'a>,
    implements: Seq<Ident<'a>>,
    required: Seq<Ident<'a>>,
    n: nat,
) -> Seq<CheckErrorView<'a>>
    decreases n,
{
    if n == 0 {
        Seq::empty()
    } else {
        let imp = required[n - 1];
        missing_interfaces_upto(object_name, implements, required, (n - 1) as nat) + err_if(
            !has_named(implements, imp.name@),
            err(object_name.position, CheckErrorMessage::InterfaceNotImplemented { name: imp.name }),
        )
    }
}

/// Diagnostics of one argument of the interface field, against the arguments of the
/// implementing field: it must be declared there, with the same type.
pub open spec fn interface_argument_errors<'a>(
    interface_name: Ident<'a>,
    field: FieldDefinition<'a>,
    imp_arg: InputValueDefinition<'a>,
) -> Seq<CheckErrorView<'a>> {
    let field_args = defined_arguments(field.arguments);
    match first_named(field_args, imp_arg.name.name@) {
        None => seq![
            err(
                field.name.position,
                CheckErrorMessage::InterfaceArgumentNotImplemented {
                    argument_name: imp_arg.name.name,
                    interface_name: interface_name.name,
                },
            ),
        ],
        Some(j) => err_if(
            !field_args[j].ty.spec_same(imp_arg.ty),
            err(
                field_args[j].name.position,
                CheckErrorMessage::ArgumentTypeMisMatchWithInterface {
                    interface_name: interface_name.name,
                },
            ),
        ),
    }
}

/// Diagnostics of the first `n` arguments of the interface field.
pub open spec fn interface_arguments_upto<'a>(
    interface_name: Ident<'a>,
    field: FieldDefinition<'a>,
    imp_args: Seq<InputValueDefinition<'a>>,
    n: nat,
) -> Seq<CheckErrorView<'a>>
    decreases n,
{
    if n == 0 {
        Seq::empty()
    } else {
        interface_arguments_upto(interface_name, field, imp_args, (n - 1) as nat)
            + interface_argument_errors(interface_name, field, imp_args[n - 1])
    }
}

/// Diagnostics of the first `n` arguments of the implementing field: one that the interface
/// field does not declare must not be non-null.
pub open spec fn extra_arguments_upto<'a>(
    interface_name: Ident<'a>,
    field_args: Seq<InputValueDefinition<'a>>,
    imp_args: Seq<InputValueDefinition<'a>>,
    n: nat,
) -> Seq<CheckErrorView<'a>>
    decreases n,
{
    if n == 0 {
        Seq::empty()
    } else {
        let a = field_args[n - 1];
        extra_arguments_upto(interface_name, field_args, imp_args, (n - 1) as nat) + err_if(
            !has_named(imp_args, a.name.name@) && a.ty is NonNull,
            err(
                a.name.position,
                CheckErrorMessage::ArgumentTypeNonNullAgainstInterface {
                    interface_name: interface_name.name,
                },
            ),
        )
    }
}

/// Diagnostics of one field of the interface against the implementing type's fields.
pub open spec fn interface_field_errors<'a>(
    defs: Seq<TypeSystemDefinition<'a>>,
    object_name: Ident<'a>,
    fields: Seq<FieldDefinition<'a>>,
    interface_name: Ident<'a>,
    imp_field: FieldDefinition<'a>,
) -> Seq<CheckErrorView<'a>> {
    match first_named(fields, imp_field.name.name@) {
        None => seq![
            err(
                object_name.position,
                CheckErrorMessage::InterfaceFieldNotImplemented {
                    field_name: imp_field.name.name,
                    interface_name: interface_name.name,
                },
            ),
        ],
        Some(j) => {
            let field = fields[j];
            let imp_args = defined_arguments(imp_field.arguments);
            let field_args = defined_arguments(field.arguments);
            interface_arguments_upto(interface_name, field, imp_args, imp_args.len())
                + extra_arguments_upto(interface_name, field_args, imp_args, field_args.len())
                + err_if(
                spec_is_subtype(defs, field.ty, imp_field.ty) == Some(false),
                err(
                    field.name.position,
                    CheckErrorMessage::FieldTypeMisMatchWithInterface {
                        interface_name: interface_name.name,
                    },
                ),
            )
        },
    }
}

/// Diagnostics of the first `n` fields of the interface.
pub open spec fn interface_fields_upto<'a>(
    defs: Seq<TypeSystemDefinition<'a>>,
    object_name: Ident<'a>,
    fields: Seq<FieldDefinition<'a>>,
    interface: InterfaceTypeDefinition<'a>,
    n: nat,
) -> Seq<CheckErrorView<'a>>
    decreases n,
{
    if n == 0 {
        Seq::empty()
    } else {
        interface_fields_upto(defs, object_name, fields, interface, (n - 1) as nat)
            + interface_field_errors(defs, object_name, fields, interface.name, interface.fields@[n - 1])
    }
}

/// Diagnostics of a type with the given name, fields and implemented interfaces, as an
/// implementation of an interface: the interfaces that the interface implements must be
/// declared too; every field of the interface must be there, with every argument of the
/// same type, with no further non-null argument, and with a type that is a subtype of the
/// interface field's type.
pub open spec fn spec_valid_implementation_errors<'a>(
    defs: Seq<TypeSystemDefinition<'a>>,
    object_name: Ident<'a>,
    fields: Seq<FieldDefinition<'a>>,
    implements: Seq<Ident<'a>>,
    interface: InterfaceTypeDefinition<'a>,
) -> Seq<CheckErrorView<'a>> {
    missing_interfaces_upto(object_name, implements, interface.implements@, interface.implements@.len())
        + interface_fields_upto(defs, object_name, fields, interface, interface.fields@.len())
}

fn check_interface_arguments<'a>(
    interface_name: &'a Ident<'a>,
    field: &'a FieldDefinition<'a>,
    imp_args: &'a [InputValueDefinition<'a>],
    result: &mut Vec<CheckError<'a>>,
)
    ensures
        views(final(result)@) == views(old(result)@) + interface_arguments_upto(
            *interface_name,
            *field,
            imp_args@,
            imp_args@.len(),
        ),
{
    let ghost r0 = views(result@);
    let field_args = argument_definitions(&field.arguments);
    let mut i: usize = 0;
    while i < imp_args.len()
        invariant
            i <= imp_args@.len(),
            field_args@ == defined_arguments(field.arguments),
            views(result@) == r0 + interface_arguments_upto(
                *interface_name,
                *field,
                imp_args@,
                i as nat,
            ),
        decreases imp_args@.len() - i,
    {
        let imp_arg = &imp_args[i];
        match find_named(field_args, imp_arg.name.name) {
            None => {
                push_error(
                    result,
                    CheckErrorMessage::InterfaceArgumentNotImplemented {
                        argument_name: imp_arg.name.name,
                        interface_name: interface_name.name,
                    }.with_pos(field.name.position),
                );
            },
            Some(j) => {
                let field_arg = &field_args[j];
                push_error_if(
                    result,
                    !field_arg.ty.is_same(&imp_arg.ty),
                    CheckErrorMessage::ArgumentTypeMisMatchWithInterface {
                        interface_name: interface_name.name,
                    }.with_pos(field_arg.name.position),
                );
            },
        }
        i += 1;
    }
}

fn check_extra_arguments<'a>(
    interface_name: &'a Ident<'a>,
    field_args: &'a [InputValueDefinition<'a>],
    imp_args: &'a [InputValueDefinition<'a>],
    result: &mut Vec<CheckError<'a>>,
)
    ensures
        views(final(result)@) == views(old(result)@) + extra_arguments_upto(
            *interface_name,
            field_args@,
            imp_args@,
            field_args@.len(),
        ),
{
    let ghost r0 = views(result@);
    let mut i: usize = 0;
    while i < field_args.len()
        invariant
            i <= field_args@.len(),
            views(result@) == r0 + extra_arguments_upto(
                *interface_name,
                field_args@,
                imp_args@,
                i as nat,
            ),
        decreases field_args@.len() - i,
    {
        let field_arg = &field_args[i];
        let declared = contains_named(imp_args, field_arg.name.name);
        push_error_if(
            result,
            !declared && field_arg.ty.is_nonnull(),
            CheckErrorMessage::ArgumentTypeNonNullAgainstInterface {
                interface_name: interface_name.name,
            }.with_pos(field_arg.name.position),
        );
        i += 1;
    }
}

/// Checks if given object or interface validly implements given interface.
/// https://spec.graphql.org/draft/#IsValidImplementation()
pub fn check_valid_implementation<'a>(
    definitions: &'a Vec<TypeSystemDefinition<'a>>,
    object_name: &'a Ident<'a>,
    fields: &'a [FieldDefinition<'a>],
    implements: &'a [Ident<'a>],
    interface: &'a InterfaceTypeDefinition<'a>,
    result: &mut Vec<CheckError<'a>>,
)
    ensures
        views(final(result)@) == views(old(result)@) + spec_valid_implementation_errors(
            definitions@,
            *object_name,
            fields@,
            implements@,
            *interface,
        ),
{
    let ghost r0 = views(result@);
    // If implementedType declares it implements any interfaces, type must also declare it implements those interfaces.
    let mut i: usize = 0;
    while i < interface.implements.len()
        invariant
            i <= interface.implements@.len(),
            views(result@) == r0 + missing_interfaces_upto(
                *object_name,
                implements@,
                interface.implements@,
                i as nat,
            ),
        decreases interface.implements@.len() - i,
    {
        let imp = &interface.implements[i];
        push_error_if(
            result,
            !contains_named(implements, imp.name),
            CheckErrorMessage::InterfaceNotImplemented { name: imp.name }.with_pos(
                object_name.position,
            ),
        );
        i += 1;
    }
    let ghost r1 = views(result@);
    // type must include a field of the same name for every field defined in implementedType.
    let mut k: usize = 0;
    while k < interface.fields.len()
        invariant
            k <= interface.fields@.len(),
            views(result@) == r1 + interface_fields_upto(
                definitions@,
                *object_name,
                fields@,
                *interface,
                k as nat,
            ),
        decreases interface.fields@.len() - k,
    {
        let imp_field = &interface.fields[k];
        let ghost before = views(result@);
        match find_named(fields, imp_field.name.name) {
            None => {
                push_error(
                    result,
                    CheckErrorMessage::InterfaceFieldNotImplemented {
                        field_name: imp_field.name.name,
                        interface_name: interface.name.name,
                    }.with_pos(object_name.position),
                );
            },
            Some(j) => {
                let field = &fields[j];
                let imp_args = argument_definitions(&imp_field.arguments);
                // field must include an argument of the same name for every argument defined in implementedField.
                check_interface_arguments(&interface.name, field, imp_args, result);
                // any additional argument must not be required, e.g. must not be of a non-nullable type.
                check_extra_arguments(
                    &interface.name,
                    argument_definitions(&field.arguments),
                    imp_args,
                    result,
                );
                // field must return a type which is equal to or a sub-type of the return type of implementedField.
                let mismatch = match is_subtype(definitions, &field.ty, &imp_field.ty) {
                    Some(false) => true,
                    _ => false,
                };
                push_error_if(
                    result,
                    mismatch,
                    CheckErrorMessage::FieldTypeMisMatchWithInterface {
                        interface_name: interface.name.name,
                    }.with_pos(field.name.position),
                );
            },
        }
        assert(views(result@) =~= r1 + interface_fields_upto(
            definitions@,
            *object_name,
            fields@,
            *interface,
            (k + 1) as nat,
        ));
        k += 1;
    }
}

} // verus!
