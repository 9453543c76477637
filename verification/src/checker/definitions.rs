//! Looking up definitions of a type system document by name.

use vstd::prelude::*;

use crate::ast::base::str_eq;
use crate::ast::type_system::{
    DirectiveDefinition, FieldDefinition, TypeDefinition, TypeSystemDefinition,
};

verus! {

/// The first type definition with a given name.
pub open spec fn spec_find_type<'a>(defs: Seq<TypeSystemDefinition<'a>>, name: Seq<char>) -> Option<
    TypeDefinition<'a>,
>
    decreases defs.len(),
{
    if defs.len() == 0 {
        None
    } else {
        match defs[0] {
            TypeSystemDefinition::TypeDefinition(t) => if t.spec_name().name@ == name {
                Some(t)
            } else {
                spec_find_type(defs.drop_first(), name)
            },
            _ => spec_find_type(defs.drop_first(), name),
        }
    }
}

/// The first directive definition with a given name.
pub open spec fn spec_find_directive<'a>(
    defs: Seq<TypeSystemDefinition<'a>>,
    name: Seq<char>,
) -> Option<DirectiveDefinition<'a>>
    decreases defs.len(),
{
    if defs.len() == 0 {
        None
    } else {
        match defs[0] {
            TypeSystemDefinition::DirectiveDefinition(d) => if d.name.name@ == name {
                Some(d)
            } else {
                spec_find_directive(defs.drop_first(), name)
            },
            _ => spec_find_directive(defs.drop_first(), name),
        }
    }
}

/// Finds the first type definition with the given name.
pub fn find_type<'d, 'a>(defs: &'d Vec<TypeSystemDefinition<'a>>, name: &str) -> (r: Option<
    &'d TypeDefinition<'a>,
>)
    ensures
        match r {
            Some(t) => spec_find_type(defs@, name@) == Some(*t),
            None => spec_find_type(defs@, name@) is None,
        },
{
    let mut i: usize = 0;
    assert(defs@.skip(0) =~= defs@);
    while i < defs.len()
        invariant
            i <= defs@.len(),
            spec_find_type(defs@, name@) == spec_find_type(defs@.skip(i as int), name@),
        decreases defs@.len() - i,
    {
        assert(defs@.skip(i as int).drop_first() =~= defs@.skip(i + 1));
        assert(defs@.skip(i as int)[0] == defs@[i as int]);
        match &defs[i] {
            TypeSystemDefinition::TypeDefinition(t) => {
                if str_eq(t.name().name, name) {
                    return Some(t);
                }
            },
            _ => {},
        }
        i += 1;
    }
    None
}

/// Finds the first directive definition with the given name.
pub fn find_directive<'d, 'a>(defs: &'d Vec<TypeSystemDefinition<'a>>, name: &str) -> (r: Option<
    &'d DirectiveDefinition<'a>,
>)
    ensures
        match r {
            Some(d) => spec_find_directive(defs@, name@) == Some(*d),
            None => spec_find_directive(defs@, name@) is None,
        },
{
    let mut i: usize = 0;
    assert(defs@.skip(0) =~= defs@);
    while i < defs.len()
        invariant
            i <= defs@.len(),
            spec_find_directive(defs@, name@) == spec_find_directive(defs@.skip(i as int), name@),
        decreases defs@.len() - i,
    {
        assert(defs@.skip(i as int).drop_first() =~= defs@.skip(i + 1));
        assert(defs@.skip(i as int)[0] == defs@[i as int]);
        match &defs[i] {
            TypeSystemDefinition::DirectiveDefinition(d) => {
                if str_eq(d.name.name, name) {
                    return Some(d);
                }
            },
            _ => {},
        }
        i += 1;
    }
    None
}

/// Fields that can be selected directly on a type: those of objects and interfaces.
/// Other types have no fields.
pub open spec fn spec_direct_fields<'a>(t: TypeDefinition<'a>) -> Option<Seq<FieldDefinition<'a>>> {
    match t {
        TypeDefinition::Object(o) => Some(o.fields@),
        TypeDefinition::Interface(i) => Some(i.fields@),
        _ => None,
    }
}

} // verus!
