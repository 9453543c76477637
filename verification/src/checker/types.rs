//! Input and output kinds of types, and the subtype relation between type references.

use vstd::prelude::*;

use crate::ast::base::{str_eq, Ident};
use crate::ast::type_system::{TypeDefinition, TypeSystemDefinition};
use crate::ast::types::Type;

use super::definitions::{find_type, spec_find_type};

verus! {

#[derive(Copy, Clone, PartialEq, Eq, Debug, Structural)]
pub enum TypeInOutKind {
    Input,
    Output,
    Both,
}

impl TypeInOutKind {
    /// Input kinds are input only or both.
    pub open spec fn spec_is_input(self) -> bool {
        self is Input || self is Both
    }

    /// Output kinds are output only or both.
    pub open spec fn spec_is_output(self) -> bool {
        self is Output || self is Both
    }

    /// Whether a type of this kind may be used as an input.
    pub fn is_input_type(self) -> (r: bool)
        ensures
            r == self.spec_is_input(),
    {
        match self {
            TypeInOutKind::Input | TypeInOutKind::Both => true,
            TypeInOutKind::Output => false,
        }
    }

    /// Whether a type of this kind may be used as an output.
    pub fn is_output_type(self) -> (r: bool)
        ensures
            r == self.spec_is_output(),
    {
        match self {
            TypeInOutKind::Output | TypeInOutKind::Both => true,
            TypeInOutKind::Input => false,
        }
    }
}

/// Scalars and enums are both input and output types; objects, interfaces and unions
/// are output types; input objects are input types.
pub open spec fn kind_of_definition(t: TypeDefinition) -> TypeInOutKind {
    match t {
        TypeDefinition::Scalar(_) => TypeInOutKind::Both,
        TypeDefinition::Object(_) => TypeInOutKind::Output,
        TypeDefinition::Interface(_) => TypeInOutKind::Output,
        TypeDefinition::Union(_) => TypeInOutKind::Output,
        TypeDefinition::Enum(_) => TypeInOutKind::Both,
        TypeDefinition::InputObject(_) => TypeInOutKind::Input,
    }
}

/// The kind of the type with a given name; none for an unknown type.
pub open spec fn spec_inout_kind<'a>(defs: Seq<TypeSystemDefinition<'a>>, name: Seq<char>) -> Option<
    TypeInOutKind,
> {
    match spec_find_type(defs, name) {
        Some(t) => Some(kind_of_definition(t)),
        None => None,
    }
}

/// classifies given type into output, input or both.
pub fn inout_kind_of_type<'a>(definitions: &Vec<TypeSystemDefinition<'a>>, name: &str) -> (r:
    Option<TypeInOutKind>)
    ensures
        r == spec_inout_kind(definitions@, name@),
{
    match find_type(definitions, name) {
        None => None,
        Some(def) => Some(
            match def {
                TypeDefinition::Scalar(_) => TypeInOutKind::Both,
                TypeDefinition::Object(_) => TypeInOutKind::Output,
                TypeDefinition::Interface(_) => TypeInOutKind::Output,
                TypeDefinition::Union(_) => TypeInOutKind::Output,
                TypeDefinition::Enum(_) => TypeInOutKind::Both,
                TypeDefinition::InputObject(_) => TypeInOutKind::Input,
            },
        ),
    }
}

/// Whether some identifier of a list has a given name.
pub open spec fn names_contain(ids: Seq<Ident>, name: Seq<char>) -> bool {
    exists|i: int| 0 <= i < ids.len() && #[trigger] ids[i].name@ == name
}

/// Whether some identifier of a list has the given name.
pub fn idents_contain(ids: &Vec<Ident>, name: &str) -> (r: bool)
    ensures
        r == names_contain(ids@, name@),
{
    let mut i: usize = 0;
    while i < ids.len()
        invariant
            i <= ids@.len(),
            forall|j: int| 0 <= j < i ==> ids@[j].name@ != name@,
        decreases ids@.len() - i,
    {
        if str_eq(ids[i].name, name) {
            return true;
        }
        i += 1;
    }
    false
}

/// Whether a named type is a subtype of another type reference, or none where an
/// unknown type leaves it open. A type is a subtype of itself; an object is a subtype
/// of the interfaces it implements and of the unions it is a member of; an interface
/// is a subtype of the interfaces it implements. A non-null type is a subtype of what
/// its inner type is a subtype of, with or without non-null; lists compare their items.
pub open spec fn spec_is_subtype<'a>(
    defs: Seq<TypeSystemDefinition<'a>>,
    target: Type<'a>,
    other: Type<'a>,
) -> Option<bool>
    decreases target,
{
    match target {
        Type::NonNull(t) => {
            let o = match other {
                Type::NonNull(o) => o.ty,
                _ => other,
            };
            spec_is_subtype(defs, t.ty, o)
        },
        Type::List(t) => match other {
            Type::List(o) => spec_is_subtype(defs, t.ty, o.ty),
            _ => Some(false),
        },
        Type::Named(tn) => {
            let same = other matches Type::Named(on) && tn.name.name@ == on.name.name@;
            if same {
                Some(true)
            } else {
                match spec_find_type(defs, tn.name.name@) {
                    None => None,
                    Some(target_def) => match other {
                        Type::Named(on) => {
                            let other_def = spec_find_type(defs, on.name.name@);
                            match target_def {
                                TypeDefinition::Interface(i) => if names_contain(
                                    i.implements@,
                                    on.name.name@,
                                ) {
                                    Some(true)
                                } else if other_def is Some {
                                    Some(false)
                                } else {
                                    None
                                },
                                TypeDefinition::Object(o) => if names_contain(
                                    o.implements@,
                                    on.name.name@,
                                ) {
                                    Some(true)
                                } else if other_def matches Some(TypeDefinition::Union(u))
                                    && names_contain(u.members@, tn.name.name@) {
                                    Some(true)
                                } else if other_def is Some {
                                    Some(false)
                                } else {
                                    None
                                },
                                _ => Some(false),
                            }
                        },
                        _ => Some(false),
                    },
                }
            }
        },
    }
}

/// Checks if target type is a subtype of other type.
/// Returns None if unknown.
pub fn is_subtype<'a>(
    definitions: &Vec<TypeSystemDefinition<'a>>,
    target: &Type<'a>,
    other: &Type<'a>,
) -> (r: Option<bool>)
    ensures
        r == spec_is_subtype(definitions@, *target, *other),
    decreases target,
{
    match target {
        Type::NonNull(target_inner) => {
            let other = match other {
                Type::NonNull(other_inner) => &other_inner.ty,
                _ => other,
            };
            is_subtype(definitions, &target_inner.ty, other)
        },
        Type::List(target_inner) => {
            match other {
                Type::List(other_inner) => is_subtype(definitions, &target_inner.ty, &other_inner.ty),
                _ => Some(false),
            }
        },
        Type::Named(target_name) => {
            if let Type::Named(other_name) = other {
                if str_eq(target_name.name.name, other_name.name.name) {
                    return Some(true);
                }
            }
            let target_def = match find_type(definitions, target_name.name.name) {
                None => {
                    return None;
                },
                Some(d) => d,
            };
            let other_name = match other {
                Type::Named(other_name) => other_name,
                _ => {
                    return Some(false);
                },
            };
            let other_def = find_type(definitions, other_name.name.name);
            match target_def {
                TypeDefinition::Interface(def) => {
                    if idents_contain(&def.implements, other_name.name.name) {
                        Some(true)
                    } else if other_def.is_some() {
                        Some(false)
                    } else {
                        None
                    }
                },
                TypeDefinition::Object(def) => {
                    if idents_contain(&def.implements, other_name.name.name) {
                        return Some(true);
                    }
                    if let Some(TypeDefinition::Union(u)) = other_def {
                        if idents_contain(&u.members, target_name.name.name) {
                            return Some(true);
                        }
                    }
                    if other_def.is_some() {
                        Some(false)
                    } else {
                        None
                    }
                },
                _ => Some(false),
            }
        },
    }
}

/// A type reference is a subtype of itself, whatever the definitions.
pub proof fn law_subtype_reflexive<'a>(defs: Seq<TypeSystemDefinition<'a>>, t: Type<'a>)
    ensures
        spec_is_subtype(defs, t, t) == Some(true),
    decreases t,
{
    match t {
        Type::NonNull(n) => {
            law_subtype_reflexive(defs, n.ty);
        },
        Type::List(l) => {
            law_subtype_reflexive(defs, l.ty);
        },
        Type::Named(_) => {},
    }
}

/// A non-null type is a subtype of its nullable inner type.
pub proof fn law_non_null_subtype_of_inner<'a>(
    defs: Seq<TypeSystemDefinition<'a>>,
    t: Type<'a>,
)
    requires
        t is NonNull,
    ensures
        spec_is_subtype(defs, t, t->NonNull_0.ty) == Some(true),
    decreases t,
{
    let inner = t->NonNull_0.ty;
    law_subtype_reflexive(defs, inner);
    match inner {
        Type::NonNull(_) => {
            law_non_null_subtype_of_inner(defs, inner);
        },
        _ => {},
    }
}

} // verus!
