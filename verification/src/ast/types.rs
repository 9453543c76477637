//! Type references such as `[String!]!`.

use vstd::prelude::*;

use super::base::{str_eq, Ident, Pos};

verus! {

/// A named type reference.
#[derive(Debug)]
pub struct NamedType<'a> {
    pub name: Ident<'a>,
}

/// A list type reference.
#[derive(Debug)]
pub struct ListType<'a> {
    /// Position of `[`.
    pub position: Pos,
    pub ty: Type<'a>,
}

/// A non-null type reference.
#[derive(Debug)]
pub struct NonNullType<'a> {
    pub ty: Type<'a>,
}

/// A type reference.
#[derive(Debug)]
pub enum Type<'a> {
    Named(NamedType<'a>),
    List(Box<ListType<'a>>),
    NonNull(Box<NonNullType<'a>>),
}

impl<'a> Type<'a> {
    /// The named type at the core of this type, with all list and non-null wrappers removed.
    pub open spec fn spec_unwrapped(self) -> NamedType<'a>
        decreases self,
    {
        match self {
            Type::Named(n) => n,
            Type::List(l) => l.ty.spec_unwrapped(),
            Type::NonNull(n) => n.ty.spec_unwrapped(),
        }
    }

    /// Position of the type reference.
    pub open spec fn spec_position(self) -> Pos
        decreases self,
    {
        match self {
            Type::Named(n) => n.name.position,
            Type::List(l) => l.position,
            Type::NonNull(n) => n.ty.spec_position(),
        }
    }

    /// Structural equality of two type references by names.
    pub open spec fn spec_same(self, other: Type<'a>) -> bool
        decreases self,
    {
        match (self, other) {
            (Type::Named(a), Type::Named(b)) => a.name.name@ == b.name.name@,
            (Type::List(a), Type::List(b)) => a.ty.spec_same(b.ty),
            (Type::NonNull(a), Type::NonNull(b)) => a.ty.spec_same(b.ty),
            _ => false,
        }
    }

    /// Returns the innermost named type.
    pub fn unwrapped_type(&self) -> (r: &NamedType<'a>)
        ensures
            *r == self.spec_unwrapped(),
        decreases self,
    {
        match self {
            Type::Named(n) => n,
            Type::List(l) => l.ty.unwrapped_type(),
            Type::NonNull(n) => n.ty.unwrapped_type(),
        }
    }

    /// Returns the position of this type reference.
    pub fn position(&self) -> (r: &Pos)
        ensures
            *r == self.spec_position(),
        decreases self,
    {
        match self {
            Type::Named(n) => &n.name.position,
            Type::List(l) => &l.position,
            Type::NonNull(n) => n.ty.position(),
        }
    }

    /// Whether this is a non-null type.
    pub fn is_nonnull(&self) -> (r: bool)
        ensures
            r == (*self is NonNull),
    {
        match self {
            Type::NonNull(_) => true,
            _ => false,
        }
    }

    /// Whether two type references denote the same type.
    pub fn is_same(&self, other: &Type<'a>) -> (r: bool)
        ensures
            r == self.spec_same(*other),
        decreases self,
    {
        match (self, other) {
            (Type::Named(a), Type::Named(b)) => str_eq(a.name.name, b.name.name),
            (Type::List(a), Type::List(b)) => a.ty.is_same(&b.ty),
            (Type::NonNull(a), Type::NonNull(b)) => a.ty.is_same(&b.ty),
            _ => false,
        }
    }
}

} // verus!
