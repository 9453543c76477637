//! Variables and variable definitions of operations.

use vstd::prelude::*;

use super::base::{opt_str_view, HasPos, Pos};
use super::directive::Directive;
use super::types::Type;
use super::value::Value;

verus! {

/// Variable token.
#[derive(Copy, Clone, Debug)]
pub struct Variable<'a> {
    /// Variable name that does not include '$'
    pub name: &'a str,
    /// Position of '$'
    pub position: Pos,
}

impl HasPos for Variable<'_> {
    fn position(&self) -> (r: &Pos)
        ensures
            *r == self.position,
    {
        &self.position
    }

    fn name(&self) -> (r: Option<&str>)
        ensures
            opt_str_view(r) == Some(self.name@),
    {
        Some(self.name)
    }
}

/// The parenthesized list of variable definitions of an operation.
#[derive(Debug)]
pub struct VariablesDefinition<'a> {
    pub position: Pos,
    pub definitions: Vec<VariableDefinition<'a>>,
}

/// One variable definition such as `$id: ID! = "1"`.
#[derive(Debug)]
pub struct VariableDefinition<'a> {
    pub pos: Pos,
    pub name: Variable<'a>,
    pub ty: Type<'a>,
    pub default_value: Option<Value<'a>>,
    pub directives: Vec<Directive<'a>>,
}

} // verus!
