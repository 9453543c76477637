//! Selection sets of operations and fragments.

use vstd::prelude::*;

use super::base::{HasPos, Ident, Pos};
use super::directive::Directive;
use super::value::Arguments;

verus! {

#[derive(Debug)]
pub struct SelectionSet<'a> {
    pub position: Pos,
    pub selections: Vec<Selection<'a>>,
}

impl HasPos for SelectionSet<'_> {
    fn position(&self) -> (r: &Pos)
        ensures
            *r == self.position,
    {
        &self.position
    }

    fn name(&self) -> (r: Option<&str>)
        ensures
            r is None,
    {
        None
    }
}

#[derive(Debug)]
pub enum Selection<'a> {
    Field(Field<'a>),
    FragmentSpread(FragmentSpread<'a>),
    InlineFragment(InlineFragment<'a>),
}

impl<'a> Selection<'a> {
    /// Directives applied to a selection.
    pub open spec fn spec_directives(self) -> Seq<Directive<'a>> {
        match self {
            Selection::Field(f) => f.directives@,
            Selection::FragmentSpread(s) => s.directives@,
            Selection::InlineFragment(i) => i.directives@,
        }
    }

    /// Returns the directives applied to this selection.
    pub fn directives(&self) -> (r: &[Directive<'a>])
        ensures
            r@ == self.spec_directives(),
    {
        match self {
            Selection::Field(field) => field.directives.as_slice(),
            Selection::FragmentSpread(fragment_spread) => fragment_spread.directives.as_slice(),
            Selection::InlineFragment(inline_fragment) => inline_fragment.directives.as_slice(),
        }
    }
}

#[derive(Debug)]
pub struct Field<'a> {
    pub alias: Option<Ident<'a>>,
    pub name: Ident<'a>,
    pub arguments: Option<Arguments<'a>>,
    pub directives: Vec<Directive<'a>>,
    pub selection_set: Option<SelectionSet<'a>>,
}

#[derive(Debug)]
pub struct FragmentSpread<'a> {
    pub position: Pos,
    pub fragment_name: Ident<'a>,
    pub directives: Vec<Directive<'a>>,
}

#[derive(Debug)]
pub struct InlineFragment<'a> {
    pub position: Pos,
    pub type_condition: Option<Ident<'a>>,
    pub directives: Vec<Directive<'a>>,
    pub selection_set: SelectionSet<'a>,
}

} // verus!
