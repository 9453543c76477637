//! Tokens that always carry a name.

use vstd::prelude::*;

use super::base::{Ident, Keyword, Pos};

verus! {

/// Knows its start and content.
pub trait HasSpan {
    fn position(&self) -> &Pos;

    fn name(&self) -> &str;
}

impl HasSpan for Ident<'_> {
    fn position(&self) -> (r: &Pos)
        ensures
            *r == self.position,
    {
        &self.position
    }

    fn name(&self) -> (r: &str)
        ensures
            r@ == self.name@,
    {
        self.name
    }
}

impl HasSpan for Keyword<'_> {
    fn position(&self) -> (r: &Pos)
        ensures
            *r == self.position,
    {
        &self.position
    }

    fn name(&self) -> (r: &str)
        ensures
            r@ == self.name@,
    {
        self.name
    }
}

} // verus!
