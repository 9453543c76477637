//! Directive applications such as `@deprecated(reason: "...")`.

use vstd::prelude::*;

use super::base::{Ident, Pos};
use super::value::Arguments;

verus! {

/// A directive applied to a node.
#[derive(Debug)]
pub struct Directive<'a> {
    /// Position of `@`.
    pub position: Pos,
    pub name: Ident<'a>,
    pub arguments: Option<Arguments<'a>>,
}

} // verus!
