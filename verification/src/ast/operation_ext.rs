//! Non-standard extension to the GraphQL syntax: imports between operation documents.

use vstd::prelude::*;

use super::base::{HasPos, Ident, Pos};
use super::operation::{FragmentDefinition, OperationDefinition};
use super::value::StringValue;

verus! {

#[derive(Debug)]
pub struct OperationDocumentExt<'a> {
    pub definitions: Vec<ExecutableDefinitionExt<'a>>,
}

#[derive(Debug)]
pub enum ExecutableDefinitionExt<'a> {
    OperationDefinition(OperationDefinition<'a>),
    FragmentDefinition(FragmentDefinition<'a>),
    Import(ImportDefinition<'a>),
}

#[derive(Debug)]
pub struct ImportDefinition<'a> {
    pub position: Pos,
    pub targets: Vec<ImportTarget<'a>>,
    pub path: StringValue,
}

impl HasPos for ImportDefinition<'_> {
    fn position(&self) -> (r: &Pos)
        ensures
            *r == self.position,
    {
        &self.position
    }

    fn name(&self) -> (r: Option<&str>)
        ensures
            r is None,
    {
        None
    }
}

#[derive(Clone, Debug)]
pub enum ImportTarget<'a> {
    Wildcard,
    Name(Ident<'a>),
}

} // verus!
