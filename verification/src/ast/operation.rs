//! Executable documents: operations and fragments.

use vstd::prelude::*;

use super::base::{opt_str_view, HasPos, Ident, NamePos, Pos};
use super::directive::Directive;
use super::selection_set::SelectionSet;
use super::variable::VariablesDefinition;

verus! {

#[derive(Copy, Clone, PartialEq, Eq, Debug, Structural)]
pub enum OperationType {
    Query,
    Mutation,
    Subscription,
}

impl OperationType {
    /// The keyword of an operation type.
    pub open spec fn spec_str(self) -> Seq<char> {
        match self {
            OperationType::Query => "query"@,
            OperationType::Mutation => "mutation"@,
            OperationType::Subscription => "subscription"@,
        }
    }

    /// Returns the keyword of this operation type.
    pub fn as_str(&self) -> (r: &'static str)
        ensures
            r@ == self.spec_str(),
    {
        match self {
            OperationType::Query => "query",
            OperationType::Mutation => "mutation",
            OperationType::Subscription => "subscription",
        }
    }
}

#[derive(Debug)]
pub enum ExecutableDefinition<'a> {
    OperationDefinition(OperationDefinition<'a>),
    FragmentDefinition(FragmentDefinition<'a>),
}

impl<'a> ExecutableDefinition<'a> {
    /// Name of a definition: the operation name if any, or the fragment name.
    pub open spec fn spec_name(self) -> Option<Seq<char>> {
        match self {
            ExecutableDefinition::OperationDefinition(def) => match def.name {
                Some(n) => Some(n.name@),
                None => None,
            },
            ExecutableDefinition::FragmentDefinition(def) => Some(def.name.name@),
        }
    }

    /// Position of a definition.
    pub open spec fn spec_position(self) -> Pos {
        match self {
            ExecutableDefinition::OperationDefinition(def) => def.position,
            ExecutableDefinition::FragmentDefinition(def) => def.position,
        }
    }
}

impl HasPos for ExecutableDefinition<'_> {
    fn name(&self) -> (r: Option<&str>)
        ensures
            opt_str_view(r) == self.spec_name(),
    {
        match self {
            ExecutableDefinition::OperationDefinition(def) => def.name(),
            ExecutableDefinition::FragmentDefinition(def) => def.name(),
        }
    }

    fn position(&self) -> (r: &Pos)
        ensures
            *r == self.spec_position(),
    {
        match self {
            ExecutableDefinition::OperationDefinition(def) => def.position(),
            ExecutableDefinition::FragmentDefinition(def) => def.position(),
        }
    }
}

#[derive(Debug)]
pub struct OperationDefinition<'a> {
    pub position: Pos,
    pub operation_type: OperationType,
    pub name: Option<Ident<'a>>,
    pub variables_definition: Option<VariablesDefinition<'a>>,
    pub directives: Vec<Directive<'a>>,
    pub selection_set: SelectionSet<'a>,
}

impl HasPos for OperationDefinition<'_> {
    fn position(&self) -> (r: &Pos)
        ensures
            *r == self.position,
    {
        &self.position
    }

    fn name(&self) -> (r: Option<&str>)
        ensures
            opt_str_view(r) == (match self.name {
                Some(n) => Some(n.name@),
                None => None,
            }),
    {
        match self.name {
            Some(name) => Some(name.name),
            None => None,
        }
    }
}

impl<'a> OperationDefinition<'a> {
    /// Returns Pos for its name: the name's own position when named, else that of the operation.
    pub fn name_pos(&self) -> (r: NamePos<'a>)
        ensures
            match self.name {
                None => r.pos == self.position && r.name is None,
                Some(n) => r.pos == n.position && opt_str_view(r.name) == Some(n.name@),
            },
    {
        match self.name {
            None => NamePos { pos: self.position, name: None },
            Some(ref name) => NamePos { pos: name.position, name: Some(name.name) },
        }
    }
}

#[derive(Debug)]
pub struct FragmentDefinition<'a> {
    pub position: Pos,
    pub name: Ident<'a>,
    pub type_condition: Ident<'a>,
    pub directives: Vec<Directive<'a>>,
    pub selection_set: SelectionSet<'a>,
}

impl HasPos for FragmentDefinition<'_> {
    fn name(&self) -> (r: Option<&str>)
        ensures
            opt_str_view(r) == Some(self.name.name@),
    {
        Some(self.name.name)
    }

    fn position(&self) -> (r: &Pos)
        ensures
            *r == self.position,
    {
        &self.position
    }
}

#[derive(Debug)]
pub struct OperationDocument<'a> {
    /// Position of document. This is the position of the first character of the document.
    /// Mainly useful for knowing the file index.
    pub position: Pos,
    pub definitions: Vec<ExecutableDefinition<'a>>,
}

} // verus!
