//! Targets of generated TypeScript types.

use vstd::prelude::*;

verus! {

#[derive(Copy, Clone, Debug, PartialEq, Eq, Structural)]
pub enum TypeTarget {
    OperationInput,
    OperationOutput,
    ResolverInput,
    ResolverOutput,
}

impl TypeTarget {
    /// The name of a target, prefixed with `__` for use in type definitions.
    pub open spec fn spec_str(self) -> Seq<char> {
        match self {
            TypeTarget::OperationInput => "__OperationInput"@,
            TypeTarget::OperationOutput => "__OperationOutput"@,
            TypeTarget::ResolverInput => "__ResolverInput"@,
            TypeTarget::ResolverOutput => "__ResolverOutput"@,
        }
    }

    /// Output targets are the types of operation results and of resolver results.
    pub open spec fn spec_is_output(self) -> bool {
        self is OperationOutput || self is ResolverOutput
    }

    /// Returns the string representation of self.
    /// String representation is prefixed with `__` for use in type definitions.
    pub fn as_str(&self) -> (r: &'static str)
        ensures
            r@ == self.spec_str(),
    {
        match self {
            TypeTarget::OperationInput => "__OperationInput",
            TypeTarget::OperationOutput => "__OperationOutput",
            TypeTarget::ResolverInput => "__ResolverInput",
            TypeTarget::ResolverOutput => "__ResolverOutput",
        }
    }

    /// Returns whether self is an output target.
    pub fn is_output(&self) -> (r: bool)
        ensures
            r == self.spec_is_output(),
    {
        match self {
            TypeTarget::OperationOutput | TypeTarget::ResolverOutput => true,
            _ => false,
        }
    }

    /// Returns whether self is an input target.
    pub fn is_input(&self) -> (r: bool)
        ensures
            r == !self.spec_is_output(),
    {
        !self.is_output()
    }
}

/// Every target is exactly one of input and output, and its name starts with `__`.
pub proof fn law_target_input_or_output(t: TypeTarget)
    ensures
        !t.spec_is_output() <==> (t is OperationInput || t is ResolverInput),
        t.spec_str().len() >= 2 && t.spec_str()[0] == '_' && t.spec_str()[1] == '_',
{
    reveal_strlit("__OperationInput");
    reveal_strlit("__OperationOutput");
    reveal_strlit("__ResolverInput");
    reveal_strlit("__ResolverOutput");
}

} // verus!
