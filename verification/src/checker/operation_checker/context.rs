//! What the operation checker checks against.

use vstd::prelude::*;

use crate::ast::type_system::TypeSystemDefinition;

verus! {

/// The type system that operations are checked against.
pub struct OperationCheckContext<'a> {
    pub definitions: &'a Vec<TypeSystemDefinition<'a>>,
}

impl<'a> OperationCheckContext<'a> {
    /// Creates a context for checking operations against the given definitions.
    pub fn new(definitions: &'a Vec<TypeSystemDefinition<'a>>) -> (r: Self)
        ensures
            r.definitions == definitions,
    {
        OperationCheckContext { definitions }
    }
}

} // verus!
