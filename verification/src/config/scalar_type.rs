//! TypeScript types of custom scalars as written in the config file.

use vstd::prelude::*;

use super::type_target::TypeTarget;

verus! {

/// Representation of a scalar type's TypeScript type
/// as defined in the config file.
#[derive(Debug, Clone, PartialEq, Eq)]
pub enum ScalarTypeConfig {
    /// Single specification for use in all situations.
    Single(String),
    /// Specification as a pair of send type and receive type.
    SendReceive(SendReceiveScalarTypeConfig),
    /// Specification as four diffrent types.
    Separate(SeparateScalarTypeConfig),
}

#[derive(Debug, Clone, PartialEq, Eq)]
pub struct SendReceiveScalarTypeConfig {
    pub send: String,
    pub receive: String,
}

#[derive(Debug, Clone, PartialEq, Eq)]
pub struct SeparateScalarTypeConfig {
    pub resolver_output: String,
    pub resolver_input: String,
    pub operation_output: String,
    pub operation_input: String,
}

impl ScalarTypeConfig {
    /// The TypeScript type used for a target. A send type is what the sending side
    /// writes (resolver output, operation input); a receive type is what the receiving
    /// side reads (resolver input, operation output).
    pub open spec fn spec_type(self, target: TypeTarget) -> Seq<char> {
        match self {
            ScalarTypeConfig::Single(t) => t@,
            ScalarTypeConfig::SendReceive(c) => match target {
                TypeTarget::ResolverOutput => c.send@,
                TypeTarget::ResolverInput => c.receive@,
                TypeTarget::OperationOutput => c.receive@,
                TypeTarget::OperationInput => c.send@,
            },
            ScalarTypeConfig::Separate(c) => match target {
                TypeTarget::ResolverOutput => c.resolver_output@,
                TypeTarget::ResolverInput => c.resolver_input@,
                TypeTarget::OperationOutput => c.operation_output@,
                TypeTarget::OperationInput => c.operation_input@,
            },
        }
    }

    /// All type names of a config, in declaration order.
    pub open spec fn spec_typescript_types(self) -> Seq<Seq<char>> {
        match self {
            ScalarTypeConfig::Single(t) => seq![t@],
            ScalarTypeConfig::SendReceive(c) => seq![c.send@, c.receive@],
            ScalarTypeConfig::Separate(c) => seq![
                c.resolver_output@,
                c.resolver_input@,
                c.operation_output@,
                c.operation_input@,
            ],
        }
    }

    /// Get the TypeScript type for given target.
    pub fn get_type(&self, target: TypeTarget) -> (r: &str)
        ensures
            r@ == self.spec_type(target),
    {
        match self {
            ScalarTypeConfig::Single(single) => single.as_str(),
            ScalarTypeConfig::SendReceive(config) => match target {
                TypeTarget::ResolverOutput => config.send.as_str(),
                TypeTarget::ResolverInput => config.receive.as_str(),
                TypeTarget::OperationOutput => config.receive.as_str(),
                TypeTarget::OperationInput => config.send.as_str(),
            },
            ScalarTypeConfig::Separate(config) => match target {
                TypeTarget::ResolverOutput => config.resolver_output.as_str(),
                TypeTarget::ResolverInput => config.resolver_input.as_str(),
                TypeTarget::OperationOutput => config.operation_output.as_str(),
                TypeTarget::OperationInput => config.operation_input.as_str(),
            },
        }
    }

    /// Returns all type names used in this config.
    pub fn typescript_types(&self) -> (r: Vec<&str>)
        ensures
            r@.map_values(|s: &str| s@) == self.spec_typescript_types(),
    {
        let mut v: Vec<&str> = Vec::new();
        match self {
            ScalarTypeConfig::Single(single) => {
                v.push(single.as_str());
            },
            ScalarTypeConfig::SendReceive(config) => {
                v.push(config.send.as_str());
                v.push(config.receive.as_str());
            },
            ScalarTypeConfig::Separate(config) => {
                v.push(config.resolver_output.as_str());
                v.push(config.resolver_input.as_str());
                v.push(config.operation_output.as_str());
                v.push(config.operation_input.as_str());
            },
        }
        assert(v@.map_values(|s: &str| s@) =~= self.spec_typescript_types());
        v
    }
}

/// The type that a config gives for any target is one of the config's type names.
pub proof fn law_type_of_target_is_listed(config: ScalarTypeConfig, target: TypeTarget)
    ensures
        config.spec_typescript_types().contains(config.spec_type(target)),
{
    let names = config.spec_typescript_types();
    match config {
        ScalarTypeConfig::Single(_) => {
            assert(names[0] == config.spec_type(target));
        },
        ScalarTypeConfig::SendReceive(_) => {
            match target {
                TypeTarget::ResolverOutput | TypeTarget::OperationInput => {
                    assert(names[0] == config.spec_type(target));
                },
                _ => {
                    assert(names[1] == config.spec_type(target));
                },
            }
        },
        ScalarTypeConfig::Separate(_) => {
            match target {
                TypeTarget::ResolverOutput => {
                    assert(names[0] == config.spec_type(target));
                },
                TypeTarget::ResolverInput => {
                    assert(names[1] == config.spec_type(target));
                },
                TypeTarget::OperationOutput => {
                    assert(names[2] == config.spec_type(target));
                },
                TypeTarget::OperationInput => {
                    assert(names[3] == config.spec_type(target));
                },
            }
        },
    }
}


/// Every type name of a config is the type that it gives for some target, and there are
/// one, two or four of them for a single type, a send/receive pair or four separate types.
pub proof fn law_listed_type_is_some_targets(config: ScalarTypeConfig, i: int)
    requires
        0 <= i < config.spec_typescript_types().len(),
    ensures
        exists|t: TypeTarget| config.spec_type(t) == #[trigger] config.spec_typescript_types()[i],
        config.spec_typescript_types().len() == (match config {
            ScalarTypeConfig::Single(_) => 1int,
            ScalarTypeConfig::SendReceive(_) => 2int,
            ScalarTypeConfig::Separate(_) => 4int,
        }),
{
    let names = config.spec_typescript_types();
    match config {
        ScalarTypeConfig::Single(_) => {
            assert(config.spec_type(TypeTarget::OperationInput) == names[i]);
        },
        ScalarTypeConfig::SendReceive(_) => {
            if i == 0 {
                assert(config.spec_type(TypeTarget::ResolverOutput) == names[i]);
            } else {
                assert(config.spec_type(TypeTarget::ResolverInput) == names[i]);
            }
        },
        ScalarTypeConfig::Separate(_) => {
            if i == 0 {
                assert(config.spec_type(TypeTarget::ResolverOutput) == names[i]);
            } else if i == 1 {
                assert(config.spec_type(TypeTarget::ResolverInput) == names[i]);
            } else if i == 2 {
                assert(config.spec_type(TypeTarget::OperationOutput) == names[i]);
            } else {
                assert(config.spec_type(TypeTarget::OperationInput) == names[i]);
            }
        },
    }
}

} // verus!
