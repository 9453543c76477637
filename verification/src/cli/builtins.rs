//! Built-in definitions specific to this tool.

use vstd::prelude::*;

use crate::ast::base::{str_eq, Ident, Keyword, Pos};
use crate::ast::directive::Directive;
use crate::ast::type_system::{
    ArgumentsDefinition, DirectiveDefinition, InputValueDefinition, ScalarTypeDefinition,
    TypeDefinition, TypeSystemDefinition, TypeSystemDefinitionOrExtension, TypeSystemDocument,
};
use crate::ast::types::{NamedType, NonNullType, Type};

verus! {

/// Name of the built-in directive that sets the TypeScript type of a scalar.
pub open spec fn ts_type_directive_name() -> Seq<char> {
    "nitrogql_ts_type"@
}

/// An identifier at the built-in position.
fn ident(name: &str) -> (r: Ident)
    ensures
        r.name == name,
        r.position == Pos::builtin_spec(),
{
    Ident { name, position: Pos::builtin() }
}

/// A keyword at the built-in position.
fn keyword(name: &str) -> (r: Keyword)
    ensures
        r.name == name,
        r.position == Pos::builtin_spec(),
{
    Keyword { name, position: Pos::builtin() }
}

/// Build nitrogql-specific built-in definitions: the directive
/// `directive @nitrogql_ts_type(type: String!) on SCALAR`.
pub fn nitrogql_builtins() -> (r: Vec<TypeSystemDefinitionOrExtension<'static>>)
    ensures
        r@.len() == 1,
        r@[0] matches TypeSystemDefinitionOrExtension::DirectiveDefinition(d) && {
            &&& d.name.name@ == ts_type_directive_name()
            &&& d.name.position == Pos::builtin_spec()
            &&& d.position == Pos::builtin_spec()
            &&& d.description is None
            &&& d.repeatable is None
            &&& d.locations@.len() == 1
            &&& d.locations@[0].name@ == "SCALAR"@
            &&& d.locations@[0].position == Pos::builtin_spec()
            &&& d.directive_keyword.name@ == "directive"@
            &&& d.directive_keyword.position == Pos::builtin_spec()
            &&& d.arguments matches Some(args) && args.input_values@.len() == 1 && {
                let arg = args.input_values@[0];
                &&& arg.name.name@ == "type"@
                &&& arg.name.position == Pos::builtin_spec()
                &&& arg.position == Pos::builtin_spec()
                &&& arg.description is None
                &&& arg.default_value is None
                &&& arg.directives@.len() == 0
                &&& arg.ty matches Type::NonNull(nn) && nn.ty matches Type::Named(n)
                    && n.name.name@ == "String"@ && n.name.position == Pos::builtin_spec()
            }
        },
{
    let mut input_values = Vec::new();
    input_values.push(
        InputValueDefinition {
            description: None,
            position: Pos::builtin(),
            name: ident("type"),
            ty: Type::NonNull(
                Box::new(NonNullType { ty: Type::Named(NamedType { name: ident("String") }) }),
            ),
            default_value: None,
            directives: Vec::new(),
        },
    );
    let mut locations = Vec::new();
    locations.push(ident("SCALAR"));
    let mut r = Vec::new();
    r.push(
        TypeSystemDefinitionOrExtension::DirectiveDefinition(
            DirectiveDefinition {
                directive_keyword: keyword("directive"),
                position: Pos::builtin(),
                name: ident("nitrogql_ts_type"),
                description: None,
                arguments: Some(ArgumentsDefinition { input_values }),
                repeatable: None,
                locations,
            },
        ),
    );
    r
}

/// Whether a directive is the built-in one.
pub open spec fn is_builtin_directive(d: Directive) -> bool {
    d.name.name@ == ts_type_directive_name()
}

/// Directives that are not the built-in one, in order.
pub open spec fn without_builtin_directives<'a>(ds: Seq<Directive<'a>>) -> Seq<Directive<'a>>
    decreases ds.len(),
{
    if ds.len() == 0 {
        ds
    } else {
        let rest = without_builtin_directives(ds.drop_last());
        if is_builtin_directive(ds.last()) {
            rest
        } else {
            rest.push(ds.last())
        }
    }
}

/// A definition with the built-in directive taken out of it, if it stays at all:
/// the built-in directive definition goes, scalars lose their uses of the built-in directive,
/// other definitions stay as they are.
pub open spec fn strip_builtins<'a>(
    d: TypeSystemDefinition<'a>,
    kept: TypeSystemDefinition<'a>,
) -> bool {
    match d {
        TypeSystemDefinition::TypeDefinition(TypeDefinition::Scalar(s)) => kept
            matches TypeSystemDefinition::TypeDefinition(TypeDefinition::Scalar(k)) && {
            &&& k.description == s.description
            &&& k.position == s.position
            &&& k.name == s.name
            &&& k.scalar_keyword == s.scalar_keyword
            &&& k.directives@ == without_builtin_directives(s.directives@)
        },
        _ => kept == d,
    }
}

/// Whether a definition is the built-in directive definition.
pub open spec fn is_builtin_definition(d: TypeSystemDefinition) -> bool {
    d matches TypeSystemDefinition::DirectiveDefinition(def) && def.name.name@
        == ts_type_directive_name()
}

/// The definitions that stay when built-ins are removed, in order.
pub open spec fn kept_definitions<'a>(ds: Seq<TypeSystemDefinition<'a>>) -> Seq<
    TypeSystemDefinition<'a>,
>
    decreases ds.len(),
{
    if ds.len() == 0 {
        ds
    } else {
        let rest = kept_definitions(ds.drop_last());
        if is_builtin_definition(ds.last()) {
            rest
        } else {
            rest.push(ds.last())
        }
    }
}

/// Removes uses of the built-in directive from a list of directives.
fn remove_builtin_directives<'a>(directives: Vec<Directive<'a>>) -> (r: Vec<Directive<'a>>)
    ensures
        r@ == without_builtin_directives(directives@),
{
    let mut input = directives;
    let ghost orig = input@;
    let n0 = input.len();
    assert(orig.skip(0) =~= orig);
    let mut out: Vec<Directive<'a>> = Vec::new();
    let mut i: usize = 0;
    while input.len() > 0
        invariant
            i <= orig.len(),
            orig.len() <= usize::MAX,
            input@ == orig.skip(i as int),
            out@ == without_builtin_directives(orig.take(i as int)),
        decreases input.len(),
    {
        let d = input.remove(0);
        proof {
            assert(orig.take(i + 1).drop_last() =~= orig.take(i as int));
            assert(orig.take(i + 1).last() == d);
        }
        if !str_eq(d.name.name, "nitrogql_ts_type") {
            out.push(d);
        }
        assert(input@ =~= orig.skip(i + 1));
        i += 1;
    }
    assert(orig.take(i as int) =~= orig);
    out
}

/// Removes built-in definitions from the schema.
pub fn remove_builtins<'src>(schema: TypeSystemDocument<'src>) -> (r: TypeSystemDocument<'src>)
    ensures
        r.definitions@.len() == kept_definitions(schema.definitions@).len(),
        forall|i: int|
            0 <= i < r.definitions@.len() ==> strip_builtins(
                #[trigger] kept_definitions(schema.definitions@)[i],
                r.definitions@[i],
            ),
{
    let mut input = schema.definitions;
    let ghost orig = input@;
    let n0 = input.len();
    assert(orig.skip(0) =~= orig);
    assert(orig.take(0) =~= Seq::<TypeSystemDefinition<'src>>::empty());
    let mut out: Vec<TypeSystemDefinition<'src>> = Vec::new();
    let mut i: usize = 0;
    while input.len() > 0
        invariant
            i <= orig.len(),
            orig.len() <= usize::MAX,
            input@ == orig.skip(i as int),
            out@.len() == kept_definitions(orig.take(i as int)).len(),
            forall|j: int|
                0 <= j < out@.len() ==> strip_builtins(
                    #[trigger] kept_definitions(orig.take(i as int))[j],
                    out@[j],
                ),
        decreases input.len(),
    {
        let d = input.remove(0);
        proof {
            assert(orig.take(i + 1).drop_last() =~= orig.take(i as int));
            assert(orig.take(i + 1).last() == d);
        }
        let ghost dd = d;
        let ghost before = out@;
        match d {
            TypeSystemDefinition::DirectiveDefinition(def) => {
                if !str_eq(def.name.name, "nitrogql_ts_type") {
                    out.push(TypeSystemDefinition::DirectiveDefinition(def));
                }
            },
            TypeSystemDefinition::SchemaDefinition(def) => {
                out.push(TypeSystemDefinition::SchemaDefinition(def));
            },
            TypeSystemDefinition::TypeDefinition(def) => {
                match def {
                    TypeDefinition::Scalar(s) => {
                        let ScalarTypeDefinition {
                            description,
                            position,
                            name,
                            directives,
                            scalar_keyword,
                        } = s;
                        let directives = remove_builtin_directives(directives);
                        out.push(
                            TypeSystemDefinition::TypeDefinition(
                                TypeDefinition::Scalar(
                                    ScalarTypeDefinition {
                                        description,
                                        position,
                                        name,
                                        directives,
                                        scalar_keyword,
                                    },
                                ),
                            ),
                        );
                    },
                    other => {
                        out.push(TypeSystemDefinition::TypeDefinition(other));
                    },
                }
            },
        }
        proof {
            let k = kept_definitions(orig.take(i + 1));
            let k0 = kept_definitions(orig.take(i as int));
            assert forall|j: int| 0 <= j < out@.len() implies strip_builtins(
                #[trigger] k[j],
                out@[j],
            ) by {
                if j < before.len() {
                    assert(k[j] == k0[j]);
                    assert(out@[j] == before[j]);
                }
            }
        }
        assert(input@ =~= orig.skip(i + 1));
        i += 1;
    }
    assert(orig.take(i as int) =~= orig);
    TypeSystemDocument { definitions: out }
}


/// Removing uses of the built-in directive leaves none.
pub proof fn law_no_builtin_directive_left<'a>(ds: Seq<Directive<'a>>)
    ensures
        forall|i: int|
            0 <= i < without_builtin_directives(ds).len() ==> !is_builtin_directive(
                #[trigger] without_builtin_directives(ds)[i],
            ),
    decreases ds.len(),
{
    if ds.len() > 0 {
        let rest = without_builtin_directives(ds.drop_last());
        law_no_builtin_directive_left(ds.drop_last());
        assert forall|i: int| 0 <= i < without_builtin_directives(ds).len() implies !is_builtin_directive(
            #[trigger] without_builtin_directives(ds)[i],
        ) by {
            if i < rest.len() {
                assert(without_builtin_directives(ds)[i] == rest[i]);
            }
        }
    }
}

/// Keeping definitions drops every built-in directive definition.
pub proof fn law_no_builtin_definition_kept<'a>(ds: Seq<TypeSystemDefinition<'a>>)
    ensures
        forall|i: int|
            0 <= i < kept_definitions(ds).len() ==> !is_builtin_definition(
                #[trigger] kept_definitions(ds)[i],
            ),
    decreases ds.len(),
{
    if ds.len() > 0 {
        let rest = kept_definitions(ds.drop_last());
        law_no_builtin_definition_kept(ds.drop_last());
        assert forall|i: int| 0 <= i < kept_definitions(ds).len() implies !is_builtin_definition(
            #[trigger] kept_definitions(ds)[i],
        ) by {
            if i < rest.len() {
                assert(kept_definitions(ds)[i] == rest[i]);
            }
        }
    }
}

/// Whether a definition uses the built-in directive: only scalars can.
pub open spec fn uses_builtin_directive(d: TypeSystemDefinition) -> bool {
    match d {
        TypeSystemDefinition::TypeDefinition(TypeDefinition::Scalar(s)) => exists|j: int|
            0 <= j < s.directives@.len() && is_builtin_directive(#[trigger] s.directives@[j]),
        _ => false,
    }
}

/// A schema with built-ins removed holds neither the built-in directive definition nor a
/// use of the built-in directive on a scalar.
pub proof fn law_removal_leaves_no_builtins<'a>(
    ds: Seq<TypeSystemDefinition<'a>>,
    result: Seq<TypeSystemDefinition<'a>>,
)
    requires
        result.len() == kept_definitions(ds).len(),
        forall|i: int|
            0 <= i < result.len() ==> strip_builtins(#[trigger] kept_definitions(ds)[i], result[i]),
    ensures
        forall|i: int|
            0 <= i < result.len() ==> !is_builtin_definition(#[trigger] result[i])
                && !uses_builtin_directive(result[i]),
{
    law_no_builtin_definition_kept(ds);
    assert forall|i: int| 0 <= i < result.len() implies !is_builtin_definition(
        #[trigger] result[i],
    ) && !uses_builtin_directive(result[i]) by {
        let d = kept_definitions(ds)[i];
        assert(strip_builtins(d, result[i]));
        assert(!is_builtin_definition(d));
        if let TypeSystemDefinition::TypeDefinition(TypeDefinition::Scalar(sd)) = d {
            law_no_builtin_directive_left(sd.directives@);
        }
    }
}


proof fn lemma_without_nothing_to_remove<'a>(ds: Seq<Directive<'a>>)
    requires
        forall|j: int| 0 <= j < ds.len() ==> !is_builtin_directive(#[trigger] ds[j]),
    ensures
        without_builtin_directives(ds) == ds,
    decreases ds.len(),
{
    if ds.len() > 0 {
        lemma_without_nothing_to_remove(ds.drop_last());
        assert(ds.drop_last().push(ds.last()) =~= ds);
    }
}

proof fn lemma_kept_nothing_to_remove<'a>(ds: Seq<TypeSystemDefinition<'a>>)
    requires
        forall|j: int| 0 <= j < ds.len() ==> !is_builtin_definition(#[trigger] ds[j]),
    ensures
        kept_definitions(ds) == ds,
    decreases ds.len(),
{
    if ds.len() > 0 {
        lemma_kept_nothing_to_remove(ds.drop_last());
        assert(ds.drop_last().push(ds.last()) =~= ds);
    }
}

/// Whether two definitions are the same, a scalar's directives compared by content.
pub open spec fn same_definition<'a>(a: TypeSystemDefinition<'a>, b: TypeSystemDefinition<'a>) -> bool {
    match (a, b) {
        (
            TypeSystemDefinition::TypeDefinition(TypeDefinition::Scalar(x)),
            TypeSystemDefinition::TypeDefinition(TypeDefinition::Scalar(y)),
        ) => x.description == y.description && x.position == y.position && x.name == y.name
            && x.scalar_keyword == y.scalar_keyword && x.directives@ == y.directives@,
        _ => a == b,
    }
}

/// Removing built-ins a second time changes nothing.
pub proof fn law_removal_is_idempotent<'a>(
    ds: Seq<TypeSystemDefinition<'a>>,
    once: Seq<TypeSystemDefinition<'a>>,
    twice: Seq<TypeSystemDefinition<'a>>,
)
    requires
        once.len() == kept_definitions(ds).len(),
        forall|i: int|
            0 <= i < once.len() ==> strip_builtins(#[trigger] kept_definitions(ds)[i], once[i]),
        twice.len() == kept_definitions(once).len(),
        forall|i: int|
            0 <= i < twice.len() ==> strip_builtins(#[trigger] kept_definitions(once)[i], twice[i]),
    ensures
        twice.len() == once.len(),
        forall|i: int| 0 <= i < once.len() ==> same_definition(#[trigger] once[i], twice[i]),
{
    law_removal_leaves_no_builtins(ds, once);
    assert forall|j: int| 0 <= j < once.len() implies !is_builtin_definition(#[trigger] once[j]) by {
        assert(!is_builtin_definition(once[j]) && !uses_builtin_directive(once[j]));
    }
    lemma_kept_nothing_to_remove(once);
    assert forall|i: int| 0 <= i < once.len() implies same_definition(#[trigger] once[i], twice[i]) by {
        assert(strip_builtins(kept_definitions(once)[i], twice[i]));
        assert(!uses_builtin_directive(once[i]));
        if let TypeSystemDefinition::TypeDefinition(TypeDefinition::Scalar(x)) = once[i] {
            assert forall|j: int| 0 <= j < x.directives@.len() implies !is_builtin_directive(
                #[trigger] x.directives@[j],
            ) by {}
            lemma_without_nothing_to_remove(x.directives@);
        }
    }
}

} // verus!
