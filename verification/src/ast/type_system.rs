//! Type system documents: schema, type and directive definitions and extensions.

use vstd::prelude::*;

use super::base::{opt_str_view, HasPos, Ident, Keyword, Pos};
use super::directive::Directive;
use super::operation::OperationType;
use super::types::Type;
use super::value::{StringValue, Value};

verus! {

#[derive(Debug)]
pub enum TypeSystemDefinition<'a> {
    SchemaDefinition(SchemaDefinition<'a>),
    TypeDefinition(TypeDefinition<'a>),
    DirectiveDefinition(DirectiveDefinition<'a>),
}

impl<'a> TypeSystemDefinition<'a> {
    /// Name of a definition; a schema definition has none.
    pub open spec fn spec_name(self) -> Option<Seq<char>> {
        match self {
            TypeSystemDefinition::SchemaDefinition(_) => None,
            TypeSystemDefinition::TypeDefinition(def) => Some(def.spec_name().name@),
            TypeSystemDefinition::DirectiveDefinition(def) => Some(def.name.name@),
        }
    }

    /// Position of a definition.
    pub open spec fn spec_position(self) -> Pos {
        match self {
            TypeSystemDefinition::SchemaDefinition(def) => def.position,
            TypeSystemDefinition::TypeDefinition(def) => def.spec_position(),
            TypeSystemDefinition::DirectiveDefinition(def) => def.position,
        }
    }
}

impl HasPos for TypeSystemDefinition<'_> {
    fn name(&self) -> (r: Option<&str>)
        ensures
            opt_str_view(r) == self.spec_name(),
    {
        match self {
            TypeSystemDefinition::SchemaDefinition(def) => def.name(),
            TypeSystemDefinition::TypeDefinition(def) => Some(def.name().name),
            TypeSystemDefinition::DirectiveDefinition(def) => def.name(),
        }
    }

    fn position(&self) -> (r: &Pos)
        ensures
            *r == self.spec_position(),
    {
        match self {
            TypeSystemDefinition::SchemaDefinition(def) => def.position(),
            TypeSystemDefinition::TypeDefinition(def) => def.position(),
            TypeSystemDefinition::DirectiveDefinition(def) => def.position(),
        }
    }
}

#[derive(Debug)]
pub enum TypeSystemDefinitionOrExtension<'a> {
    SchemaDefinition(SchemaDefinition<'a>),
    TypeDefinition(TypeDefinition<'a>),
    DirectiveDefinition(DirectiveDefinition<'a>),
    SchemaExtension(SchemaExtension<'a>),
    TypeExtension(TypeExtension<'a>),
}

#[derive(Debug)]
pub struct SchemaDefinition<'a> {
    pub description: Option<StringValue>,
    pub position: Pos,
    pub directives: Vec<Directive<'a>>,
    pub definitions: Vec<(OperationType, Ident<'a>)>,
}

impl HasPos for SchemaDefinition<'_> {
    fn position(&self) -> (r: &Pos)
        ensures
            *r == self.position,
    {
        &self.position
    }

    fn name(&self) -> (r: Option<&str>)
        ensures
            r is None,
    {
        None
    }
}

#[derive(Debug)]
pub enum TypeDefinition<'a> {
    Scalar(ScalarTypeDefinition<'a>),
    Object(ObjectTypeDefinition<'a>),
    Interface(InterfaceTypeDefinition<'a>),
    Union(UnionTypeDefinition<'a>),
    Enum(EnumTypeDefinition<'a>),
    InputObject(InputObjectTypeDefinition<'a>),
}

impl<'a> TypeDefinition<'a> {
    /// The name of a type definition.
    pub open spec fn spec_name(self) -> Ident<'a> {
        match self {
            TypeDefinition::Scalar(def) => def.name,
            TypeDefinition::Object(def) => def.name,
            TypeDefinition::Interface(def) => def.name,
            TypeDefinition::Union(def) => def.name,
            TypeDefinition::Enum(def) => def.name,
            TypeDefinition::InputObject(def) => def.name,
        }
    }

    /// The position of a type definition.
    pub open spec fn spec_position(self) -> Pos {
        match self {
            TypeDefinition::Scalar(def) => def.position,
            TypeDefinition::Object(def) => def.position,
            TypeDefinition::Interface(def) => def.position,
            TypeDefinition::Union(def) => def.position,
            TypeDefinition::Enum(def) => def.position,
            TypeDefinition::InputObject(def) => def.position,
        }
    }

    /// Returns the name of this type definition.
    pub fn name(&self) -> (r: &Ident<'a>)
        ensures
            *r == self.spec_name(),
    {
        match self {
            TypeDefinition::Scalar(def) => &def.name,
            TypeDefinition::Object(def) => &def.name,
            TypeDefinition::Interface(def) => &def.name,
            TypeDefinition::Union(def) => &def.name,
            TypeDefinition::Enum(def) => &def.name,
            TypeDefinition::InputObject(def) => &def.name,
        }
    }
}

impl HasPos for TypeDefinition<'_> {
    fn name(&self) -> Option<&str>
        returns
            Some(self.spec_name().name),
    {
        Some(TypeDefinition::name(self).name)
    }

    fn position(&self) -> (r: &Pos)
        ensures
            *r == self.spec_position(),
    {
        match self {
            TypeDefinition::Scalar(def) => def.position(),
            TypeDefinition::Object(def) => def.position(),
            TypeDefinition::Interface(def) => def.position(),
            TypeDefinition::Union(def) => def.position(),
            TypeDefinition::Enum(def) => def.position(),
            TypeDefinition::InputObject(def) => def.position(),
        }
    }
}

#[derive(Debug)]
pub struct ScalarTypeDefinition<'a> {
    pub description: Option<StringValue>,
    pub position: Pos,
    pub name: Ident<'a>,
    pub directives: Vec<Directive<'a>>,
    // keywords & punctuations
    pub scalar_keyword: Keyword<'a>,
}

impl HasPos for ScalarTypeDefinition<'_> {
    fn name(&self) -> (r: Option<&str>)
        ensures
            opt_str_view(r) == Some(self.name.name@),
    {
        Some(self.name.name)
    }

    fn position(&self) -> (r: &Pos)
        ensures
            *r == self.position,
    {
        &self.position
    }
}

#[derive(Debug)]
pub struct ObjectTypeDefinition<'a> {
    pub description: Option<StringValue>,
    pub position: Pos,
    pub name: Ident<'a>,
    pub implements: Vec<Ident<'a>>,
    pub directives: Vec<Directive<'a>>,
    pub fields: Vec<FieldDefinition<'a>>,
    // keywords & punctuations
    pub type_keyword: Keyword<'a>,
}

impl HasPos for ObjectTypeDefinition<'_> {
    fn name(&self) -> (r: Option<&str>)
        ensures
            opt_str_view(r) == Some(self.name.name@),
    {
        Some(self.name.name)
    }

    fn position(&self) -> (r: &Pos)
        ensures
            *r == self.position,
    {
        &self.position
    }
}

#[derive(Debug)]
pub struct FieldDefinition<'a> {
    pub description: Option<StringValue>,
    pub name: Ident<'a>,
    pub arguments: Option<ArgumentsDefinition<'a>>,
    pub ty: Type<'a>,
    pub directives: Vec<Directive<'a>>,
}

#[derive(Debug)]
pub struct InterfaceTypeDefinition<'a> {
    pub description: Option<StringValue>,
    pub position: Pos,
    pub name: Ident<'a>,
    pub implements: Vec<Ident<'a>>,
    pub directives: Vec<Directive<'a>>,
    pub fields: Vec<FieldDefinition<'a>>,
    // keywords & punctuations
    pub interface_keyword: Keyword<'a>,
}

impl HasPos for InterfaceTypeDefinition<'_> {
    fn name(&self) -> (r: Option<&str>)
        ensures
            opt_str_view(r) == Some(self.name.name@),
    {
        Some(self.name.name)
    }

    fn position(&self) -> (r: &Pos)
        ensures
            *r == self.position,
    {
        &self.position
    }
}

#[derive(Debug)]
pub struct UnionTypeDefinition<'a> {
    pub description: Option<StringValue>,
    pub position: Pos,
    pub name: Ident<'a>,
    pub directives: Vec<Directive<'a>>,
    pub members: Vec<Ident<'a>>,
    // keywords & punctuations
    pub union_keyword: Keyword<'a>,
}

impl HasPos for UnionTypeDefinition<'_> {
    fn name(&self) -> (r: Option<&str>)
        ensures
            opt_str_view(r) == Some(self.name.name@),
    {
        Some(self.name.name)
    }

    fn position(&self) -> (r: &Pos)
        ensures
            *r == self.position,
    {
        &self.position
    }
}

#[derive(Debug)]
pub struct DirectiveDefinition<'a> {
    pub description: Option<StringValue>,
    pub position: Pos,
    pub name: Ident<'a>,
    pub arguments: Option<ArgumentsDefinition<'a>>,
    pub repeatable: Option<Ident<'a>>,
    pub locations: Vec<Ident<'a>>,
    // keywords & punctuations
    pub directive_keyword: Keyword<'a>,
}

impl HasPos for DirectiveDefinition<'_> {
    fn name(&self) -> (r: Option<&str>)
        ensures
            opt_str_view(r) == Some(self.name.name@),
    {
        Some(self.name.name)
    }

    fn position(&self) -> (r: &Pos)
        ensures
            *r == self.position,
    {
        &self.position
    }
}

#[derive(Debug)]
pub struct ArgumentsDefinition<'a> {
    pub input_values: Vec<InputValueDefinition<'a>>,
}

#[derive(Debug)]
pub struct InputValueDefinition<'a> {
    pub description: Option<StringValue>,
    pub position: Pos,
    pub name: Ident<'a>,
    pub ty: Type<'a>,
    pub default_value: Option<Value<'a>>,
    pub directives: Vec<Directive<'a>>,
}

impl HasPos for InputValueDefinition<'_> {
    fn name(&self) -> (r: Option<&str>)
        ensures
            opt_str_view(r) == Some(self.name.name@),
    {
        Some(self.name.name)
    }

    fn position(&self) -> (r: &Pos)
        ensures
            *r == self.position,
    {
        &self.position
    }
}

#[derive(Debug)]
pub struct EnumTypeDefinition<'a> {
    pub description: Option<StringValue>,
    pub position: Pos,
    pub name: Ident<'a>,
    pub directives: Vec<Directive<'a>>,
    pub values: Vec<EnumValueDefinition<'a>>,
    // keywords & punctuations
    pub enum_keyword: Keyword<'a>,
}

impl HasPos for EnumTypeDefinition<'_> {
    fn name(&self) -> (r: Option<&str>)
        ensures
            opt_str_view(r) == Some(self.name.name@),
    {
        Some(self.name.name)
    }

    fn position(&self) -> (r: &Pos)
        ensures
            *r == self.position,
    {
        &self.position
    }
}

#[derive(Debug)]
pub struct EnumValueDefinition<'a> {
    pub description: Option<StringValue>,
    pub name: Ident<'a>,
    pub directives: Vec<Directive<'a>>,
}

#[derive(Debug)]
pub struct InputObjectTypeDefinition<'a> {
    pub description: Option<StringValue>,
    pub position: Pos,
    pub name: Ident<'a>,
    pub directives: Vec<Directive<'a>>,
    pub fields: Vec<InputValueDefinition<'a>>,
    // keywords & punctuations
    pub input_keyword: Keyword<'a>,
}

impl HasPos for InputObjectTypeDefinition<'_> {
    fn name(&self) -> (r: Option<&str>)
        ensures
            opt_str_view(r) == Some(self.name.name@),
    {
        Some(self.name.name)
    }

    fn position(&self) -> (r: &Pos)
        ensures
            *r == self.position,
    {
        &self.position
    }
}

#[derive(Debug)]
pub struct SchemaExtension<'a> {
    pub position: Pos,
    pub directives: Vec<Directive<'a>>,
    pub definitions: Vec<(OperationType, Ident<'a>)>,
}

impl HasPos for SchemaExtension<'_> {
    fn position(&self) -> (r: &Pos)
        ensures
            *r == self.position,
    {
        &self.position
    }

    fn name(&self) -> (r: Option<&str>)
        ensures
            r is None,
    {
        None
    }
}

#[derive(Debug)]
pub enum TypeExtension<'a> {
    Scalar(ScalarTypeExtension<'a>),
    Object(ObjectTypeExtension<'a>),
    Interface(InterfaceTypeExtension<'a>),
    Union(UnionTypeExtension<'a>),
    Enum(EnumTypeExtension<'a>),
    InputObject(InputObjectTypeExtension<'a>),
}

#[derive(Debug)]
pub struct ScalarTypeExtension<'a> {
    pub position: Pos,
    pub name: Ident<'a>,
    pub directives: Vec<Directive<'a>>,
}

impl HasPos for ScalarTypeExtension<'_> {
    fn name(&self) -> (r: Option<&str>)
        ensures
            opt_str_view(r) == Some(self.name.name@),
    {
        Some(self.name.name)
    }

    fn position(&self) -> (r: &Pos)
        ensures
            *r == self.position,
    {
        &self.position
    }
}

#[derive(Debug)]
pub struct ObjectTypeExtension<'a> {
    pub position: Pos,
    pub name: Ident<'a>,
    pub implements: Vec<Ident<'a>>,
    pub directives: Vec<Directive<'a>>,
    pub fields: Vec<FieldDefinition<'a>>,
}

impl HasPos for ObjectTypeExtension<'_> {
    fn name(&self) -> (r: Option<&str>)
        ensures
            opt_str_view(r) == Some(self.name.name@),
    {
        Some(self.name.name)
    }

    fn position(&self) -> (r: &Pos)
        ensures
            *r == self.position,
    {
        &self.position
    }
}

#[derive(Debug)]
pub struct InterfaceTypeExtension<'a> {
    pub position: Pos,
    pub name: Ident<'a>,
    pub implements: Vec<Ident<'a>>,
    pub directives: Vec<Directive<'a>>,
    pub fields: Vec<FieldDefinition<'a>>,
}

impl HasPos for InterfaceTypeExtension<'_> {
    fn name(&self) -> (r: Option<&str>)
        ensures
            opt_str_view(r) == Some(self.name.name@),
    {
        Some(self.name.name)
    }

    fn position(&self) -> (r: &Pos)
        ensures
            *r == self.position,
    {
        &self.position
    }
}

#[derive(Debug)]
pub struct UnionTypeExtension<'a> {
    pub position: Pos,
    pub name: Ident<'a>,
    pub directives: Vec<Directive<'a>>,
    pub members: Vec<Ident<'a>>,
}

impl HasPos for UnionTypeExtension<'_> {
    fn name(&self) -> (r: Option<&str>)
        ensures
            opt_str_view(r) == Some(self.name.name@),
    {
        Some(self.name.name)
    }

    fn position(&self) -> (r: &Pos)
        ensures
            *r == self.position,
    {
        &self.position
    }
}

#[derive(Debug)]
pub struct EnumTypeExtension<'a> {
    pub position: Pos,
    pub name: Ident<'a>,
    pub directives: Vec<Directive<'a>>,
    pub values: Vec<EnumValueDefinition<'a>>,
}

impl HasPos for EnumTypeExtension<'_> {
    fn name(&self) -> (r: Option<&str>)
        ensures
            opt_str_view(r) == Some(self.name.name@),
    {
        Some(self.name.name)
    }

    fn position(&self) -> (r: &Pos)
        ensures
            *r == self.position,
    {
        &self.position
    }
}

#[derive(Debug)]
pub struct InputObjectTypeExtension<'a> {
    pub position: Pos,
    pub name: Ident<'a>,
    pub directives: Vec<Directive<'a>>,
    pub fields: Vec<InputValueDefinition<'a>>,
}

impl HasPos for InputObjectTypeExtension<'_> {
    fn name(&self) -> (r: Option<&str>)
        ensures
            opt_str_view(r) == Some(self.name.name@),
    {
        Some(self.name.name)
    }

    fn position(&self) -> (r: &Pos)
        ensures
            *r == self.position,
    {
        &self.position
    }
}

#[derive(Debug)]
pub struct TypeSystemOrExtensionDocument<'a> {
    pub definitions: Vec<TypeSystemDefinitionOrExtension<'a>>,
}

/// Definitions of a sequence of documents, in order.
pub open spec fn all_definitions<'a>(docs: Seq<TypeSystemOrExtensionDocument<'a>>) -> Seq<
    TypeSystemDefinitionOrExtension<'a>,
> {
    docs.map_values(|d: TypeSystemOrExtensionDocument<'a>| d.definitions@).flatten()
}

impl<'a> TypeSystemOrExtensionDocument<'a> {
    /// Appends definitions to this document.
    pub fn extend(&mut self, definitions: Vec<TypeSystemDefinitionOrExtension<'a>>)
        ensures
            final(self).definitions@ == old(self).definitions@ + definitions@,
    {
        let mut definitions = definitions;
        self.definitions.append(&mut definitions);
    }

    /// Merges multiple documents into one, keeping the order of documents and of their definitions.
    pub fn merge(docs: Vec<Self>) -> (r: Self)
        ensures
            r.definitions@ == all_definitions(docs@),
    {
        let mut docs = docs;
        let ghost orig = docs@;
        let mut definitions: Vec<TypeSystemDefinitionOrExtension<'a>> = Vec::new();
        while docs.len() > 0
            invariant
                definitions@ + all_definitions(docs@) == all_definitions(orig),
            decreases docs.len(),
        {
            let ghost before = docs@;
            let mut doc = docs.remove(0);
            proof {
                let m = before.map_values(|d: TypeSystemOrExtensionDocument<'a>| d.definitions@);
                assert(m.drop_first() =~= docs@.map_values(
                    |d: TypeSystemOrExtensionDocument<'a>| d.definitions@,
                ));
                assert(all_definitions(before) == doc.definitions@ + all_definitions(docs@));
            }
            let ghost defs = definitions@;
            let ghost doc_defs = doc.definitions@;
            definitions.append(&mut doc.definitions);
            assert(definitions@ + all_definitions(docs@) =~= defs + (doc_defs + all_definitions(docs@)));
        }
        assert(all_definitions(docs@) =~= Seq::empty());
        assert(definitions@ + all_definitions(docs@) =~= definitions@);
        TypeSystemOrExtensionDocument { definitions }
    }
}

#[derive(Debug)]
pub struct TypeSystemDocument<'a> {
    pub definitions: Vec<TypeSystemDefinition<'a>>,
}

impl<'a> TypeSystemDocument<'a> {
    /// Creates an empty document.
    pub fn new() -> (r: Self)
        ensures
            r.definitions@ == Seq::<TypeSystemDefinition<'a>>::empty(),
    {
        TypeSystemDocument { definitions: Vec::new() }
    }
}

/// Merging the documents of two lists gives the definitions of merging each list, one
/// after the other.
pub proof fn law_merge_concatenates<'a>(
    first: Seq<TypeSystemOrExtensionDocument<'a>>,
    second: Seq<TypeSystemOrExtensionDocument<'a>>,
)
    ensures
        all_definitions(first + second) == all_definitions(first) + all_definitions(second),
    decreases first.len(),
{
    let f = |d: TypeSystemOrExtensionDocument<'a>| d.definitions@;
    if first.len() == 0 {
        assert(first + second =~= second);
        assert(all_definitions(first) =~= Seq::empty());
    } else {
        law_merge_concatenates(first.drop_first(), second);
        assert((first + second).drop_first() =~= first.drop_first() + second);
        assert((first + second).map_values(f).drop_first() =~= (first.drop_first()
            + second).map_values(f));
        assert(first.map_values(f).drop_first() =~= first.drop_first().map_values(f));
        assert(all_definitions(first + second) == first[0].definitions@ + all_definitions(
            first.drop_first() + second,
        ));
        assert(all_definitions(first) == first[0].definitions@ + all_definitions(
            first.drop_first(),
        ));
    }
}

} // verus!
