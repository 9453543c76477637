//! Printing of type system documents: schema, type and directive definitions and
//! extensions.

use vstd::prelude::*;

use crate::ast::base::Ident;
use crate::ast::operation::OperationType;
use crate::ast::type_system::{
    EnumTypeDefinition, EnumTypeExtension, InputObjectTypeDefinition, InputObjectTypeExtension,
    InterfaceTypeDefinition, InterfaceTypeExtension, ObjectTypeDefinition, ObjectTypeExtension,
    ScalarTypeDefinition, ScalarTypeExtension, UnionTypeDefinition, UnionTypeExtension,
    ArgumentsDefinition, DirectiveDefinition, EnumValueDefinition, FieldDefinition,
    InputValueDefinition, SchemaDefinition, SchemaExtension, TypeDefinition, TypeExtension,
    TypeSystemDefinition, TypeSystemDefinitionOrExtension, TypeSystemDocument,
    TypeSystemOrExtensionDocument,
};

use super::base::{
    all_printed, description_printed, lemma_empty_literal, marked, opt_printed, print_description,
    print_each, print_opt, print_separated, separated_printed, GraphQLPrinter,
};
use super::writer::{text, ChunkView, GraphQLWriter};

verus! {

/// The output of printing the interfaces a type implements: nothing for none, else
/// ` implements` and `& I` for each.
pub open spec fn implements_printed<'a>(ids: Seq<Ident<'a>>) -> Seq<ChunkView> {
    if ids.len() == 0 {
        Seq::empty()
    } else {
        text(" implements"@) + all_printed(ids, " & "@, Seq::empty())
    }
}

fn print_implements<'a>(ids: &[Ident<'a>], writer: &mut GraphQLWriter)
    ensures
        final(writer)@ == old(writer)@ + implements_printed(ids@),
{
    if ids.len() > 0 {
        writer.write(" implements");
        print_each(ids, " & ", "", writer);
        proof {
            lemma_empty_literal();
        }
        assert(final(writer)@ =~= old(writer)@ + implements_printed(ids@));
    } else {
        assert(final(writer)@ =~= old(writer)@ + implements_printed(ids@));
    }
}

/// The output of printing the members of a type in braces, one per line, indented; nothing
/// for no members.
pub open spec fn block_printed<T: GraphQLPrinter>(items: Seq<T>) -> Seq<ChunkView> {
    if items.len() == 0 {
        Seq::empty()
    } else {
        text(" {\n"@) + seq![ChunkView::Indent] + all_printed(items, Seq::empty(), "\n"@) + seq![
            ChunkView::Dedent,
        ] + text("}"@)
    }
}

fn print_block<T: GraphQLPrinter>(items: &[T], writer: &mut GraphQLWriter)
    ensures
        final(writer)@ == old(writer)@ + block_printed(items@),
{
    if items.len() > 0 {
        writer.write(" {\n");
        writer.indent();
        print_each(items, "", "\n", writer);
        proof {
            lemma_empty_literal();
        }
        writer.dedent();
        writer.write("}");
        assert(final(writer)@ =~= old(writer)@ + block_printed(items@));
    } else {
        assert(final(writer)@ =~= old(writer)@ + block_printed(items@));
    }
}

/// The output of printing directives, each after a space.
pub open spec fn directives_printed<'a>(ds: Seq<crate::ast::directive::Directive<'a>>) -> Seq<
    ChunkView,
> {
    all_printed(ds, " "@, Seq::empty())
}

fn print_directives<'a>(ds: &[crate::ast::directive::Directive<'a>], writer: &mut GraphQLWriter)
    ensures
        final(writer)@ == old(writer)@ + directives_printed(ds@),
{
    print_each(ds, " ", "", writer);
    proof {
        lemma_empty_literal();
    }
}

impl<'a> GraphQLPrinter for FieldDefinition<'a> {
    open spec fn printed(&self) -> Seq<ChunkView> {
        description_printed(self.description) + self.name.printed() + opt_printed(self.arguments)
            + text(": "@) + self.ty.printed() + directives_printed(self.directives@)
    }

    fn print_graphql(&self, writer: &mut GraphQLWriter) {
        let ghost w0 = writer@;
        print_description(&self.description, writer);
        self.name.print_graphql(writer);
        print_opt(&self.arguments, writer);
        writer.write(": ");
        self.ty.print_graphql(writer);
        print_directives(self.directives.as_slice(), writer);
        assert(writer@ =~= w0 + self.printed());
    }
}

impl<'a> GraphQLPrinter for ArgumentsDefinition<'a> {
    open spec fn printed(&self) -> Seq<ChunkView> {
        text("("@) + separated_printed(self.input_values@, ", "@, self.input_values@.len()) + text(
            ")"@,
        )
    }

    fn print_graphql(&self, writer: &mut GraphQLWriter) {
        let ghost w0 = writer@;
        writer.write("(");
        print_separated(self.input_values.as_slice(), ", ", writer);
        writer.write(")");
        assert(writer@ =~= w0 + self.printed());
    }
}

impl<'a> GraphQLPrinter for EnumValueDefinition<'a> {
    open spec fn printed(&self) -> Seq<ChunkView> {
        description_printed(self.description) + self.name.printed() + directives_printed(
            self.directives@,
        )
    }

    fn print_graphql(&self, writer: &mut GraphQLWriter) {
        let ghost w0 = writer@;
        print_description(&self.description, writer);
        self.name.print_graphql(writer);
        print_directives(self.directives.as_slice(), writer);
        assert(writer@ =~= w0 + self.printed());
    }
}

impl<'a> GraphQLPrinter for InputValueDefinition<'a> {
    open spec fn printed(&self) -> Seq<ChunkView> {
        description_printed(self.description) + self.name.printed() + text(": "@)
            + self.ty.printed() + (match self.default_value {
            Some(v) => text(" = "@) + v.printed(),
            None => Seq::empty(),
        }) + directives_printed(self.directives@)
    }

    fn print_graphql(&self, writer: &mut GraphQLWriter) {
        let ghost w0 = writer@;
        print_description(&self.description, writer);
        self.name.print_graphql(writer);
        writer.write(": ");
        self.ty.print_graphql(writer);
        if let Some(default_value) = &self.default_value {
            writer.write(" = ");
            default_value.print_graphql(writer);
        }
        print_directives(self.directives.as_slice(), writer);
        assert(writer@ =~= w0 + self.printed());
    }
}

impl<'a> GraphQLPrinter for DirectiveDefinition<'a> {
    open spec fn printed(&self) -> Seq<ChunkView> {
        description_printed(self.description) + text("directive @"@) + self.name.printed()
            + opt_printed(self.arguments) + (match self.repeatable {
            Some(token) => text(" "@) + token.printed(),
            None => Seq::empty(),
        }) + text(" on"@) + all_printed(self.locations@, " | "@, Seq::empty()) + text("\n"@)
    }

    fn print_graphql(&self, writer: &mut GraphQLWriter) {
        let ghost w0 = writer@;
        print_description(&self.description, writer);
        writer.write("directive @");
        self.name.print_graphql(writer);
        print_opt(&self.arguments, writer);
        if let Some(token) = &self.repeatable {
            writer.write(" ");
            token.print_graphql(writer);
        }
        writer.write(" on");
        print_each(self.locations.as_slice(), " | ", "", writer);
        proof {
            lemma_empty_literal();
        }
        writer.write("\n");
        assert(writer@ =~= w0 + self.printed());
    }
}

/// The output of printing the first `n` root operation types, one per line as
/// `query: Query`.
pub open spec fn root_types_printed<'a>(ps: Seq<(OperationType, Ident<'a>)>, n: nat) -> Seq<
    ChunkView,
>
    decreases n,
{
    if n == 0 || n > ps.len() {
        Seq::empty()
    } else {
        root_types_printed(ps, (n - 1) as nat) + text(ps[n - 1].0.spec_str()) + text(": "@)
            + ps[n - 1].1.printed() + text("\n"@)
    }
}

fn print_root_types<'a>(ps: &[(OperationType, Ident<'a>)], writer: &mut GraphQLWriter)
    ensures
        final(writer)@ == old(writer)@ + root_types_printed(ps@, ps@.len()),
{
    let mut i: usize = 0;
    while i < ps.len()
        invariant
            i <= ps@.len(),
            writer@ == old(writer)@ + root_types_printed(ps@, i as nat),
        decreases ps@.len() - i,
    {
        writer.write(ps[i].0.as_str());
        writer.write(": ");
        ps[i].1.print_graphql(writer);
        writer.write("\n");
        assert(writer@ =~= old(writer)@ + root_types_printed(ps@, (i + 1) as nat));
        i += 1;
    }
}

impl<'a> GraphQLPrinter for SchemaDefinition<'a> {
    /// Directives are printed right after `schema `, without spaces between them.
    open spec fn printed(&self) -> Seq<ChunkView> {
        description_printed(self.description) + text("schema "@) + all_printed(
            self.directives@,
            Seq::empty(),
            Seq::empty(),
        ) + text("{\n"@) + seq![ChunkView::Indent] + root_types_printed(
            self.definitions@,
            self.definitions@.len(),
        ) + seq![ChunkView::Dedent] + text("}\n"@)
    }

    fn print_graphql(&self, writer: &mut GraphQLWriter) {
        let ghost w0 = writer@;
        print_description(&self.description, writer);
        writer.write("schema ");
        print_each(self.directives.as_slice(), "", "", writer);
        proof {
            lemma_empty_literal();
        }
        writer.write("{\n");
        writer.indent();
        print_root_types(self.definitions.as_slice(), writer);
        writer.dedent();
        writer.write("}\n");
        assert(writer@ =~= w0 + self.printed());
    }
}

impl<'a> GraphQLPrinter for SchemaExtension<'a> {
    /// Directives are printed right after `extend schema `, without spaces between them.
    open spec fn printed(&self) -> Seq<ChunkView> {
        text("extend schema "@) + all_printed(self.directives@, Seq::empty(), Seq::empty())
            + text("{\n"@) + seq![ChunkView::Indent] + root_types_printed(
            self.definitions@,
            self.definitions@.len(),
        ) + seq![ChunkView::Dedent] + text("}\n"@)
    }

    fn print_graphql(&self, writer: &mut GraphQLWriter) {
        let ghost w0 = writer@;
        writer.write("extend schema ");
        print_each(self.directives.as_slice(), "", "", writer);
        proof {
            lemma_empty_literal();
        }
        writer.write("{\n");
        writer.indent();
        print_root_types(self.definitions.as_slice(), writer);
        writer.dedent();
        writer.write("}\n");
        assert(writer@ =~= w0 + self.printed());
    }
}

/// The output of printing a ScalarTypeDefinition.
pub open spec fn scalar_definition_printed<'a>(d: ScalarTypeDefinition<'a>) -> Seq<ChunkView> {
    description_printed(d.description)
        + text("scalar "@)
        + d.name.printed()
        + directives_printed(d.directives@)
        + text("\n"@)
}

fn print_scalar_definition<'a>(d: &ScalarTypeDefinition<'a>, writer: &mut GraphQLWriter)
    ensures
        final(writer)@ == old(writer)@ + scalar_definition_printed(*d),
{
    print_description(&d.description, writer);
    writer.write("scalar ");
    d.name.print_graphql(writer);
    print_directives(d.directives.as_slice(), writer);
    writer.write("\n");
    assert(final(writer)@ =~= old(writer)@ + scalar_definition_printed(*d));
}
/// The output of printing an ObjectTypeDefinition.
pub open spec fn object_definition_printed<'a>(d: ObjectTypeDefinition<'a>) -> Seq<ChunkView> {
    description_printed(d.description)
        + marked(d.type_keyword.position, "type "@)
        + d.name.printed()
        + implements_printed(d.implements@)
        + directives_printed(d.directives@)
        + block_printed(d.fields@)
        + text("\n"@)
}

fn print_object_definition<'a>(d: &ObjectTypeDefinition<'a>, writer: &mut GraphQLWriter)
    ensures
        final(writer)@ == old(writer)@ + object_definition_printed(*d),
{
    print_description(&d.description, writer);
    writer.write_for("type ", d.type_keyword.position);
    d.name.print_graphql(writer);
    print_implements(d.implements.as_slice(), writer);
    print_directives(d.directives.as_slice(), writer);
    print_block(d.fields.as_slice(), writer);
    writer.write("\n");
    assert(final(writer)@ =~= old(writer)@ + object_definition_printed(*d));
}
/// The output of printing an InterfaceTypeDefinition.
pub open spec fn interface_definition_printed<'a>(d: InterfaceTypeDefinition<'a>) -> Seq<ChunkView> {
    description_printed(d.description)
        + text("interface "@)
        + d.name.printed()
        + implements_printed(d.implements@)
        + directives_printed(d.directives@)
        + block_printed(d.fields@)
        + text("\n"@)
}

fn print_interface_definition<'a>(d: &InterfaceTypeDefinition<'a>, writer: &mut GraphQLWriter)
    ensures
        final(writer)@ == old(writer)@ + interface_definition_printed(*d),
{
    print_description(&d.description, writer);
    writer.write("interface ");
    d.name.print_graphql(writer);
    print_implements(d.implements.as_slice(), writer);
    print_directives(d.directives.as_slice(), writer);
    print_block(d.fields.as_slice(), writer);
    writer.write("\n");
    assert(final(writer)@ =~= old(writer)@ + interface_definition_printed(*d));
}
/// The output of printing an UnionTypeDefinition.
pub open spec fn union_definition_printed<'a>(d: UnionTypeDefinition<'a>) -> Seq<ChunkView> {
    description_printed(d.description)
        + text("union "@)
        + d.name.printed()
        + directives_printed(d.directives@)
        + text(" ="@)
        + all_printed(d.members@, " | "@, Seq::empty())
        + text("\n"@)
}

fn print_union_definition<'a>(d: &UnionTypeDefinition<'a>, writer: &mut GraphQLWriter)
    ensures
        final(writer)@ == old(writer)@ + union_definition_printed(*d),
{
    print_description(&d.description, writer);
    writer.write("union ");
    d.name.print_graphql(writer);
    print_directives(d.directives.as_slice(), writer);
    writer.write(" =");
    print_each(d.members.as_slice(), " | ", "", writer);
    proof {
        lemma_empty_literal();
    }
    writer.write("\n");
    assert(final(writer)@ =~= old(writer)@ + union_definition_printed(*d));
}
/// The output of printing an EnumTypeDefinition.
pub open spec fn enum_definition_printed<'a>(d: EnumTypeDefinition<'a>) -> Seq<ChunkView> {
    description_printed(d.description)
        + text("enum "@)
        + d.name.printed()
        + directives_printed(d.directives@)
        + block_printed(d.values@)
        + text("\n"@)
}

fn print_enum_definition<'a>(d: &EnumTypeDefinition<'a>, writer: &mut GraphQLWriter)
    ensures
        final(writer)@ == old(writer)@ + enum_definition_printed(*d),
{
    print_description(&d.description, writer);
    writer.write("enum ");
    d.name.print_graphql(writer);
    print_directives(d.directives.as_slice(), writer);
    print_block(d.values.as_slice(), writer);
    writer.write("\n");
    assert(final(writer)@ =~= old(writer)@ + enum_definition_printed(*d));
}
/// The output of printing an InputObjectTypeDefinition.
pub open spec fn input_object_definition_printed<'a>(d: InputObjectTypeDefinition<'a>) -> Seq<ChunkView> {
    description_printed(d.description)
        + text("input "@)
        + d.name.printed()
        + directives_printed(d.directives@)
        + block_printed(d.fields@)
        + text("\n"@)
}

fn print_input_object_definition<'a>(d: &InputObjectTypeDefinition<'a>, writer: &mut GraphQLWriter)
    ensures
        final(writer)@ == old(writer)@ + input_object_definition_printed(*d),
{
    print_description(&d.description, writer);
    writer.write("input ");
    d.name.print_graphql(writer);
    print_directives(d.directives.as_slice(), writer);
    print_block(d.fields.as_slice(), writer);
    writer.write("\n");
    assert(final(writer)@ =~= old(writer)@ + input_object_definition_printed(*d));
}
/// The output of printing a ScalarTypeExtension.
pub open spec fn scalar_extension_printed<'a>(d: ScalarTypeExtension<'a>) -> Seq<ChunkView> {
    text("extend scalar "@)
        + d.name.printed()
        + directives_printed(d.directives@)
        + text("\n"@)
}

fn print_scalar_extension<'a>(d: &ScalarTypeExtension<'a>, writer: &mut GraphQLWriter)
    ensures
        final(writer)@ == old(writer)@ + scalar_extension_printed(*d),
{
    writer.write("extend scalar ");
    d.name.print_graphql(writer);
    print_directives(d.directives.as_slice(), writer);
    writer.write("\n");
    assert(final(writer)@ =~= old(writer)@ + scalar_extension_printed(*d));
}
/// The output of printing an ObjectTypeExtension.
pub open spec fn object_extension_printed<'a>(d: ObjectTypeExtension<'a>) -> Seq<ChunkView> {
    text("extend type "@)
        + d.name.printed()
        + implements_printed(d.implements@)
        + directives_printed(d.directives@)
        + block_printed(d.fields@)
        + text("\n"@)
}

fn print_object_extension<'a>(d: &ObjectTypeExtension<'a>, writer: &mut GraphQLWriter)
    ensures
        final(writer)@ == old(writer)@ + object_extension_printed(*d),
{
    writer.write("extend type ");
    d.name.print_graphql(writer);
    print_implements(d.implements.as_slice(), writer);
    print_directives(d.directives.as_slice(), writer);
    print_block(d.fields.as_slice(), writer);
    writer.write("\n");
    assert(final(writer)@ =~= old(writer)@ + object_extension_printed(*d));
}
/// The output of printing an InterfaceTypeExtension.
pub open spec fn interface_extension_printed<'a>(d: InterfaceTypeExtension<'a>) -> Seq<ChunkView> {
    text("extend interface "@)
        + d.name.printed()
        + implements_printed(d.implements@)
        + directives_printed(d.directives@)
        + block_printed(d.fields@)
        + text("\n"@)
}

fn print_interface_extension<'a>(d: &InterfaceTypeExtension<'a>, writer: &mut GraphQLWriter)
    ensures
        final(writer)@ == old(writer)@ + interface_extension_printed(*d),
{
    writer.write("extend interface ");
    d.name.print_graphql(writer);
    print_implements(d.implements.as_slice(), writer);
    print_directives(d.directives.as_slice(), writer);
    print_block(d.fields.as_slice(), writer);
    writer.write("\n");
    assert(final(writer)@ =~= old(writer)@ + interface_extension_printed(*d));
}
/// The output of printing an UnionTypeExtension.
pub open spec fn union_extension_printed<'a>(d: UnionTypeExtension<'a>) -> Seq<ChunkView> {
    text("extend union "@)
        + d.name.printed()
        + directives_printed(d.directives@)
        + text(" ="@)
        + all_printed(d.members@, " | "@, Seq::empty())
        + text("\n"@)
}

fn print_union_extension<'a>(d: &UnionTypeExtension<'a>, writer: &mut GraphQLWriter)
    ensures
        final(writer)@ == old(writer)@ + union_extension_printed(*d),
{
    writer.write("extend union ");
    d.name.print_graphql(writer);
    print_directives(d.directives.as_slice(), writer);
    writer.write(" =");
    print_each(d.members.as_slice(), " | ", "", writer);
    proof {
        lemma_empty_literal();
    }
    writer.write("\n");
    assert(final(writer)@ =~= old(writer)@ + union_extension_printed(*d));
}
/// The output of printing an EnumTypeExtension.
pub open spec fn enum_extension_printed<'a>(d: EnumTypeExtension<'a>) -> Seq<ChunkView> {
    text("extend enum "@)
        + d.name.printed()
        + directives_printed(d.directives@)
        + block_printed(d.values@)
        + text("\n"@)
}

fn print_enum_extension<'a>(d: &EnumTypeExtension<'a>, writer: &mut GraphQLWriter)
    ensures
        final(writer)@ == old(writer)@ + enum_extension_printed(*d),
{
    writer.write("extend enum ");
    d.name.print_graphql(writer);
    print_directives(d.directives.as_slice(), writer);
    print_block(d.values.as_slice(), writer);
    writer.write("\n");
    assert(final(writer)@ =~= old(writer)@ + enum_extension_printed(*d));
}
/// The output of printing an InputObjectTypeExtension.
pub open spec fn input_object_extension_printed<'a>(d: InputObjectTypeExtension<'a>) -> Seq<ChunkView> {
    text("extend input "@)
        + d.name.printed()
        + directives_printed(d.directives@)
        + block_printed(d.fields@)
        + text("\n"@)
}

fn print_input_object_extension<'a>(d: &InputObjectTypeExtension<'a>, writer: &mut GraphQLWriter)
    ensures
        final(writer)@ == old(writer)@ + input_object_extension_printed(*d),
{
    writer.write("extend input ");
    d.name.print_graphql(writer);
    print_directives(d.directives.as_slice(), writer);
    print_block(d.fields.as_slice(), writer);
    writer.write("\n");
    assert(final(writer)@ =~= old(writer)@ + input_object_extension_printed(*d));
}
impl<'a> GraphQLPrinter for TypeDefinition<'a> {
    /// Each kind of definition with its description, keyword, name, implemented interfaces,
    /// directives and members, ended by a line break. The `type` keyword of an object type
    /// starts at the keyword's position.
    open spec fn printed(&self) -> Seq<ChunkView> {
        match *self {
            TypeDefinition::Scalar(d) => scalar_definition_printed(d),
            TypeDefinition::Object(d) => object_definition_printed(d),
            TypeDefinition::Interface(d) => interface_definition_printed(d),
            TypeDefinition::Union(d) => union_definition_printed(d),
            TypeDefinition::Enum(d) => enum_definition_printed(d),
            TypeDefinition::InputObject(d) => input_object_definition_printed(d),
        }
    }

    fn print_graphql(&self, writer: &mut GraphQLWriter) {
        match self {
            TypeDefinition::Scalar(d) => print_scalar_definition(d, writer),
            TypeDefinition::Object(d) => print_object_definition(d, writer),
            TypeDefinition::Interface(d) => print_interface_definition(d, writer),
            TypeDefinition::Union(d) => print_union_definition(d, writer),
            TypeDefinition::Enum(d) => print_enum_definition(d, writer),
            TypeDefinition::InputObject(d) => print_input_object_definition(d, writer),
        }
    }
}

impl<'a> GraphQLPrinter for TypeExtension<'a> {
    /// Each kind of extension as `extend` and the keyword, then the name, implemented
    /// interfaces, directives and members, ended by a line break.
    open spec fn printed(&self) -> Seq<ChunkView> {
        match *self {
            TypeExtension::Scalar(d) => scalar_extension_printed(d),
            TypeExtension::Object(d) => object_extension_printed(d),
            TypeExtension::Interface(d) => interface_extension_printed(d),
            TypeExtension::Union(d) => union_extension_printed(d),
            TypeExtension::Enum(d) => enum_extension_printed(d),
            TypeExtension::InputObject(d) => input_object_extension_printed(d),
        }
    }

    fn print_graphql(&self, writer: &mut GraphQLWriter) {
        match self {
            TypeExtension::Scalar(d) => print_scalar_extension(d, writer),
            TypeExtension::Object(d) => print_object_extension(d, writer),
            TypeExtension::Interface(d) => print_interface_extension(d, writer),
            TypeExtension::Union(d) => print_union_extension(d, writer),
            TypeExtension::Enum(d) => print_enum_extension(d, writer),
            TypeExtension::InputObject(d) => print_input_object_extension(d, writer),
        }
    }
}

impl<'a> GraphQLPrinter for TypeSystemDefinition<'a> {
    open spec fn printed(&self) -> Seq<ChunkView> {
        match *self {
            TypeSystemDefinition::SchemaDefinition(d) => d.printed(),
            TypeSystemDefinition::TypeDefinition(d) => d.printed(),
            TypeSystemDefinition::DirectiveDefinition(d) => d.printed(),
        }
    }

    fn print_graphql(&self, writer: &mut GraphQLWriter) {
        match self {
            TypeSystemDefinition::SchemaDefinition(def) => def.print_graphql(writer),
            TypeSystemDefinition::TypeDefinition(def) => def.print_graphql(writer),
            TypeSystemDefinition::DirectiveDefinition(def) => def.print_graphql(writer),
        }
    }
}

impl<'a> GraphQLPrinter for TypeSystemDefinitionOrExtension<'a> {
    open spec fn printed(&self) -> Seq<ChunkView> {
        match *self {
            TypeSystemDefinitionOrExtension::SchemaDefinition(d) => d.printed(),
            TypeSystemDefinitionOrExtension::TypeDefinition(d) => d.printed(),
            TypeSystemDefinitionOrExtension::DirectiveDefinition(d) => d.printed(),
            TypeSystemDefinitionOrExtension::SchemaExtension(d) => d.printed(),
            TypeSystemDefinitionOrExtension::TypeExtension(d) => d.printed(),
        }
    }

    fn print_graphql(&self, writer: &mut GraphQLWriter) {
        match self {
            TypeSystemDefinitionOrExtension::SchemaDefinition(def) => def.print_graphql(writer),
            TypeSystemDefinitionOrExtension::TypeDefinition(def) => def.print_graphql(writer),
            TypeSystemDefinitionOrExtension::DirectiveDefinition(def) => def.print_graphql(writer),
            TypeSystemDefinitionOrExtension::SchemaExtension(def) => def.print_graphql(writer),
            TypeSystemDefinitionOrExtension::TypeExtension(def) => def.print_graphql(writer),
        }
    }
}

impl<'a> GraphQLPrinter for TypeSystemDocument<'a> {
    /// Each definition followed by a line break.
    open spec fn printed(&self) -> Seq<ChunkView> {
        all_printed(self.definitions@, Seq::empty(), "\n"@)
    }

    fn print_graphql(&self, writer: &mut GraphQLWriter) {
        print_each(self.definitions.as_slice(), "", "\n", writer);
        proof {
            lemma_empty_literal();
        }
    }
}

impl<'a> GraphQLPrinter for TypeSystemOrExtensionDocument<'a> {
    /// Each definition or extension followed by a line break.
    open spec fn printed(&self) -> Seq<ChunkView> {
        all_printed(self.definitions@, Seq::empty(), "\n"@)
    }

    fn print_graphql(&self, writer: &mut GraphQLWriter) {
        print_each(self.definitions.as_slice(), "", "\n", writer);
        proof {
            lemma_empty_literal();
        }
    }
}


/// The text of printed output: its pieces of text in order, without marks and changes of
/// indentation.
pub open spec fn printed_text(s: Seq<ChunkView>) -> Seq<char>
    decreases s.len(),
{
    if s.len() == 0 {
        Seq::empty()
    } else {
        printed_text(s.drop_last()) + match s.last() {
            ChunkView::Text(t) => t,
            _ => Seq::empty(),
        }
    }
}

/// The text of two outputs, one after the other, is the text of the first, then that of
/// the second.
pub proof fn lemma_printed_text_add(a: Seq<ChunkView>, b: Seq<ChunkView>)
    ensures
        printed_text(a + b) == printed_text(a) + printed_text(b),
    decreases b.len(),
{
    if b.len() == 0 {
        assert(a + b =~= a);
    } else {
        lemma_printed_text_add(a, b.drop_last());
        assert((a + b).drop_last() =~= a + b.drop_last());
        assert((a + b).last() == b.last());
    }
}

/// Whether a type definition is what a type extension adds, as a definition: the same kind,
/// name, implemented interfaces, directives and members, and no description.
pub open spec fn defines_extension<'a>(e: TypeExtension<'a>, d: TypeDefinition<'a>) -> bool {
    match (e, d) {
        (TypeExtension::Scalar(x), TypeDefinition::Scalar(y)) => y.description is None && x.name
            == y.name && x.directives@ == y.directives@,
        (TypeExtension::Object(x), TypeDefinition::Object(y)) => y.description is None && x.name
            == y.name && x.implements@ == y.implements@ && x.directives@ == y.directives@
            && x.fields@ == y.fields@,
        (TypeExtension::Interface(x), TypeDefinition::Interface(y)) => y.description is None
            && x.name == y.name && x.implements@ == y.implements@ && x.directives@
            == y.directives@ && x.fields@ == y.fields@,
        (TypeExtension::Union(x), TypeDefinition::Union(y)) => y.description is None && x.name
            == y.name && x.directives@ == y.directives@ && x.members@ == y.members@,
        (TypeExtension::Enum(x), TypeDefinition::Enum(y)) => y.description is None && x.name
            == y.name && x.directives@ == y.directives@ && x.values@ == y.values@,
        (TypeExtension::InputObject(x), TypeDefinition::InputObject(y)) => y.description is None
            && x.name == y.name && x.directives@ == y.directives@ && x.fields@ == y.fields@,
        _ => false,
    }
}

/// The number of pieces that the keyword of a printed type definition takes: two for an
/// object type, whose keyword is marked with its position, one for the others.
pub open spec fn keyword_pieces<'a>(d: TypeDefinition<'a>) -> int {
    if d is Object {
        2
    } else {
        1
    }
}

proof fn lemma_extend_shape(
    ep: Seq<ChunkView>,
    dp: Seq<ChunkView>,
    ekw: Seq<char>,
    kw: Seq<char>,
    p: Seq<ChunkView>,
    r: Seq<ChunkView>,
)
    requires
        ep == text(ekw) + r,
        dp == p + r,
        printed_text(p) == kw,
        ekw == "extend "@ + kw,
    ensures
        printed_text(ep) == "extend "@ + printed_text(dp),
        ep.drop_first() == dp.skip(p.len() as int),
{
    lemma_one_text(ekw);
    lemma_printed_text_add(text(ekw), r);
    lemma_printed_text_add(p, r);
    assert(ekw + printed_text(r) =~= "extend "@ + (kw + printed_text(r)));
    assert(ep.drop_first() =~= r);
    assert(dp.skip(p.len() as int) =~= r);
}

/// The text of an output made of one piece of text is that text.
pub proof fn lemma_one_text(kw: Seq<char>)
    ensures
        printed_text(text(kw)) == kw,
{
    let s = text(kw);
    assert(s.drop_last() =~= Seq::<ChunkView>::empty());
    assert(printed_text(s.drop_last()) == Seq::<char>::empty());
    assert(s.last() == ChunkView::Text(kw));
    assert(Seq::<char>::empty() + kw =~= kw);
}

proof fn lemma_extends_scalar<'a>(x: ScalarTypeExtension<'a>, y: ScalarTypeDefinition<'a>)
    requires
        defines_extension(TypeExtension::Scalar(x), TypeDefinition::Scalar(y)),
    ensures
        printed_text(scalar_extension_printed(x)) == "extend "@ + printed_text(scalar_definition_printed(y)),
        scalar_extension_printed(x).drop_first() == scalar_definition_printed(y).skip(1),
{
    reveal_strlit("extend ");
        reveal_strlit("extend scalar ");
        reveal_strlit("scalar ");
        assert("extend scalar "@ =~= "extend "@ + "scalar "@);
        let r = x.name.printed() + directives_printed(x.directives@) + text("\n"@);
        assert(description_printed(y.description) =~= Seq::empty());
        lemma_one_text("scalar "@);
        assert(scalar_extension_printed(x) =~= text("extend scalar "@) + r);
        assert(scalar_definition_printed(y) =~= text("scalar "@) + r);
        lemma_extend_shape(scalar_extension_printed(x), scalar_definition_printed(y), "extend scalar "@, "scalar "@, text("scalar "@), r);
}

proof fn lemma_extends_object<'a>(x: ObjectTypeExtension<'a>, y: ObjectTypeDefinition<'a>)
    requires
        defines_extension(TypeExtension::Object(x), TypeDefinition::Object(y)),
    ensures
        printed_text(object_extension_printed(x)) == "extend "@ + printed_text(object_definition_printed(y)),
        object_extension_printed(x).drop_first() == object_definition_printed(y).skip(2),
{
    reveal_strlit("extend ");
        reveal_strlit("extend type ");
        reveal_strlit("type ");
        assert("extend type "@ =~= "extend "@ + "type "@);
        let r = x.name.printed() + implements_printed(x.implements@) + directives_printed(
            x.directives@,
        ) + block_printed(x.fields@) + text("\n"@);
        let p = marked(y.type_keyword.position, "type "@);
        assert(description_printed(y.description) =~= Seq::empty());
        assert(printed_text(p) == "type "@) by {
            let q = p.drop_last();
            assert(q =~= seq![ChunkView::Mark(y.type_keyword.position)]);
            assert(q.drop_last() =~= Seq::<ChunkView>::empty());
            assert(printed_text(q.drop_last()) == Seq::<char>::empty());
            assert(printed_text(q) =~= Seq::<char>::empty());
            assert(p.last() == ChunkView::Text("type "@));
            assert(Seq::<char>::empty() + "type "@ =~= "type "@);
        }
        assert(object_extension_printed(x) =~= text("extend type "@) + r);
        assert(object_definition_printed(y) =~= p + r);
        lemma_extend_shape(object_extension_printed(x), object_definition_printed(y), "extend type "@, "type "@, p, r);
}

proof fn lemma_extends_interface<'a>(x: InterfaceTypeExtension<'a>, y: InterfaceTypeDefinition<'a>)
    requires
        defines_extension(TypeExtension::Interface(x), TypeDefinition::Interface(y)),
    ensures
        printed_text(interface_extension_printed(x)) == "extend "@ + printed_text(interface_definition_printed(y)),
        interface_extension_printed(x).drop_first() == interface_definition_printed(y).skip(1),
{
    reveal_strlit("extend ");
        reveal_strlit("extend interface ");
        reveal_strlit("interface ");
        assert("extend interface "@ =~= "extend "@ + "interface "@);
        let r = x.name.printed() + implements_printed(x.implements@) + directives_printed(
            x.directives@,
        ) + block_printed(x.fields@) + text("\n"@);
        assert(description_printed(y.description) =~= Seq::empty());
        lemma_one_text("interface "@);
        assert(interface_extension_printed(x) =~= text("extend interface "@) + r);
        assert(interface_definition_printed(y) =~= text("interface "@) + r);
        lemma_extend_shape(interface_extension_printed(x), interface_definition_printed(y), "extend interface "@, "interface "@, text("interface "@), r);
}

proof fn lemma_extends_union<'a>(x: UnionTypeExtension<'a>, y: UnionTypeDefinition<'a>)
    requires
        defines_extension(TypeExtension::Union(x), TypeDefinition::Union(y)),
    ensures
        printed_text(union_extension_printed(x)) == "extend "@ + printed_text(union_definition_printed(y)),
        union_extension_printed(x).drop_first() == union_definition_printed(y).skip(1),
{
    reveal_strlit("extend ");
        reveal_strlit("extend union ");
        reveal_strlit("union ");
        assert("extend union "@ =~= "extend "@ + "union "@);
        let r = x.name.printed() + directives_printed(x.directives@) + text(" ="@) + all_printed(
            x.members@,
            " | "@,
            Seq::empty(),
        ) + text("\n"@);
        assert(description_printed(y.description) =~= Seq::empty());
        lemma_one_text("union "@);
        assert(union_extension_printed(x) =~= text("extend union "@) + r);
        assert(union_definition_printed(y) =~= text("union "@) + r);
        lemma_extend_shape(union_extension_printed(x), union_definition_printed(y), "extend union "@, "union "@, text("union "@), r);
}

proof fn lemma_extends_enum<'a>(x: EnumTypeExtension<'a>, y: EnumTypeDefinition<'a>)
    requires
        defines_extension(TypeExtension::Enum(x), TypeDefinition::Enum(y)),
    ensures
        printed_text(enum_extension_printed(x)) == "extend "@ + printed_text(enum_definition_printed(y)),
        enum_extension_printed(x).drop_first() == enum_definition_printed(y).skip(1),
{
    reveal_strlit("extend ");
        reveal_strlit("extend enum ");
        reveal_strlit("enum ");
        assert("extend enum "@ =~= "extend "@ + "enum "@);
        let r = x.name.printed() + directives_printed(x.directives@) + block_printed(x.values@)
            + text("\n"@);
        assert(description_printed(y.description) =~= Seq::empty());
        lemma_one_text("enum "@);
        assert(enum_extension_printed(x) =~= text("extend enum "@) + r);
        assert(enum_definition_printed(y) =~= text("enum "@) + r);
        lemma_extend_shape(enum_extension_printed(x), enum_definition_printed(y), "extend enum "@, "enum "@, text("enum "@), r);
}

proof fn lemma_extends_inputobject<'a>(x: InputObjectTypeExtension<'a>, y: InputObjectTypeDefinition<'a>)
    requires
        defines_extension(TypeExtension::InputObject(x), TypeDefinition::InputObject(y)),
    ensures
        printed_text(input_object_extension_printed(x)) == "extend "@ + printed_text(input_object_definition_printed(y)),
        input_object_extension_printed(x).drop_first() == input_object_definition_printed(y).skip(1),
{
    reveal_strlit("extend ");
        reveal_strlit("extend input ");
        reveal_strlit("input ");
        assert("extend input "@ =~= "extend "@ + "input "@);
        let r = x.name.printed() + directives_printed(x.directives@) + block_printed(x.fields@)
            + text("\n"@);
        assert(description_printed(y.description) =~= Seq::empty());
        lemma_one_text("input "@);
        assert(input_object_extension_printed(x) =~= text("extend input "@) + r);
        assert(input_object_definition_printed(y) =~= text("input "@) + r);
        lemma_extend_shape(input_object_extension_printed(x), input_object_definition_printed(y), "extend input "@, "input "@, text("input "@), r);
}

/// An extension prints as the definition that it adds with `extend ` in front: the same
/// text after `extend `, and, after the keyword, the same pieces, indentation included.
pub proof fn law_extension_prints_as_extended_definition<'a>(e: TypeExtension<'a>, d: TypeDefinition<'a>)
    requires
        defines_extension(e, d),
    ensures
        printed_text(e.printed()) == "extend "@ + printed_text(d.printed()),
        e.printed().drop_first() == d.printed().skip(keyword_pieces(d)),
{
    match (e, d) {
        (TypeExtension::Scalar(x), TypeDefinition::Scalar(y)) => lemma_extends_scalar(x, y),
        (TypeExtension::Object(x), TypeDefinition::Object(y)) => lemma_extends_object(x, y),
        (TypeExtension::Interface(x), TypeDefinition::Interface(y)) => lemma_extends_interface(x, y),
        (TypeExtension::Union(x), TypeDefinition::Union(y)) => lemma_extends_union(x, y),
        (TypeExtension::Enum(x), TypeDefinition::Enum(y)) => lemma_extends_enum(x, y),
        (TypeExtension::InputObject(x), TypeDefinition::InputObject(y)) => lemma_extends_inputobject(x, y),
        _ => {},
    }
}

} // verus!
