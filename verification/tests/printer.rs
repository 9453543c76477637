use nitrogql::ast::base::{Ident, Keyword, Pos};
use nitrogql::ast::directive::Directive;
use nitrogql::ast::operation::{ExecutableDefinition, OperationDefinition, OperationDocument, OperationType};
use nitrogql::ast::selection_set::{Field, FragmentSpread, InlineFragment, Selection, SelectionSet};
use nitrogql::ast::type_system::{
    ArgumentsDefinition, DirectiveDefinition, EnumTypeDefinition, EnumValueDefinition,
    FieldDefinition, InputValueDefinition, ObjectTypeDefinition, ObjectTypeExtension, ScalarTypeExtension,
    SchemaDefinition, TypeDefinition, TypeExtension, TypeSystemDefinition, TypeSystemDocument,
    UnionTypeDefinition,
};
use nitrogql::ast::types::{ListType, NamedType, NonNullType, Type};
use nitrogql::ast::value::{
    Arguments, BooleanValue, EnumValue, IntValue, ListValue, NullValue, ObjectValue, StringValue,
    Value,
};
use nitrogql::ast::variable::{Variable, VariableDefinition, VariablesDefinition};
use nitrogql::printer::base::{print_type, GraphQLPrinter};
use nitrogql::printer::writer::{Chunk, GraphQLWriter};

fn pos() -> Pos {
    Pos::new(0, 0, 0)
}

fn id(name: &'static str) -> Ident<'static> {
    Ident { name, position: pos() }
}

fn named(name: &'static str) -> Type<'static> {
    Type::Named(NamedType { name: id(name) })
}

fn non_null(t: Type<'static>) -> Type<'static> {
    Type::NonNull(Box::new(NonNullType { ty: t }))
}

fn list(t: Type<'static>) -> Type<'static> {
    Type::List(Box::new(ListType { position: pos(), ty: t }))
}

fn int_value(v: &'static str) -> Value<'static> {
    Value::IntValue(IntValue { position: pos(), value: v })
}

fn field_def(name: &'static str, args: Vec<InputValueDefinition<'static>>, ty: Type<'static>) -> FieldDefinition<'static> {
    FieldDefinition {
        description: None,
        name: id(name),
        arguments: if args.is_empty() { None } else { Some(ArgumentsDefinition { input_values: args }) },
        ty,
        directives: vec![],
    }
}

fn input(name: &'static str, ty: Type<'static>) -> InputValueDefinition<'static> {
    InputValueDefinition {
        description: None,
        position: pos(),
        name: id(name),
        ty,
        default_value: None,
        directives: vec![],
    }
}

fn render<T: GraphQLPrinter>(node: &T) -> String {
    let mut writer = GraphQLWriter::new();
    node.print_graphql(&mut writer);
    writer.render()
}

#[test]
fn value_text() {
    assert_eq!(int_value("42").to_string(), "42");
    assert_eq!(Value::BooleanValue(BooleanValue { position: pos(), keyword: "true", value: true }).to_string(), "true");
    assert_eq!(Value::NullValue(NullValue { position: pos(), keyword: "null" }).to_string(), "null");
    assert_eq!(Value::StringValue(StringValue { position: pos(), value: "hi".to_string() }).to_string(), "\"hi\"");
    assert_eq!(Value::EnumValue(EnumValue { position: pos(), value: "RED" }).to_string(), "RED");
    assert_eq!(Value::Variable(Variable { name: "id", position: pos() }).to_string(), "$id");
    let l = Value::ListValue(ListValue { position: pos(), values: vec![int_value("1"), int_value("2"), int_value("3")] });
    assert_eq!(l.to_string(), "[1,2,3]");
    let o = Value::ObjectValue(ObjectValue {
        position: pos(),
        fields: vec![(id("a"), int_value("1")), (id("b"), Value::ListValue(ListValue { position: pos(), values: vec![] }))],
    });
    assert_eq!(o.to_string(), "{a: 1,b: []}");
}

#[test]
fn type_references_are_printed() {
    let mut writer = GraphQLWriter::new();
    print_type(&non_null(list(non_null(named("String")))), &mut writer);
    assert_eq!(writer.render(), "[String!]!");
}

#[test]
fn object_type_definition_is_printed() {
    let def = TypeDefinition::Object(ObjectTypeDefinition {
        description: Some(StringValue { position: pos(), value: "A user".to_string() }),
        position: pos(),
        name: id("User"),
        implements: vec![id("Node"), id("Entity")],
        directives: vec![],
        fields: vec![
            field_def("id", vec![], non_null(named("ID"))),
            field_def("posts", vec![input("first", named("Int")), input("after", named("String"))], list(named("Post"))),
        ],
        type_keyword: Keyword { name: "type", position: pos() },
    });
    assert_eq!(
        render(&def),
        "\"A user\"\ntype User implements & Node & Entity {\n  id: ID!\n  posts(first: Int, after: String): [Post]\n}\n"
    );
}

#[test]
fn other_type_definitions_are_printed() {
    let union = TypeDefinition::Union(UnionTypeDefinition {
        description: None,
        position: pos(),
        name: id("Result"),
        directives: vec![],
        members: vec![id("A"), id("B")],
        union_keyword: Keyword { name: "union", position: pos() },
    });
    assert_eq!(render(&union), "union Result = | A | B\n");
    let enum_def = TypeDefinition::Enum(EnumTypeDefinition {
        description: None,
        position: pos(),
        name: id("Color"),
        directives: vec![Directive { position: pos(), name: id("deprecated"), arguments: None }],
        values: vec![
            EnumValueDefinition { description: None, name: id("RED"), directives: vec![] },
            EnumValueDefinition { description: None, name: id("BLUE"), directives: vec![] },
        ],
        enum_keyword: Keyword { name: "enum", position: pos() },
    });
    assert_eq!(render(&enum_def), "enum Color @deprecated {\n  RED\n  BLUE\n}\n");
    let ext = TypeExtension::Scalar(ScalarTypeExtension { position: pos(), name: id("Date"), directives: vec![] });
    assert_eq!(render(&ext), "extend scalar Date\n");
}

#[test]
fn schema_and_directive_definitions_are_printed() {
    let doc = TypeSystemDocument {
        definitions: vec![
            TypeSystemDefinition::SchemaDefinition(SchemaDefinition {
                description: None,
                position: pos(),
                directives: vec![],
                definitions: vec![(OperationType::Query, id("Q")), (OperationType::Mutation, id("M"))],
            }),
            TypeSystemDefinition::DirectiveDefinition(DirectiveDefinition {
                description: None,
                position: pos(),
                name: id("auth"),
                arguments: Some(ArgumentsDefinition { input_values: vec![input("role", non_null(named("String")))] }),
                repeatable: Some(id("repeatable")),
                locations: vec![id("FIELD"), id("OBJECT")],
                directive_keyword: Keyword { name: "directive", position: pos() },
            }),
        ],
    };
    assert_eq!(
        render(&doc),
        "schema {\n  query: Q\n  mutation: M\n}\n\ndirective @auth(role: String!) repeatable on | FIELD | OBJECT\n\n"
    );
}

#[test]
fn operation_is_printed() {
    let op = OperationDefinition {
        position: pos(),
        operation_type: OperationType::Query,
        name: Some(id("GetUser")),
        variables_definition: Some(VariablesDefinition {
            position: pos(),
            definitions: vec![VariableDefinition {
                pos: pos(),
                name: Variable { name: "id", position: pos() },
                ty: non_null(named("ID")),
                default_value: None,
                directives: vec![],
            }],
        }),
        directives: vec![],
        selection_set: SelectionSet {
            position: pos(),
            selections: vec![
                Selection::Field(Field {
                    alias: Some(id("me")),
                    name: id("user"),
                    arguments: Some(Arguments {
                        position: pos(),
                        arguments: vec![(id("id"), Value::Variable(Variable { name: "id", position: pos() }))],
                    }),
                    directives: vec![],
                    selection_set: Some(SelectionSet {
                        position: pos(),
                        selections: vec![Selection::Field(Field {
                            alias: None,
                            name: id("name"),
                            arguments: None,
                            directives: vec![],
                            selection_set: None,
                        })],
                    }),
                }),
                Selection::FragmentSpread(FragmentSpread { position: pos(), fragment_name: id("F"), directives: vec![] }),
                Selection::InlineFragment(InlineFragment {
                    position: pos(),
                    type_condition: Some(id("User")),
                    directives: vec![],
                    selection_set: SelectionSet { position: pos(), selections: vec![] },
                }),
            ],
        },
    };
    let doc = OperationDocument { position: pos(), definitions: vec![ExecutableDefinition::OperationDefinition(op)] };
    let mut writer = GraphQLWriter::new();
    doc.print_graphql(&mut writer);
    assert_eq!(
        writer.render(),
        "query GetUser($id: ID!) {\n  me: user(id: $id) {\n    name\n  }\n  ... F\n  ... on User {\n  }\n}\n"
    );
}

#[test]
fn many_arguments_go_on_lines_of_their_own() {
    let d = Directive {
        position: pos(),
        name: id("d"),
        arguments: Some(Arguments { position: pos(), arguments: vec![(id("a"), int_value("1")), (id("b"), int_value("2"))] }),
    };
    assert_eq!(render(&d), "@d(\n  a: 1\n  b: 2\n)");
}

#[test]
fn dedent_below_zero_stays_at_zero() {
    let mut writer = GraphQLWriter::new();
    writer.dedent();
    writer.write("a\n");
    writer.indent();
    writer.write("b\n\nc");
    assert_eq!(writer.render(), "a\n  b\n\n  c");
}

#[test]
fn extension_prints_as_definition_with_extend() {
    let fields = || vec![field_def("id", vec![], non_null(named("ID")))];
    let ext = TypeExtension::Object(ObjectTypeExtension {
        position: pos(),
        name: id("User"),
        implements: vec![id("Node")],
        directives: vec![],
        fields: fields(),
    });
    let def = TypeDefinition::Object(ObjectTypeDefinition {
        description: None,
        position: pos(),
        name: id("User"),
        implements: vec![id("Node")],
        directives: vec![],
        fields: fields(),
        type_keyword: Keyword { name: "type", position: pos() },
    });
    assert_eq!(render(&ext), format!("extend {}", render(&def)));
    assert_eq!(render(&ext), "extend type User implements & Node {\n  id: ID!\n}\n");
}

#[test]
fn printed_type_definition_balances_indentation() {
    let def = TypeDefinition::Object(ObjectTypeDefinition {
        description: None,
        position: pos(),
        name: id("User"),
        implements: vec![],
        directives: vec![],
        fields: vec![field_def("posts", vec![input("first", named("Int"))], list(named("Post")))],
        type_keyword: Keyword { name: "type", position: pos() },
    });
    let mut writer = GraphQLWriter::new();
    def.print_graphql(&mut writer);
    let mut level: i64 = 0;
    for c in writer.chunks.iter() {
        match c {
            Chunk::Indent => level += 1,
            Chunk::Dedent => level -= 1,
            _ => {}
        }
        assert!(level >= 0);
    }
    assert_eq!(level, 0);
    assert!(matches!(writer.chunks.last(), Some(Chunk::Text(t)) if t == "\n"));
}
