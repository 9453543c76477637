use nitrogql::ast::base::{Ident, Keyword, Pos};
use nitrogql::ast::directive::Directive;
use nitrogql::ast::operation::{
    ExecutableDefinition, FragmentDefinition, OperationDefinition, OperationDocument, OperationType,
};
use nitrogql::ast::selection_set::{Field, FragmentSpread, InlineFragment, Selection, SelectionSet};
use nitrogql::ast::type_system::{
    ArgumentsDefinition, DirectiveDefinition, EnumTypeDefinition, EnumValueDefinition,
    FieldDefinition, InputObjectTypeDefinition, InputValueDefinition, InterfaceTypeDefinition,
    ObjectTypeDefinition, ScalarTypeDefinition, SchemaDefinition, TypeDefinition,
    TypeSystemDefinition, TypeSystemDocument, UnionTypeDefinition,
};
use nitrogql::ast::types::{ListType, NamedType, NonNullType, Type};
use nitrogql::ast::value::{Arguments, BooleanValue, IntValue, NullValue, ObjectValue, StringValue, Value};
use nitrogql::ast::variable::{Variable, VariableDefinition, VariablesDefinition};
use nitrogql::checker::error::{CheckError, CheckErrorMessage};
use nitrogql::checker::operation_checker::check_operation_document;
use nitrogql::checker::type_system_checker::check_type_system_document;
use nitrogql::checker::types::is_subtype;
use nitrogql::cli::builtins::remove_builtins;
use nitrogql::cli::check::check_documents;
use nitrogql::cli::output::InputFileKind;

fn pos(line: usize) -> Pos {
    Pos::new(line, 0, 0)
}

fn id(name: &'static str) -> Ident<'static> {
    Ident { name, position: pos(0) }
}

fn id_at(name: &'static str, line: usize) -> Ident<'static> {
    Ident { name, position: pos(line) }
}

fn kw(name: &'static str) -> Keyword<'static> {
    Keyword { name, position: pos(0) }
}

fn named(name: &'static str) -> Type<'static> {
    Type::Named(NamedType { name: id(name) })
}

fn nn(t: Type<'static>) -> Type<'static> {
    Type::NonNull(Box::new(NonNullType { ty: t }))
}

fn list(t: Type<'static>) -> Type<'static> {
    Type::List(Box::new(ListType { position: pos(0), ty: t }))
}

fn input(name: &'static str, ty: Type<'static>) -> InputValueDefinition<'static> {
    InputValueDefinition { description: None, position: pos(0), name: id(name), ty, default_value: None, directives: vec![] }
}

fn args_def(values: Vec<InputValueDefinition<'static>>) -> Option<ArgumentsDefinition<'static>> {
    if values.is_empty() {
        None
    } else {
        Some(ArgumentsDefinition { input_values: values })
    }
}

fn fdef(name: &'static str, ty: Type<'static>) -> FieldDefinition<'static> {
    FieldDefinition { description: None, name: id(name), arguments: None, ty, directives: vec![] }
}

fn fdef_args(name: &'static str, args: Vec<InputValueDefinition<'static>>, ty: Type<'static>) -> FieldDefinition<'static> {
    FieldDefinition { description: None, name: id(name), arguments: args_def(args), ty, directives: vec![] }
}

fn scalar(name: &'static str) -> TypeSystemDefinition<'static> {
    TypeSystemDefinition::TypeDefinition(TypeDefinition::Scalar(ScalarTypeDefinition {
        description: None,
        position: pos(0),
        name: id(name),
        directives: vec![],
        scalar_keyword: kw("scalar"),
    }))
}

fn object(name: &'static str, implements: Vec<&'static str>, fields: Vec<FieldDefinition<'static>>) -> TypeSystemDefinition<'static> {
    TypeSystemDefinition::TypeDefinition(TypeDefinition::Object(ObjectTypeDefinition {
        description: None,
        position: pos(0),
        name: id(name),
        implements: implements.into_iter().map(id).collect(),
        directives: vec![],
        fields,
        type_keyword: kw("type"),
    }))
}

fn interface(name: &'static str, implements: Vec<&'static str>, fields: Vec<FieldDefinition<'static>>) -> TypeSystemDefinition<'static> {
    TypeSystemDefinition::TypeDefinition(TypeDefinition::Interface(InterfaceTypeDefinition {
        description: None,
        position: pos(0),
        name: id(name),
        implements: implements.into_iter().map(id).collect(),
        directives: vec![],
        fields,
        interface_keyword: kw("interface"),
    }))
}

fn union(name: &'static str, members: Vec<&'static str>) -> TypeSystemDefinition<'static> {
    TypeSystemDefinition::TypeDefinition(TypeDefinition::Union(UnionTypeDefinition {
        description: None,
        position: pos(0),
        name: id(name),
        directives: vec![],
        members: members.into_iter().map(id).collect(),
        union_keyword: kw("union"),
    }))
}

fn enumeration(name: &'static str, values: Vec<&'static str>) -> TypeSystemDefinition<'static> {
    TypeSystemDefinition::TypeDefinition(TypeDefinition::Enum(EnumTypeDefinition {
        description: None,
        position: pos(0),
        name: id(name),
        directives: vec![],
        values: values
            .into_iter()
            .map(|v| EnumValueDefinition { description: None, name: id(v), directives: vec![] })
            .collect(),
        enum_keyword: kw("enum"),
    }))
}

fn input_object(name: &'static str, fields: Vec<InputValueDefinition<'static>>) -> TypeSystemDefinition<'static> {
    TypeSystemDefinition::TypeDefinition(TypeDefinition::InputObject(InputObjectTypeDefinition {
        description: None,
        position: pos(0),
        name: id(name),
        directives: vec![],
        fields,
        input_keyword: kw("input"),
    }))
}

fn directive_def(
    name: &'static str,
    args: Vec<InputValueDefinition<'static>>,
    repeatable: bool,
    locations: Vec<&'static str>,
) -> TypeSystemDefinition<'static> {
    TypeSystemDefinition::DirectiveDefinition(DirectiveDefinition {
        description: None,
        position: pos(0),
        name: id(name),
        arguments: args_def(args),
        repeatable: if repeatable { Some(id("repeatable")) } else { None },
        locations: locations.into_iter().map(id).collect(),
        directive_keyword: kw("directive"),
    })
}

fn schema_def(roots: Vec<(OperationType, &'static str)>) -> TypeSystemDefinition<'static> {
    TypeSystemDefinition::SchemaDefinition(SchemaDefinition {
        description: None,
        position: pos(0),
        directives: vec![],
        definitions: roots.into_iter().map(|(o, n)| (o, id(n))).collect(),
    })
}

fn builtins() -> Vec<TypeSystemDefinition<'static>> {
    vec![scalar("Int"), scalar("Float"), scalar("String"), scalar("Boolean"), scalar("ID")]
}

fn with_builtins(mut defs: Vec<TypeSystemDefinition<'static>>) -> Vec<TypeSystemDefinition<'static>> {
    defs.extend(builtins());
    defs
}

fn int_value(v: &'static str) -> Value<'static> {
    Value::IntValue(IntValue { position: pos(0), value: v })
}

fn boolean(v: bool) -> Value<'static> {
    Value::BooleanValue(BooleanValue { position: pos(0), keyword: if v { "true" } else { "false" }, value: v })
}

fn null() -> Value<'static> {
    Value::NullValue(NullValue { position: pos(0), keyword: "null" })
}

fn string(v: &str) -> Value<'static> {
    Value::StringValue(StringValue { position: pos(0), value: v.to_string() })
}

fn var(name: &'static str) -> Value<'static> {
    Value::Variable(Variable { name, position: pos(0) })
}

fn obj(fields: Vec<(&'static str, Value<'static>)>) -> Value<'static> {
    Value::ObjectValue(ObjectValue { position: pos(0), fields: fields.into_iter().map(|(k, v)| (id(k), v)).collect() })
}

fn arguments(args: Vec<(&'static str, Value<'static>)>) -> Option<Arguments<'static>> {
    if args.is_empty() {
        None
    } else {
        Some(Arguments { position: pos(0), arguments: args.into_iter().map(|(k, v)| (id(k), v)).collect() })
    }
}

fn dir(name: &'static str, args: Vec<(&'static str, Value<'static>)>) -> Directive<'static> {
    Directive { position: pos(0), name: id(name), arguments: arguments(args) }
}

fn sel_set(selections: Vec<Selection<'static>>) -> SelectionSet<'static> {
    SelectionSet { position: pos(0), selections }
}

fn f(name: &'static str) -> Selection<'static> {
    Selection::Field(Field { alias: None, name: id(name), arguments: None, directives: vec![], selection_set: None })
}

fn f_sub(name: &'static str, sub: Vec<Selection<'static>>) -> Selection<'static> {
    Selection::Field(Field { alias: None, name: id(name), arguments: None, directives: vec![], selection_set: Some(sel_set(sub)) })
}

fn f_full(
    name: &'static str,
    args: Vec<(&'static str, Value<'static>)>,
    directives: Vec<Directive<'static>>,
    sub: Option<Vec<Selection<'static>>>,
) -> Selection<'static> {
    Selection::Field(Field { alias: None, name: id(name), arguments: arguments(args), directives, selection_set: sub.map(sel_set) })
}

fn aliased(alias: &'static str, sel: Selection<'static>) -> Selection<'static> {
    match sel {
        Selection::Field(field) => Selection::Field(Field { alias: Some(id(alias)), ..field }),
        other => other,
    }
}

fn spread(name: &'static str) -> Selection<'static> {
    Selection::FragmentSpread(FragmentSpread { position: pos(0), fragment_name: id(name), directives: vec![] })
}

fn inline(cond: Option<&'static str>, sub: Vec<Selection<'static>>) -> Selection<'static> {
    Selection::InlineFragment(InlineFragment { position: pos(0), type_condition: cond.map(id), directives: vec![], selection_set: sel_set(sub) })
}

fn op(
    operation_type: OperationType,
    name: Option<&'static str>,
    vars: Vec<(&'static str, Type<'static>)>,
    directives: Vec<Directive<'static>>,
    selections: Vec<Selection<'static>>,
) -> ExecutableDefinition<'static> {
    let variables_definition = if vars.is_empty() {
        None
    } else {
        Some(VariablesDefinition {
            position: pos(0),
            definitions: vars
                .into_iter()
                .map(|(n, ty)| VariableDefinition { pos: pos(0), name: Variable { name: n, position: pos(0) }, ty, default_value: None, directives: vec![] })
                .collect(),
        })
    };
    ExecutableDefinition::OperationDefinition(OperationDefinition {
        position: pos(0),
        operation_type,
        name: name.map(id),
        variables_definition,
        directives,
        selection_set: sel_set(selections),
    })
}

fn query(selections: Vec<Selection<'static>>) -> ExecutableDefinition<'static> {
    op(OperationType::Query, None, vec![], vec![], selections)
}

fn fragment(name: &'static str, cond: &'static str, selections: Vec<Selection<'static>>) -> ExecutableDefinition<'static> {
    ExecutableDefinition::FragmentDefinition(FragmentDefinition {
        position: pos(0),
        name: id(name),
        type_condition: id(cond),
        directives: vec![],
        selection_set: sel_set(selections),
    })
}

fn describe(e: &CheckError) -> String {
    match &e.message {
        CheckErrorMessage::TypeMismatch { .. } => "TypeMismatch".to_string(),
        m => format!("{:?}", m),
    }
}

fn check(defs: &Vec<TypeSystemDefinition<'static>>, document: &OperationDocument<'static>) -> Vec<String> {
    check_operation_document(defs, document).iter().map(describe).collect()
}

fn doc(definitions: Vec<ExecutableDefinition<'static>>) -> OperationDocument<'static> {
    OperationDocument { position: pos(0), definitions }
}

fn subscription_schema() -> Vec<TypeSystemDefinition<'static>> {
    with_builtins(vec![
        schema_def(vec![(OperationType::Subscription, "S")]),
        object("S", vec![], vec![fdef("foo", nn(list(nn(named("Foo"))))), fdef("bar", nn(list(nn(named("String")))))]),
        object("Foo", vec![], vec![fdef("hoge", nn(named("Int"))), fdef("piyo", nn(named("Int")))]),
    ])
}

fn directives_schema() -> Vec<TypeSystemDefinition<'static>> {
    with_builtins(vec![
        directive_def("dir_bool_nonnull", vec![input("bool", nn(named("Boolean")))], true, vec!["QUERY", "FIELD"]),
        directive_def("dir_bool", vec![input("bool", named("Boolean"))], true, vec!["MUTATION", "FIELD"]),
        object("Query", vec![], vec![fdef("foo", nn(named("Int")))]),
        object("Mutation", vec![], vec![fdef("bar", nn(named("Int")))]),
        directive_def("dir_input", vec![input("input", named("MyInput"))], false, vec!["QUERY", "FIELD"]),
        input_object("MyInput", vec![input("bool", named("Boolean")), input("int", nn(named("Int")))]),
    ])
}

fn selection_schema() -> Vec<TypeSystemDefinition<'static>> {
    with_builtins(vec![
        object(
            "Query",
            vec![],
            vec![fdef("foo", nn(named("Int"))), fdef("user", named("User")), fdef_args("users", vec![input("name", named("String"))], nn(list(nn(named("User")))))],
        ),
        object(
            "User",
            vec![],
            vec![
                fdef("id", nn(named("ID"))),
                fdef("name", nn(named("String"))),
                fdef("age", named("Int")),
                fdef("pet", named("Animal")),
                fdef("relations", nn(list(nn(named("UserOrPost"))))),
            ],
        ),
        interface("Animal", vec![], vec![fdef("id", nn(named("ID"))), fdef("name", nn(named("String")))]),
        object("Post", vec![], vec![fdef("id", nn(named("ID"))), fdef("title", nn(named("String")))]),
        union("UserOrPost", vec!["User", "Post"]),
    ])
}

fn fragments_schema() -> Vec<TypeSystemDefinition<'static>> {
    with_builtins(vec![
        directive_def("dir_bool", vec![input("bool", nn(named("Boolean")))], false, vec!["FIELD"]),
        scalar("CustomScalar"),
        object(
            "Query",
            vec![],
            vec![
                fdef("foo", nn(named("Int"))),
                fdef("user", named("User")),
                fdef_args("users", vec![input("name", named("String"))], nn(list(nn(named("User"))))),
                fdef("hasTitle", nn(named("HasTitle"))),
                fdef("postOrTag", named("PostOrTag")),
                fdef("userOrSchedule", named("UserOrSchedule")),
            ],
        ),
        object(
            "User",
            vec![],
            vec![
                fdef("id", nn(named("ID"))),
                fdef("name", nn(named("String"))),
                fdef("age", named("Int")),
                fdef("userKind", named("UserKind")),
                fdef("followers", nn(list(nn(named("User"))))),
            ],
        ),
        enumeration("UserKind", vec!["NormalUser", "PremiumUser"]),
        input_object("MyInput", vec![input("arg", nn(named("String")))]),
        object("Post", vec!["HasTitle"], vec![fdef("id", nn(named("ID"))), fdef("title", nn(named("String"))), fdef("body", nn(named("String")))]),
        interface("HasTitle", vec![], vec![fdef("title", nn(named("String")))]),
        interface("HasLabel", vec![], vec![fdef("label", nn(named("String")))]),
        object("Tag", vec!["HasLabel"], vec![fdef("id", nn(named("ID"))), fdef("label", nn(named("String")))]),
        object("Schedule", vec![], vec![fdef("id", nn(named("ID")))]),
        union("UserOrTag", vec!["User", "Tag"]),
        union("PostOrTag", vec!["Post", "Tag"]),
        union("UserOrSchedule", vec!["User", "Schedule"]),
    ])
}

#[test]
fn subscription_root_field() {
    let schema = subscription_schema();
    let d = doc(vec![
        op(OperationType::Subscription, Some("a"), vec![], vec![], vec![f_sub("foo", vec![f("hoge"), f("piyo")])]),
        op(OperationType::Subscription, Some("b"), vec![], vec![], vec![f_sub("foo", vec![f("hoge")]), f("bar")]),
    ]);
    assert_eq!(check(&schema, &d), vec!["SubscriptionMustHaveExactlyOneRootField"]);
}

#[test]
fn subscription_root_field_recursing() {
    let schema = subscription_schema();
    let d = doc(vec![
        op(OperationType::Subscription, None, vec![], vec![], vec![spread("F")]),
        fragment("F", "S", vec![spread("F")]),
    ]);
    assert_eq!(check(&schema, &d), vec!["RecursingFragmentSpread { name: \"F\" }"]);
}

#[test]
fn unknown_directive() {
    let schema = directives_schema();
    let d = doc(vec![op(OperationType::Query, None, vec![], vec![dir("unknown_dir", vec![])], vec![f("foo")])]);
    assert_eq!(check(&schema, &d), vec!["UnknownDirective { name: \"unknown_dir\" }"]);
}

#[test]
fn wrong_location() {
    let schema = directives_schema();
    let d = doc(vec![op(OperationType::Query, None, vec![], vec![dir("dir_bool", vec![])], vec![f("foo")])]);
    assert_eq!(check(&schema, &d), vec!["DirectiveLocationNotAllowed { name: \"dir_bool\" }"]);
}

#[test]
fn wrong_argument_type() {
    let schema = directives_schema();
    let d = doc(vec![op(OperationType::Query, None, vec![], vec![dir("dir_bool_nonnull", vec![("bool", int_value("3"))])], vec![f("foo")])]);
    assert_eq!(check(&schema, &d), vec!["TypeMismatch"]);
}

#[test]
fn unknown_argument() {
    let schema = directives_schema();
    let d = doc(vec![op(
        OperationType::Query,
        None,
        vec![],
        vec![dir("dir_bool_nonnull", vec![("bool", boolean(false)), ("another", boolean(true))])],
        vec![f("foo")],
    )]);
    assert_eq!(check(&schema, &d), vec!["UnknownArgument { name: \"another\" }"]);
}

#[test]
fn no_argument() {
    let schema = directives_schema();
    let d = doc(vec![
        op(OperationType::Query, Some("q"), vec![], vec![dir("dir_bool_nonnull", vec![])], vec![f("foo")]),
        op(
            OperationType::Mutation,
            Some("m"),
            vec![],
            vec![dir("dir_bool", vec![]), dir("dir_bool", vec![("bool", null())]), dir("dir_bool", vec![("bool", boolean(true))])],
            vec![f("bar")],
        ),
    ]);
    let errors = check_operation_document(&schema, &d);
    assert_eq!(errors.iter().map(describe).collect::<Vec<_>>(), vec!["RequiredArgumentNotSpecified { name: \"bool\" }"]);
    assert_eq!(errors[0].additional_info.len(), 1);
}

#[test]
fn variable_check() {
    let schema = directives_schema();
    let d = doc(vec![op(
        OperationType::Query,
        Some("q"),
        vec![("b", named("Boolean")), ("b2", nn(named("Boolean"))), ("i", nn(named("Int")))],
        vec![
            dir("dir_bool_nonnull", vec![("bool", var("b"))]),
            dir("dir_bool_nonnull", vec![("bool", var("b2"))]),
            dir("dir_bool_nonnull", vec![("bool", var("i"))]),
        ],
        vec![f_full("foo", vec![], vec![dir("dir_bool", vec![("bool", var("b"))]), dir("dir_bool", vec![("bool", var("b2"))])], None)],
    )]);
    assert_eq!(check(&schema, &d), vec!["TypeMismatch", "TypeMismatch"]);
}

#[test]
fn unknown_variable() {
    let schema = directives_schema();
    let d = doc(vec![
        op(
            OperationType::Query,
            Some("q1"),
            vec![],
            vec![dir("dir_bool_nonnull", vec![("bool", var("b"))])],
            vec![f_full("foo", vec![], vec![dir("dir_bool", vec![("bool", var("b"))])], None)],
        ),
        op(
            OperationType::Query,
            Some("q2"),
            vec![("b", nn(named("Boolean")))],
            vec![dir("dir_bool_nonnull", vec![("bool", var("b2"))])],
            vec![f_full("foo", vec![], vec![dir("dir_bool", vec![("bool", var("b2"))])], None)],
        ),
    ]);
    assert_eq!(
        check(&schema, &d),
        vec![
            "UnknownVariable { name: \"b\" }",
            "UnknownVariable { name: \"b\" }",
            "UnknownVariable { name: \"b2\" }",
            "UnknownVariable { name: \"b2\" }",
        ]
    );
}

#[test]
fn input_missing_field() {
    let schema = directives_schema();
    let d = doc(vec![op(OperationType::Query, None, vec![], vec![dir("dir_input", vec![("input", obj(vec![("bool", boolean(true))]))])], vec![f("foo")])]);
    let errors = check_operation_document(&schema, &d);
    assert_eq!(errors.iter().map(describe).collect::<Vec<_>>(), vec!["TypeMismatch"]);
    assert_eq!(format!("{:?}", errors[0].additional_info[0].1), "RequiredFieldNotSpecified { name: \"int\" }");
}

#[test]
fn input_extra_field() {
    let schema = directives_schema();
    let d = doc(vec![op(
        OperationType::Query,
        None,
        vec![],
        vec![dir("dir_input", vec![("input", obj(vec![("bool", boolean(true)), ("int", int_value("3")), ("str", string("foobar"))]))])],
        vec![f("foo")],
    )]);
    let errors = check_operation_document(&schema, &d);
    assert_eq!(errors.iter().map(describe).collect::<Vec<_>>(), vec!["TypeMismatch"]);
    assert_eq!(format!("{:?}", errors[0].additional_info[0].1), "UnknownField { name: \"str\" }");
}

#[test]
fn input_field_type_mismatch() {
    let schema = directives_schema();
    let d = doc(vec![op(
        OperationType::Query,
        None,
        vec![],
        vec![dir("dir_input", vec![("input", obj(vec![("bool", boolean(true)), ("int", string("foobar"))]))])],
        vec![f("foo")],
    )]);
    assert_eq!(check(&schema, &d), vec!["TypeMismatch"]);
}

#[test]
fn input_field_null_literal() {
    let schema = directives_schema();
    let d = doc(vec![op(
        OperationType::Query,
        None,
        vec![],
        vec![dir("dir_input", vec![("input", obj(vec![("bool", null()), ("int", int_value("3"))]))])],
        vec![f("foo")],
    )]);
    assert!(check(&schema, &d).is_empty());
}

#[test]
fn unknown_selected_field() {
    let schema = selection_schema();
    let d = doc(vec![query(vec![f_sub("user", vec![f("id")]), f("user2")])]);
    assert_eq!(check(&schema, &d), vec!["FieldNotFound { field_name: \"user2\", owner_name: \"Query\" }"]);
}

#[test]
fn duplicated_selected_field() {
    let schema = selection_schema();
    let d = doc(vec![
        op(OperationType::Query, Some("q1"), vec![], vec![], vec![f_sub("user", vec![f("id")]), f_sub("user", vec![f("id"), f("name")])]),
        op(
            OperationType::Query,
            Some("q2"),
            vec![],
            vec![],
            vec![f_sub("user", vec![f("id")]), aliased("alias", f_sub("user", vec![f("id"), f("name")]))],
        ),
    ]);
    assert!(check(&schema, &d).is_empty());
}

#[test]
fn duplicated_alias() {
    let schema = selection_schema();
    let d = doc(vec![query(vec![f_sub("user", vec![f("id")]), aliased("user", f("foo"))])]);
    assert!(check(&schema, &d).is_empty());
}

#[test]
fn invalid_nested_selection() {
    let schema = selection_schema();
    let d = doc(vec![query(vec![f_sub("foo", vec![f("value")])])]);
    assert_eq!(check(&schema, &d), vec!["SelectionOnInvalidType { kind: Scalar, name: \"Int\" }"]);
}

#[test]
fn check_field_arguments() {
    let schema = selection_schema();
    let d = doc(vec![query(vec![
        f_full("users", vec![("name", string("uhyo"))], vec![], Some(vec![f("id"), f("name"), f("age")])),
        f_full("user", vec![("arg", int_value("123"))], vec![], Some(vec![f("id")])),
    ])]);
    assert_eq!(check(&schema, &d), vec!["ArgumentsNotNeeded { kind: \"field\" }"]);
}

#[test]
fn check_field_arguments_variable() {
    let schema = selection_schema();
    let d = doc(vec![op(
        OperationType::Query,
        None,
        vec![("str", nn(named("String"))), ("num", nn(named("Int"))), ("maybeNum", named("Int"))],
        vec![],
        vec![
            aliased("users1", f_full("users", vec![("name", var("str"))], vec![], Some(vec![f("id")]))),
            aliased("users2", f_full("users", vec![("name", var("num"))], vec![], Some(vec![f("id")]))),
            aliased("users2", f_full("users", vec![("name", var("maybeNum"))], vec![], Some(vec![f("id")]))),
        ],
    )]);
    assert_eq!(check(&schema, &d), vec!["TypeMismatch", "TypeMismatch"]);
}

#[test]
fn must_specify_selection_set_for_non_leaf_field() {
    let schema = selection_schema();
    let d = doc(vec![query(vec![
        f("foo"),
        f("user"),
        f_full("users", vec![("name", string("uhyo"))], vec![], None),
        f_sub("user", vec![f("id"), f("name"), f("age")]),
        f_sub("users", vec![f("id"), f("name")]),
    ])]);
    assert_eq!(
        check(&schema, &d),
        vec!["MustSpecifySelectionSet { name: \"user\" }", "MustSpecifySelectionSet { name: \"users\" }"]
    );
}

#[test]
fn supports_typename_metafield() {
    let schema = selection_schema();
    let d = doc(vec![query(vec![f_sub(
        "user",
        vec![f("__typename"), f_sub("pet", vec![f("__typename")]), f_sub("relations", vec![f("__typename")])],
    )])]);
    assert!(check(&schema, &d).is_empty());
}

#[test]
fn unknown_fragment_target() {
    let schema = fragments_schema();
    let d = doc(vec![query(vec![f_sub("user", vec![f("id")])]), fragment("A", "Nothing", vec![f("id")])]);
    assert_eq!(check(&schema, &d), vec!["UnknownType { name: \"Nothing\" }"]);
}

#[test]
fn invalid_fragment_target() {
    let schema = fragments_schema();
    let d = doc(vec![
        query(vec![f_sub("user", vec![f("id")])]),
        fragment("OnScalar", "CustomScalar", vec![f("id")]),
        fragment("OnEnum", "UserKind", vec![f("id")]),
        fragment("OnInput", "MyInput", vec![f("arg")]),
    ]);
    assert_eq!(
        check(&schema, &d),
        vec![
            "InvalidFragmentTarget { name: \"CustomScalar\" }",
            "InvalidFragmentTarget { name: \"UserKind\" }",
            "InvalidFragmentTarget { name: \"MyInput\" }",
        ]
    );
}

#[test]
fn wrong_fragment_target_obj() {
    let schema = fragments_schema();
    let d = doc(vec![query(vec![f_sub("user", vec![spread("F")])]), fragment("F", "Post", vec![f("id"), f("title")])]);
    assert_eq!(check(&schema, &d), vec!["FragmentConditionNeverMatches { condition: \"Post\", scope: \"User\" }"]);
}

#[test]
fn wrong_fragment_target_intf() {
    let schema = fragments_schema();
    let d = doc(vec![query(vec![f_sub("user", vec![spread("F")])]), fragment("F", "HasTitle", vec![f("title")])]);
    assert_eq!(check(&schema, &d), vec!["FragmentConditionNeverMatches { condition: \"HasTitle\", scope: \"User\" }"]);
}

#[test]
fn wrong_fragment_target_union() {
    let schema = fragments_schema();
    let d = doc(vec![
        query(vec![f_sub("user", vec![spread("F")])]),
        fragment("F", "PostOrTag", vec![inline(Some("Post"), vec![f("id")]), inline(Some("Tag"), vec![f("id")])]),
    ]);
    assert_eq!(check(&schema, &d), vec!["FragmentConditionNeverMatches { condition: \"PostOrTag\", scope: \"User\" }"]);
}

#[test]
fn wrong_fragment_target_intf_intf() {
    let schema = fragments_schema();
    let d = doc(vec![
        query(vec![f_sub("hasTitle", vec![spread("F"), spread("G"), spread("H")])]),
        fragment("F", "HasLabel", vec![f("label")]),
        fragment("G", "HasTitle", vec![f("title")]),
        fragment("H", "Post", vec![f("title")]),
    ]);
    assert_eq!(check(&schema, &d), vec!["FragmentConditionNeverMatches { condition: \"HasLabel\", scope: \"HasLabel\" }"]);
}

#[test]
fn wrong_fragment_target_intf_union() {
    let schema = fragments_schema();
    let d = doc(vec![
        query(vec![f_sub("hasTitle", vec![spread("F"), spread("G")])]),
        fragment("F", "PostOrTag", vec![inline(Some("Post"), vec![f("title")]), inline(Some("Tag"), vec![f("label")])]),
        fragment("G", "UserOrPost", vec![inline(Some("Post"), vec![f("title")]), inline(Some("User"), vec![f("name")])]),
    ]);
    assert_eq!(check(&schema, &d), vec!["UnknownType { name: \"UserOrPost\" }"]);
}

#[test]
fn wrong_fragment_target_union_union() {
    let schema = fragments_schema();
    let d = doc(vec![
        query(vec![f_sub("userOrSchedule", vec![spread("F"), spread("G")])]),
        fragment("F", "PostOrTag", vec![inline(Some("Post"), vec![f("title")]), inline(Some("Tag"), vec![f("label")])]),
        fragment("G", "UserOrTag", vec![inline(Some("Tag"), vec![f("label")]), inline(Some("User"), vec![f("name")])]),
    ]);
    assert_eq!(check(&schema, &d), vec!["FragmentConditionNeverMatches { condition: \"PostOrTag\", scope: \"UserOrSchedule\" }"]);
}

#[test]
fn fragment_variables() {
    let schema = fragments_schema();
    let d = doc(vec![
        op(OperationType::Query, None, vec![("b1", nn(named("Boolean")))], vec![], vec![f_sub("user", vec![spread("F")])]),
        fragment(
            "F",
            "User",
            vec![
                f_full("id", vec![], vec![dir("dir_bool", vec![("bool", var("b1"))])], None),
                f_full("name", vec![], vec![dir("dir_bool", vec![("bool", var("b2"))])], None),
            ],
        ),
    ]);
    assert_eq!(check(&schema, &d), vec!["UnknownVariable { name: \"b2\" }"]);
}

#[test]
fn inline_fragment_without_condition() {
    let schema = fragments_schema();
    let d = doc(vec![op(
        OperationType::Query,
        None,
        vec![("b1", nn(named("Boolean")))],
        vec![],
        vec![f_sub("user", vec![f("id"), inline(None, vec![f("name"), f("age")]), inline(None, vec![f("something")])])],
    )]);
    assert_eq!(check(&schema, &d), vec!["FieldNotFound { field_name: \"something\", owner_name: \"User\" }"]);
}

#[test]
fn wrong_inline_fragment_target_obj() {
    let schema = fragments_schema();
    let d = doc(vec![query(vec![f_sub("user", vec![inline(Some("Post"), vec![f("id"), f("title")])])])]);
    assert_eq!(check(&schema, &d), vec!["FragmentConditionNeverMatches { condition: \"Post\", scope: \"User\" }"]);
}

#[test]
fn wrong_inline_fragment_target_intf() {
    let schema = fragments_schema();
    let d = doc(vec![query(vec![
        f_sub("user", vec![inline(Some("HasTitle"), vec![f("title")])]),
        f_sub("hasTitle", vec![inline(Some("HasTitle"), vec![f("title")])]),
    ])]);
    assert_eq!(check(&schema, &d), vec!["FragmentConditionNeverMatches { condition: \"HasTitle\", scope: \"User\" }"]);
}

#[test]
fn wrong_inline_fragment_target_union() {
    let schema = fragments_schema();
    let d = doc(vec![query(vec![f_sub(
        "user",
        vec![inline(Some("PostOrTag"), vec![inline(Some("Post"), vec![f("id")]), inline(Some("Tag"), vec![f("id")])])],
    )])]);
    assert_eq!(
        check(&schema, &d),
        vec![
            "FragmentConditionNeverMatches { condition: \"PostOrTag\", scope: \"User\" }",
        ]
    );
}

#[test]
fn fragment_spread_recursion() {
    let schema = fragments_schema();
    let d = doc(vec![query(vec![f_sub("user", vec![spread("F")])]), fragment("F", "User", vec![f("id"), spread("F")])]);
    assert_eq!(check(&schema, &d), vec!["RecursingFragmentSpread { name: \"F\" }"]);
}

#[test]
fn fragment_spread_indirect_recursion() {
    let schema = fragments_schema();
    let d = doc(vec![
        query(vec![f_sub("user", vec![spread("F")])]),
        fragment("F", "User", vec![f("id"), spread("G")]),
        fragment("G", "User", vec![f("age"), spread("F")]),
    ]);
    assert_eq!(check(&schema, &d), vec!["RecursingFragmentSpread { name: \"F\" }"]);
}

#[test]
fn fragment_spread_nested_recursion() {
    let schema = fragments_schema();
    let d = doc(vec![query(vec![f_sub("user", vec![spread("F")])]), fragment("F", "User", vec![f_sub("followers", vec![f("id"), spread("F")])])]);
    assert_eq!(check(&schema, &d), vec!["RecursingFragmentSpread { name: \"F\" }"]);
}

#[test]
fn operation_names_and_root_types() {
    let schema = selection_schema();
    let d = doc(vec![
        query(vec![f("foo")]),
        op(OperationType::Query, Some("a"), vec![], vec![], vec![f("foo")]),
        op(OperationType::Query, Some("a"), vec![], vec![], vec![f("foo")]),
        op(OperationType::Mutation, Some("m"), vec![], vec![], vec![f("foo")]),
        fragment("Fr", "User", vec![f("id")]),
        fragment("Fr", "User", vec![f("id")]),
    ]);
    assert_eq!(
        check(&schema, &d),
        vec![
            "UnNamedOperationMustBeSingle",
            "DuplicateOperationName { operation_type: Query }",
            "UnknownType { name: \"Mutation\" }",
            "DuplicateFragmentName { other_position: Pos { line: 0, column: 0, file: 0, builtin: false } }",
        ]
    );
    let explicit = with_builtins(vec![schema_def(vec![(OperationType::Query, "Query")]), object("Query", vec![], vec![fdef("foo", named("Int"))])]);
    let d = doc(vec![op(OperationType::Mutation, None, vec![], vec![], vec![f("foo")])]);
    assert_eq!(check(&explicit, &d), vec!["NoRootType { operation_type: Mutation }"]);
}

#[test]
fn variable_definitions_are_checked() {
    let schema = fragments_schema();
    let d = doc(vec![op(
        OperationType::Query,
        None,
        vec![("a", named("Int")), ("a", named("Int")), ("u", named("User")), ("x", named("Unknown"))],
        vec![],
        vec![f("foo")],
    )]);
    assert_eq!(
        check(&schema, &d),
        vec![
            "DuplicatedVariableName { name: \"a\" }",
            "NoOutputType { name: \"User\" }",
            "UnknownType { name: \"Unknown\" }",
        ]
    );
}

fn type_system_errors(defs: Vec<TypeSystemDefinition<'static>>) -> Vec<String> {
    let document = TypeSystemDocument { definitions: defs };
    check_type_system_document(&document).iter().map(describe).collect()
}

#[test]
fn valid_schema_has_no_errors() {
    assert!(type_system_errors(fragments_schema()).is_empty());
}

#[test]
fn type_system_names_and_members() {
    let errors = type_system_errors(with_builtins(vec![
        object("__Bad", vec![], vec![fdef("a", named("Int")), fdef("a", named("Int")), fdef("b", named("Nope"))]),
        object("O", vec![], vec![fdef("i", named("In"))]),
        input_object("In", vec![input("o", named("O"))]),
        union("U", vec!["O", "O", "In", "Missing"]),
        enumeration("E", vec!["A", "A"]),
    ]));
    assert_eq!(
        errors,
        vec![
            "UnscoUnsco",
            "DuplicatedName { name: \"a\" }",
            "UnknownType { name: \"Nope\" }",
            "NoInputType { name: \"In\" }",
            "NoOutputType { name: \"O\" }",
            "DuplicatedName { name: \"O\" }",
            "NonObjectTypeUnionMember { member_name: \"In\" }",
            "UnknownType { name: \"Missing\" }",
            "DuplicatedName { name: \"A\" }",
        ]
    );
}

#[test]
fn interface_implementations_are_checked() {
    let errors = type_system_errors(with_builtins(vec![
        interface("Node", vec![], vec![fdef("id", nn(named("ID")))]),
        interface("Named", vec!["Node"], vec![fdef("id", nn(named("ID"))), fdef_args("name", vec![input("lang", named("String"))], named("String"))]),
        object(
            "Thing",
            vec!["Named", "Self", "Int"],
            vec![fdef("id", named("ID")), fdef_args("name", vec![input("lang", named("Int")), input("extra", nn(named("Int")))], named("String"))],
        ),
        interface("Loop", vec!["Loop"], vec![]),
    ]));
    assert_eq!(
        errors,
        vec![
            "InterfaceNotImplemented { name: \"Node\" }",
            "FieldTypeMisMatchWithInterface { interface_name: \"Named\" }",
            "ArgumentTypeMisMatchWithInterface { interface_name: \"Named\" }",
            "ArgumentTypeNonNullAgainstInterface { interface_name: \"Named\" }",
            "UnknownType { name: \"Self\" }",
            "NotInterface { name: \"Int\" }",
            "NoImplementSelf",
        ]
    );
}

#[test]
fn missing_interface_members_are_reported() {
    let errors = type_system_errors(with_builtins(vec![
        interface("HasName", vec![], vec![fdef_args("name", vec![input("lang", named("String"))], named("String")), fdef("nick", named("String"))]),
        object("P", vec!["HasName"], vec![fdef("name", named("String"))]),
    ]));
    assert_eq!(
        errors,
        vec![
            "InterfaceArgumentNotImplemented { argument_name: \"lang\", interface_name: \"HasName\" }",
            "InterfaceFieldNotImplemented { field_name: \"nick\", interface_name: \"HasName\" }",
        ]
    );
}

#[test]
fn directive_definitions_are_checked() {
    let recursive = TypeSystemDefinition::DirectiveDefinition(DirectiveDefinition {
        description: None,
        position: pos(7),
        name: id("rec"),
        arguments: Some(ArgumentsDefinition {
            input_values: vec![InputValueDefinition {
                description: None,
                position: pos(0),
                name: id("a"),
                ty: named("Int"),
                default_value: None,
                directives: vec![dir("rec", vec![])],
            }],
        }),
        repeatable: None,
        locations: vec![id("ARGUMENT_DEFINITION")],
        directive_keyword: kw("directive"),
    });
    let errors = type_system_errors(with_builtins(vec![recursive, directive_def("__dir", vec![input("x", named("Int"))], false, vec!["FIELD"])]));
    assert_eq!(errors, vec!["RecursingDirective { name: \"rec\" }", "UnscoUnsco"]);
}

#[test]
fn applied_directives_are_checked() {
    let mut field = fdef("f", named("Int"));
    field.directives = vec![dir("only_object", vec![]), dir("once", vec![]), dir("once", vec![])];
    let errors = type_system_errors(with_builtins(vec![
        directive_def("only_object", vec![], false, vec!["OBJECT"]),
        directive_def("once", vec![], false, vec!["FIELD_DEFINITION", "ARGUMENT_DEFINITION", "INPUT_FIELD_DEFINITION"]),
        object("T", vec![], vec![field]),
    ]));
    // Fields of objects are not checked for directives.
    assert!(errors.is_empty());
    let mut arg = input("a", named("Int"));
    arg.directives = vec![dir("only_object", vec![]), dir("once", vec![]), dir("once", vec![]), dir("nope", vec![])];
    let errors = type_system_errors(with_builtins(vec![
        directive_def("only_object", vec![], false, vec!["OBJECT"]),
        directive_def("once", vec![], false, vec!["ARGUMENT_DEFINITION"]),
        object("T", vec![], vec![fdef_args("f", vec![arg], named("Int"))]),
    ]));
    assert_eq!(
        errors,
        vec![
            "DirectiveLocationNotAllowed { name: \"only_object\" }",
            "RepeatedDirective { name: \"once\" }",
            "UnknownDirective { name: \"nope\" }",
        ]
    );
}

#[test]
fn subtype_relation() {
    let schema = fragments_schema();
    assert_eq!(is_subtype(&schema, &named("Post"), &named("HasTitle")), Some(true));
    assert_eq!(is_subtype(&schema, &named("Tag"), &named("PostOrTag")), Some(true));
    assert_eq!(is_subtype(&schema, &named("User"), &named("HasTitle")), Some(false));
    assert_eq!(is_subtype(&schema, &nn(named("User")), &named("User")), Some(true));
    assert_eq!(is_subtype(&schema, &named("User"), &nn(named("User"))), Some(false));
    assert_eq!(is_subtype(&schema, &list(named("User")), &named("User")), Some(false));
    assert_eq!(is_subtype(&schema, &named("Nope"), &named("User")), None);
    assert_eq!(is_subtype(&schema, &named("Post"), &named("Nope")), None);
}

#[test]
fn id_positions_are_reported() {
    let schema = selection_schema();
    let d = doc(vec![query(vec![Selection::Field(Field {
        alias: None,
        name: id_at("missing", 9),
        arguments: None,
        directives: vec![],
        selection_set: None,
    })])]);
    let errors = check_operation_document(&schema, &d);
    assert_eq!(errors.len(), 1);
    assert_eq!(errors[0].position, pos(9));
}

fn tagged(result: Result<(), Vec<(InputFileKind, CheckError<'static>)>>) -> Vec<(&'static str, String)> {
    match result {
        Ok(()) => vec![],
        Err(errors) => errors.iter().map(|(k, e)| (k.as_str(), describe(e))).collect(),
    }
}

#[test]
fn check_documents_accepts_valid_documents() {
    let schema = Box::leak(Box::new(TypeSystemDocument { definitions: selection_schema() }));
    let operations = Box::leak(Box::new(vec![doc(vec![query(vec![f("foo")])])]));
    assert!(check_documents(schema, operations).is_ok());
}

#[test]
fn check_documents_reports_each_operation_document() {
    let schema = Box::leak(Box::new(TypeSystemDocument { definitions: selection_schema() }));
    let operations = Box::leak(Box::new(vec![
        doc(vec![query(vec![f("nope")])]),
        doc(vec![query(vec![f("foo")])]),
        doc(vec![query(vec![f("bar")])]),
    ]));
    assert_eq!(
        tagged(check_documents(schema, operations)),
        vec![
            ("operation", "FieldNotFound { field_name: \"nope\", owner_name: \"Query\" }".to_string()),
            ("operation", "FieldNotFound { field_name: \"bar\", owner_name: \"Query\" }".to_string()),
        ]
    );
}

#[test]
fn check_documents_stops_at_schema_errors() {
    let mut defs = selection_schema();
    defs.push(enumeration("E", vec!["A", "A"]));
    let schema = Box::leak(Box::new(TypeSystemDocument { definitions: defs }));
    let operations = Box::leak(Box::new(vec![doc(vec![query(vec![f("nope")])])]));
    assert_eq!(
        tagged(check_documents(schema, operations)),
        vec![("schema", "DuplicatedName { name: \"A\" }".to_string())]
    );
}

fn names_of(defs: &Vec<TypeSystemDefinition<'static>>) -> Vec<String> {
    defs.iter()
        .map(|d| match d {
            TypeSystemDefinition::DirectiveDefinition(d) => format!("@{}", d.name.name),
            TypeSystemDefinition::TypeDefinition(TypeDefinition::Scalar(s)) => format!(
                "{}[{}]",
                s.name.name,
                s.directives.iter().map(|d| d.name.name).collect::<Vec<_>>().join(",")
            ),
            TypeSystemDefinition::TypeDefinition(_) => "type".to_string(),
            TypeSystemDefinition::SchemaDefinition(_) => "schema".to_string(),
        })
        .collect()
}

#[test]
fn builtins_are_removed() {
    let mut date = scalar("Date");
    if let TypeSystemDefinition::TypeDefinition(TypeDefinition::Scalar(s)) = &mut date {
        s.directives = vec![
            dir("nitrogql_ts_type", vec![("type", string("Date"))]),
            dir("specifiedBy", vec![]),
            dir("nitrogql_ts_type", vec![]),
        ];
    }
    let document = TypeSystemDocument {
        definitions: vec![
            directive_def("nitrogql_ts_type", vec![], false, vec!["SCALAR"]),
            date,
            directive_def("other", vec![], false, vec!["FIELD"]),
            object("Query", vec![], vec![fdef("d", named("Date"))]),
            schema_def(vec![(OperationType::Query, "Query")]),
        ],
    };
    let removed = remove_builtins(document);
    assert_eq!(names_of(&removed.definitions), vec!["Date[specifiedBy]", "@other", "type", "schema"]);
}

#[test]
fn positions_are_ordered_by_line_then_column() {
    assert_eq!(Pos::new(1, 5, 0).partial_cmp(&Pos::new(2, 0, 0)), Some(std::cmp::Ordering::Less));
    assert_eq!(Pos::new(2, 0, 0).partial_cmp(&Pos::new(1, 5, 0)), Some(std::cmp::Ordering::Greater));
    assert_eq!(Pos::new(2, 3, 0).partial_cmp(&Pos::new(2, 4, 7)), Some(std::cmp::Ordering::Less));
    assert_eq!(Pos::new(2, 3, 0).partial_cmp(&Pos::new(2, 3, 9)), Some(std::cmp::Ordering::Equal));
    assert!(Pos::new(0, 1, 0) < Pos::new(0, 2, 0));
}

fn directive_using(name: &'static str, uses: Vec<Vec<&'static str>>) -> TypeSystemDefinition<'static> {
    TypeSystemDefinition::DirectiveDefinition(DirectiveDefinition {
        description: None,
        position: pos(0),
        name: id(name),
        arguments: if uses.is_empty() {
            None
        } else {
            Some(ArgumentsDefinition {
                input_values: uses
                    .into_iter()
                    .enumerate()
                    .map(|(i, ds)| InputValueDefinition {
                        description: None,
                        position: pos(0),
                        name: id(["x", "y", "z"][i]),
                        ty: named("Int"),
                        default_value: None,
                        directives: ds.into_iter().map(|d| dir(d, vec![])).collect(),
                    })
                    .collect(),
            })
        },
        repeatable: None,
        locations: vec![id("ARGUMENT_DEFINITION")],
        directive_keyword: kw("directive"),
    })
}

#[test]
fn directive_used_twice_is_not_recursing() {
    let errors = type_system_errors(with_builtins(vec![
        directive_using("a", vec![vec!["b"], vec!["b"]]),
        directive_using("b", vec![]),
    ]));
    assert!(errors.is_empty());
}

#[test]
fn directive_diamond_is_not_recursing() {
    let errors = type_system_errors(with_builtins(vec![
        directive_using("a", vec![vec!["b"], vec!["c"]]),
        directive_using("b", vec![vec!["d"]]),
        directive_using("c", vec![vec!["d"]]),
        directive_using("d", vec![]),
    ]));
    assert!(errors.is_empty());
}

#[test]
fn directive_cycle_is_recursing() {
    let errors = type_system_errors(with_builtins(vec![
        directive_using("a", vec![vec!["b"]]),
        directive_using("b", vec![vec!["a"]]),
    ]));
    assert_eq!(errors, vec!["RecursingDirective { name: \"a\" }", "RecursingDirective { name: \"b\" }"]);
}

#[test]
fn import() {
    // The `#import` line is taken out of the document before checking, so the fragment it
    // names is not defined in the checked document.
    let schema = selection_schema();
    let d = doc(vec![query(vec![f_sub("user", vec![spread("F")])])]);
    assert_eq!(check(&schema, &d), vec!["UnknownFragment { name: \"F\" }"]);
}

#[test]
fn removing_builtins_twice_is_removing_once() {
    let mut date = scalar("Date");
    if let TypeSystemDefinition::TypeDefinition(TypeDefinition::Scalar(s)) = &mut date {
        s.directives = vec![dir("nitrogql_ts_type", vec![]), dir("specifiedBy", vec![])];
    }
    let document = TypeSystemDocument {
        definitions: vec![directive_def("nitrogql_ts_type", vec![], false, vec!["SCALAR"]), date],
    };
    let once = remove_builtins(document);
    let once_names = names_of(&once.definitions);
    let twice = remove_builtins(once);
    assert_eq!(names_of(&twice.definitions), once_names);
    assert_eq!(once_names, vec!["Date[specifiedBy]"]);
}
