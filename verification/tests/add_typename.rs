use graphql_client::add_typename::add_typename_to_document;
use graphql_client::ast::{
    Definition, Directive, Document, Field, FragmentDefinition, FragmentSpread, InlineFragment,
    InputValue, Mutation, OperationDefinition, Pos, Query, Selection, SelectionSet, Subscription,
    Type, TypeCondition, VariableDefinition,
};
use graphql_client::generated_module::query_hash;
use graphql_parser::query as parsed;
use std::collections::BTreeMap;

// Conversions between the parser's tree and the library's tree.

fn pos_in(p: graphql_parser::Pos) -> Pos {
    Pos { line: p.line, column: p.column }
}

fn pos_out(p: Pos) -> graphql_parser::Pos {
    graphql_parser::Pos { line: p.line, column: p.column }
}

fn value_in(v: &parsed::Value<'_, String>) -> InputValue {
    match v {
        parsed::Value::Variable(s) => InputValue::Variable(s.clone()),
        parsed::Value::Int(n) => InputValue::Int(n.as_i64().unwrap()),
        parsed::Value::Float(f) => InputValue::Float(f.to_bits()),
        parsed::Value::String(s) => InputValue::String(s.clone()),
        parsed::Value::Boolean(b) => InputValue::Boolean(*b),
        parsed::Value::Null => InputValue::Null,
        parsed::Value::Enum(s) => InputValue::Enum(s.clone()),
        parsed::Value::List(items) => InputValue::List(items.iter().map(value_in).collect()),
        parsed::Value::Object(fields) => {
            InputValue::Object(fields.iter().map(|(k, v)| (k.clone(), value_in(v))).collect())
        }
    }
}

fn value_out<'a>(v: &InputValue) -> parsed::Value<'a, String> {
    match v {
        InputValue::Variable(s) => parsed::Value::Variable(s.clone()),
        InputValue::Int(n) => parsed::Value::Int(parsed::Number::from(*n as i32)),
        InputValue::Float(bits) => parsed::Value::Float(f64::from_bits(*bits)),
        InputValue::String(s) => parsed::Value::String(s.clone()),
        InputValue::Boolean(b) => parsed::Value::Boolean(*b),
        InputValue::Null => parsed::Value::Null,
        InputValue::Enum(s) => parsed::Value::Enum(s.clone()),
        InputValue::List(items) => parsed::Value::List(items.iter().map(value_out).collect()),
        InputValue::Object(fields) => parsed::Value::Object(
            fields.iter().map(|(k, v)| (k.clone(), value_out(v))).collect::<BTreeMap<_, _>>(),
        ),
    }
}

fn args_in(args: &[(String, parsed::Value<'_, String>)]) -> Vec<(String, InputValue)> {
    args.iter().map(|(k, v)| (k.clone(), value_in(v))).collect()
}

fn args_out<'a>(args: &[(String, InputValue)]) -> Vec<(String, parsed::Value<'a, String>)> {
    args.iter().map(|(k, v)| (k.clone(), value_out(v))).collect()
}

fn type_in(t: &parsed::Type<'_, String>) -> Type {
    match t {
        parsed::Type::NamedType(s) => Type::NamedType(s.clone()),
        parsed::Type::ListType(inner) => Type::ListType(Box::new(type_in(inner))),
        parsed::Type::NonNullType(inner) => Type::NonNullType(Box::new(type_in(inner))),
    }
}

fn type_out<'a>(t: &Type) -> parsed::Type<'a, String> {
    match t {
        Type::NamedType(s) => parsed::Type::NamedType(s.clone()),
        Type::ListType(inner) => parsed::Type::ListType(Box::new(type_out(inner))),
        Type::NonNullType(inner) => parsed::Type::NonNullType(Box::new(type_out(inner))),
    }
}

fn directives_in(ds: &[parsed::Directive<'_, String>]) -> Vec<Directive> {
    ds.iter()
        .map(|d| Directive { position: pos_in(d.position), name: d.name.clone(), arguments: args_in(&d.arguments) })
        .collect()
}

fn directives_out<'a>(ds: &[Directive]) -> Vec<parsed::Directive<'a, String>> {
    ds.iter()
        .map(|d| parsed::Directive {
            position: pos_out(d.position),
            name: d.name.clone(),
            arguments: args_out(&d.arguments),
        })
        .collect()
}

fn variables_in(vs: &[parsed::VariableDefinition<'_, String>]) -> Vec<VariableDefinition> {
    vs.iter()
        .map(|v| VariableDefinition {
            position: pos_in(v.position),
            name: v.name.clone(),
            var_type: type_in(&v.var_type),
            default_value: v.default_value.as_ref().map(value_in),
        })
        .collect()
}

fn variables_out<'a>(vs: &[VariableDefinition]) -> Vec<parsed::VariableDefinition<'a, String>> {
    vs.iter()
        .map(|v| parsed::VariableDefinition {
            position: pos_out(v.position),
            name: v.name.clone(),
            var_type: type_out(&v.var_type),
            default_value: v.default_value.as_ref().map(value_out),
        })
        .collect()
}

fn condition_in(t: &parsed::TypeCondition<'_, String>) -> TypeCondition {
    match t {
        parsed::TypeCondition::On(s) => TypeCondition::On(s.clone()),
    }
}

fn condition_out<'a>(t: &TypeCondition) -> parsed::TypeCondition<'a, String> {
    match t {
        TypeCondition::On(s) => parsed::TypeCondition::On(s.clone()),
    }
}

fn selection_set_in(ss: &parsed::SelectionSet<'_, String>) -> SelectionSet {
    SelectionSet {
        span: (pos_in(ss.span.0), pos_in(ss.span.1)),
        items: ss.items.iter().map(selection_in).collect(),
    }
}

fn selection_set_out<'a>(ss: &SelectionSet) -> parsed::SelectionSet<'a, String> {
    parsed::SelectionSet {
        span: (pos_out(ss.span.0), pos_out(ss.span.1)),
        items: ss.items.iter().map(selection_out).collect(),
    }
}

fn selection_in(s: &parsed::Selection<'_, String>) -> Selection {
    match s {
        parsed::Selection::Field(f) => Selection::Field(Field {
            position: pos_in(f.position),
            alias: f.alias.clone(),
            name: f.name.clone(),
            arguments: args_in(&f.arguments),
            directives: directives_in(&f.directives),
            selection_set: selection_set_in(&f.selection_set),
        }),
        parsed::Selection::FragmentSpread(fs) => Selection::FragmentSpread(FragmentSpread {
            position: pos_in(fs.position),
            fragment_name: fs.fragment_name.clone(),
            directives: directives_in(&fs.directives),
        }),
        parsed::Selection::InlineFragment(inf) => Selection::InlineFragment(InlineFragment {
            position: pos_in(inf.position),
            type_condition: inf.type_condition.as_ref().map(condition_in),
            directives: directives_in(&inf.directives),
            selection_set: selection_set_in(&inf.selection_set),
        }),
    }
}

fn selection_out<'a>(s: &Selection) -> parsed::Selection<'a, String> {
    match s {
        Selection::Field(f) => parsed::Selection::Field(parsed::Field {
            position: pos_out(f.position),
            alias: f.alias.clone(),
            name: f.name.clone(),
            arguments: args_out(&f.arguments),
            directives: directives_out(&f.directives),
            selection_set: selection_set_out(&f.selection_set),
        }),
        Selection::FragmentSpread(fs) => parsed::Selection::FragmentSpread(parsed::FragmentSpread {
            position: pos_out(fs.position),
            fragment_name: fs.fragment_name.clone(),
            directives: directives_out(&fs.directives),
        }),
        Selection::InlineFragment(inf) => parsed::Selection::InlineFragment(parsed::InlineFragment {
            position: pos_out(inf.position),
            type_condition: inf.type_condition.as_ref().map(condition_out),
            directives: directives_out(&inf.directives),
            selection_set: selection_set_out(&inf.selection_set),
        }),
    }
}

fn document_in(doc: &parsed::Document<'_, String>) -> Document {
    Document {
        definitions: doc
            .definitions
            .iter()
            .map(|d| match d {
                parsed::Definition::Operation(op) => Definition::Operation(match op {
                    parsed::OperationDefinition::SelectionSet(ss) => {
                        OperationDefinition::SelectionSet(selection_set_in(ss))
                    }
                    parsed::OperationDefinition::Query(q) => OperationDefinition::Query(Query {
                        position: pos_in(q.position),
                        name: q.name.clone(),
                        variable_definitions: variables_in(&q.variable_definitions),
                        directives: directives_in(&q.directives),
                        selection_set: selection_set_in(&q.selection_set),
                    }),
                    parsed::OperationDefinition::Mutation(m) => OperationDefinition::Mutation(Mutation {
                        position: pos_in(m.position),
                        name: m.name.clone(),
                        variable_definitions: variables_in(&m.variable_definitions),
                        directives: directives_in(&m.directives),
                        selection_set: selection_set_in(&m.selection_set),
                    }),
                    parsed::OperationDefinition::Subscription(s) => {
                        OperationDefinition::Subscription(Subscription {
                            position: pos_in(s.position),
                            name: s.name.clone(),
                            variable_definitions: variables_in(&s.variable_definitions),
                            directives: directives_in(&s.directives),
                            selection_set: selection_set_in(&s.selection_set),
                        })
                    }
                }),
                parsed::Definition::Fragment(f) => Definition::Fragment(FragmentDefinition {
                    position: pos_in(f.position),
                    name: f.name.clone(),
                    type_condition: condition_in(&f.type_condition),
                    directives: directives_in(&f.directives),
                    selection_set: selection_set_in(&f.selection_set),
                }),
            })
            .collect(),
    }
}

fn document_out<'a>(doc: &Document) -> parsed::Document<'a, String> {
    parsed::Document {
        definitions: doc
            .definitions
            .iter()
            .map(|d| match d {
                Definition::Operation(op) => parsed::Definition::Operation(match op {
                    OperationDefinition::SelectionSet(ss) => {
                        parsed::OperationDefinition::SelectionSet(selection_set_out(ss))
                    }
                    OperationDefinition::Query(q) => parsed::OperationDefinition::Query(parsed::Query {
                        position: pos_out(q.position),
                        name: q.name.clone(),
                        variable_definitions: variables_out(&q.variable_definitions),
                        directives: directives_out(&q.directives),
                        selection_set: selection_set_out(&q.selection_set),
                    }),
                    OperationDefinition::Mutation(m) => {
                        parsed::OperationDefinition::Mutation(parsed::Mutation {
                            position: pos_out(m.position),
                            name: m.name.clone(),
                            variable_definitions: variables_out(&m.variable_definitions),
                            directives: directives_out(&m.directives),
                            selection_set: selection_set_out(&m.selection_set),
                        })
                    }
                    OperationDefinition::Subscription(s) => {
                        parsed::OperationDefinition::Subscription(parsed::Subscription {
                            position: pos_out(s.position),
                            name: s.name.clone(),
                            variable_definitions: variables_out(&s.variable_definitions),
                            directives: directives_out(&s.directives),
                            selection_set: selection_set_out(&s.selection_set),
                        })
                    }
                }),
                Definition::Fragment(f) => parsed::Definition::Fragment(parsed::FragmentDefinition {
                    position: pos_out(f.position),
                    name: f.name.clone(),
                    type_condition: condition_out(&f.type_condition),
                    directives: directives_out(&f.directives),
                    selection_set: selection_set_out(&f.selection_set),
                }),
            })
            .collect(),
    }
}

fn transform(query: &str) -> String {
    let doc = graphql_parser::parse_query::<String>(query).unwrap();
    let transformed = add_typename_to_document(&document_in(&doc));
    format!("{}", document_out(&transformed)).trim_end().to_string()
}

#[test]
fn test_adds_typename_to_simple_query() {
    let query = r#"
            query GetDeviceToken($session: UUID!) {
                deviceToken(session: $session) {
                    encryptedToken
                    serverPubKey
                    iv
                }
            }
        "#;

    let output = transform(query);

    println!("Transformed query:\n{}", output);
    println!("---");
    println!("Bytes: {:?}", output.as_bytes());

    let hash = query_hash(&output);
    println!("Hash: {}", hash);

    assert!(output.contains("__typename"), "Output should contain __typename: {}", output);
    assert_eq!(hash.len(), 64);
}

#[test]
fn typename_goes_to_nested_sets_only() {
    let output = transform(
        "query GetDeviceToken($session: UUID!) { deviceToken(session: $session) { encryptedToken serverPubKey iv } }",
    );
    assert_eq!(
        output,
        "query GetDeviceToken($session: UUID!) {\n  deviceToken(session: $session) {\n    encryptedToken\n    serverPubKey\n    iv\n    __typename\n  }\n}"
    );
}

#[test]
fn typename_is_not_added_twice() {
    let output = transform("{ a { __typename b } }");
    assert_eq!(output, "{\n  a {\n    __typename\n    b\n  }\n}");
    let aliased = transform("{ a { kind: __typename b } }");
    assert_eq!(aliased, "{\n  a {\n    kind: __typename\n    b\n  }\n}");
}

#[test]
fn typename_goes_to_fragments_and_inline_fragments() {
    let output = transform(
        "fragment F on User { id ... on Admin { level } ...G } query Q { user { ...F } }",
    );
    assert_eq!(
        output,
        "fragment F on User {\n  id\n  ... on Admin {\n    level\n    __typename\n  }\n  ...G\n  __typename\n}\n\nquery Q {\n  user {\n    ...F\n    __typename\n  }\n}"
    );
}

#[test]
fn leaves_stay_leaves() {
    let output = transform("mutation M { ping }");
    assert_eq!(output, "mutation M {\n  ping\n}");
}

#[test]
fn transformation_is_idempotent_on_a_query() {
    let query = "subscription S($x: [Int!] = [1, 2]) { a(x: $x, y: {k: 1.5, e: RED}) @skip(if: false) { b { c } } }";
    let doc = document_in(&graphql_parser::parse_query::<String>(query).unwrap());
    let once = add_typename_to_document(&doc);
    let twice = add_typename_to_document(&once);
    assert_eq!(once, twice);
    assert_ne!(once, doc);
}

#[test]
fn arguments_and_directives_are_carried() {
    let query = "query Q($x: [Int!] = [1, 2]) { a(x: $x, y: {k: 1.5, e: RED}, s: \"t\", n: null) @skip(if: false) { b } }";
    let output = transform(query);
    assert_eq!(
        output,
        "query Q($x: [Int!] = [1, 2]) {\n  a(x: $x, y: {e: RED, k: 1.5}, s: \"t\", n: null) @skip(if: false) {\n    b\n    __typename\n  }\n}"
    );
}

fn strip_origin_fields(ss: &SelectionSet) -> SelectionSet {
    SelectionSet {
        span: ss.span,
        items: ss
            .items
            .iter()
            .filter(|s| !matches!(s, Selection::Field(f) if f.position == Pos { line: 0, column: 0 }))
            .map(|s| match s {
                Selection::Field(f) => Selection::Field(Field {
                    position: f.position,
                    alias: f.alias.clone(),
                    name: f.name.clone(),
                    arguments: args_in(&args_out(&f.arguments)),
                    directives: directives_in(&directives_out(&f.directives)),
                    selection_set: strip_origin_fields(&f.selection_set),
                }),
                Selection::FragmentSpread(fs) => Selection::FragmentSpread(FragmentSpread {
                    position: fs.position,
                    fragment_name: fs.fragment_name.clone(),
                    directives: directives_in(&directives_out(&fs.directives)),
                }),
                Selection::InlineFragment(inf) => Selection::InlineFragment(InlineFragment {
                    position: inf.position,
                    type_condition: inf.type_condition.as_ref().map(|t| condition_in(&condition_out(t))),
                    directives: directives_in(&directives_out(&inf.directives)),
                    selection_set: strip_origin_fields(&inf.selection_set),
                }),
            })
            .collect(),
    }
}

#[test]
fn deleting_added_fields_gives_back_the_document() {
    let query = "fragment F on User { id ... on Admin { level } } query Q { user { name friends { ...F } } }";
    let doc = document_in(&graphql_parser::parse_query::<String>(query).unwrap());
    let once = add_typename_to_document(&doc);
    let mut added = 0;
    let stripped = Document {
        definitions: once
            .definitions
            .iter()
            .map(|d| match d {
                Definition::Fragment(f) => {
                    added += f.selection_set.items.len();
                    Definition::Fragment(FragmentDefinition {
                        position: f.position,
                        name: f.name.clone(),
                        type_condition: condition_in(&condition_out(&f.type_condition)),
                        directives: directives_in(&directives_out(&f.directives)),
                        selection_set: strip_origin_fields(&f.selection_set),
                    })
                }
                Definition::Operation(OperationDefinition::Query(q)) => {
                    Definition::Operation(OperationDefinition::Query(Query {
                        position: q.position,
                        name: q.name.clone(),
                        variable_definitions: variables_in(&variables_out(&q.variable_definitions)),
                        directives: directives_in(&directives_out(&q.directives)),
                        selection_set: strip_origin_fields(&q.selection_set),
                    }))
                }
                _ => unreachable!("the query has a fragment and a query"),
            })
            .collect(),
    };
    assert_eq!(stripped, doc);
    assert!(added > 0);
}
