use graphql_client::{GraphQLQuery, PersistedQueryBody, PersistedQueryExtension, QueryBody};

#[derive(Debug, PartialEq)]
struct TestVariables {
    id: String,
}

struct MyQuery;

impl GraphQLQuery for MyQuery {
    type Variables = TestVariables;
    type ResponseData = ();

    fn build_query(variables: Self::Variables) -> QueryBody<Self::Variables> {
        QueryBody { variables, query: "query MyQuery { a }", operation_name: "MyQuery" }
    }

    fn build_persisted_query(variables: Self::Variables) -> PersistedQueryBody<Self::Variables> {
        PersistedQueryBody::new(variables, "MyQuery", "abc123def456789")
    }
}

#[test]
fn persisted_query_body_new_fills_the_extension() {
    let body = PersistedQueryBody::new(TestVariables { id: "123".to_string() }, "MyQuery", "abc123def456789");
    assert_eq!(body.variables, TestVariables { id: "123".to_string() });
    assert_eq!(body.operation_name, "MyQuery");
    assert_eq!(
        body.extensions.persisted_query,
        PersistedQueryExtension { version: 1, sha256_hash: "abc123def456789" }
    );
}

#[test]
fn query_trait_builds_both_bodies() {
    let body = MyQuery::build_query(TestVariables { id: "1".into() });
    assert_eq!(body.query, "query MyQuery { a }");
    assert_eq!(body.operation_name, "MyQuery");
    let persisted = MyQuery::build_persisted_query(TestVariables { id: "1".into() });
    assert_eq!(persisted.operation_name, "MyQuery");
    assert_eq!(persisted.extensions.persisted_query.version, 1);
    assert_eq!(persisted.extensions.persisted_query.sha256_hash, "abc123def456789");
    assert_eq!(persisted.variables, TestVariables { id: "1".into() });
}
