//! Request bodies: the query with its variables, and the persisted-query
//! body that carries only the query's hash.
use vstd::prelude::*;

verus! {

/// A convenience trait that can be used to build a GraphQL request body.
///
/// This will be implemented for you by codegen in the normal case. It is
/// implemented on the struct you place the derive on.
pub trait GraphQLQuery {
    /// The shape of the variables expected by the query. This should be a generated struct most of the time.
    type Variables;
    /// The top-level shape of the response data (the `data` field in the GraphQL response).
    type ResponseData;

    /// Produce a GraphQL query struct that can be JSON serialized and sent to a GraphQL API.
    fn build_query(variables: Self::Variables) -> QueryBody<Self::Variables>;

    /// Produce a persisted query body using the pre-computed SHA256 hash.
    ///
    /// This is for static persisted queries where the server has the query
    /// pre-registered and only needs the hash to identify it. The query string
    /// is not included in the request body.
    fn build_persisted_query(variables: Self::Variables) -> PersistedQueryBody<Self::Variables>;
}

/// The form in which queries are sent over HTTP in most implementations.
#[derive(Debug)]
pub struct QueryBody<Variables> {
    /// The values for the variables. They must match those declared in the queries.
    pub variables: Variables,
    /// The GraphQL query, as a string.
    pub query: &'static str,
    /// The GraphQL operation name, as a string.
    pub operation_name: &'static str,
}

/// The persisted query extension format used by Apollo.
///
/// This is included in the `extensions` field of a [`PersistedQueryBody`].
#[derive(Debug, Clone, PartialEq, Eq)]
pub struct PersistedQueryExtension {
    /// The version of the persisted query protocol (always 1).
    pub version: u8,
    /// The SHA256 hash of the query string.
    pub sha256_hash: &'static str,
}

/// Extensions object containing persisted query information.
#[derive(Debug, Clone, PartialEq, Eq)]
pub struct PersistedQueryExtensions {
    /// The persisted query extension.
    pub persisted_query: PersistedQueryExtension,
}

/// Request body for static persisted queries (Apollo format).
///
/// Unlike [`QueryBody`], this has no `query` field since the server already
/// has the query registered. Only the SHA256 hash is sent to identify the
/// query.
#[derive(Debug)]
pub struct PersistedQueryBody<Variables> {
    /// The values for the variables.
    pub variables: Variables,
    /// The GraphQL operation name, as a string.
    pub operation_name: &'static str,
    /// Extensions containing the persisted query hash.
    pub extensions: PersistedQueryExtensions,
}

impl<Variables> PersistedQueryBody<Variables> {
    /// Create a new persisted query body: the variables and operation name
    /// as given, and the hash under protocol version 1.
    pub fn new(variables: Variables, operation_name: &'static str, query_hash: &'static str) -> (r:
        Self)
        ensures
            r.variables == variables,
            r.operation_name == operation_name,
            r.extensions.persisted_query.version == 1,
            r.extensions.persisted_query.sha256_hash == query_hash,
    {
        Self {
            variables,
            operation_name,
            extensions: PersistedQueryExtensions {
                persisted_query: PersistedQueryExtension { version: 1, sha256_hash: query_hash },
            },
        }
    }
}

} // verus!
