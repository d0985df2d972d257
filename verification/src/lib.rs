//! Typed GraphQL requests and responses, and the query transformation that
//! persisted queries are hashed over.
pub mod ast;
mod ast_clone;
pub mod add_typename;
pub mod text;
pub mod response;
pub mod body;
pub mod generated_module;

pub use add_typename::add_typename_to_document;
pub use body::{
    GraphQLQuery, PersistedQueryBody, PersistedQueryExtension, PersistedQueryExtensions, QueryBody,
};
pub use response::{Error, Location, PathFragment, Response};
