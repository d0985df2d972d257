# graphql_client

Typed GraphQL requests and responses, and the query transformation that
persisted queries are hashed over, written in Verus.

Layout:

- `src/` is the verified library.
  - `ast.rs`: the GraphQL query document and its mathematical model.
  - `add_typename.rs`: adds `__typename` to every nested selection set; its
    contract is the model-level function `with_typename_document`, and the
    laws (idempotence, every nested selection set closed, operation roots
    untouched, only `__typename` appended, deleting the added fields gives
    the document back) are proof functions there.
  - `response.rs`: `Location`, `PathFragment`, `Error`, `Response` and the
    text of an error (`path:line:column: message`).
  - `body.rs`: `QueryBody`, `PersistedQueryBody` and the `GraphQLQuery` trait.
  - `generated_module.rs`: the persisted-query hash (SHA-256 of the trimmed
    canonical query, in lowercase hex) and the items of a generated module.
  - `text.rs`: decimal and hexadecimal digits, trimming.
- `app/` holds what meets the outside world: the JSON encodings (serde), the
  HTTP client (reqwest), conversions to and from the GraphQL parser's tree
  with its printer, and the tokens of generated code (quote).
- `tests/` exercises the library.
