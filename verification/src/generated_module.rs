//! What the code generated for one operation is made of: the module's name,
//! the operation's name and text, and the hash under which a persisted query
//! is known.
use vstd::prelude::*;
use vstd::utf8::encode_utf8;
use heck::ToSnakeCase;
use sha2::Digest;
use crate::text::{
    is_white_space, lemma_trim_end_white_space_prefix, lower_hex, push_str, to_lower_hex, trim_end,
    trim_end_white_space,
};

verus! {

/// The SHA-256 digest of the bytes, as the `sha2` crate computes it.
pub uninterp spec fn sha256(data: Seq<u8>) -> Seq<u8>;

/// The identifier in snake case, as `heck`'s `to_snake_case` computes it.
pub uninterp spec fn snake_case(s: Seq<char>) -> Seq<char>;

/// `sha2::Sha256::digest`: the 32-byte SHA-256 digest of `data`.
#[verifier::external_body]
fn sha256_digest(data: &[u8]) -> (r: Vec<u8>)
    ensures
        r@ == sha256(data@),
        r@.len() == 32,
{
    sha2::Sha256::digest(data).to_vec()
}

/// `heck::ToSnakeCase::to_snake_case` on a string slice.
#[verifier::external_body]
fn to_snake_case(s: &str) -> (r: String)
    ensures
        r@ == snake_case(s@),
{
    s.to_snake_case()
}

/// The hash under which a persisted query is known: the SHA-256 digest of
/// the UTF-8 bytes of the canonical query text without its trailing white
/// space, in lowercase hexadecimal.
pub open spec fn query_hash_of(canonical_query: Seq<char>) -> Seq<char> {
    lower_hex(sha256(encode_utf8(trim_end_white_space(canonical_query))))
}

/// Computes the persisted-query hash of the canonically formatted query
/// (the query document with `__typename` added, as the GraphQL printer
/// writes it).
pub fn query_hash(canonical_query: &str) -> (h: String)
    ensures
        h@ == query_hash_of(canonical_query@),
        h@.len() == 64,
{
    // Remove trailing newline
    let canonical_query = trim_end(canonical_query);
    let hash_bytes = sha256_digest(canonical_query.as_bytes());
    to_lower_hex(hash_bytes.as_slice())
}

/// White space after the canonical query does not change its hash.
pub proof fn law_query_hash_ignores_trailing_white_space(query: Seq<char>, tail: Seq<char>)
    requires
        forall|i: int| 0 <= i < tail.len() ==> is_white_space(#[trigger] tail[i]),
    ensures
        query_hash_of(query + tail) == query_hash_of(query),
{
    let s = query + tail;
    assert forall|j: int| query.len() <= j < s.len() implies is_white_space(#[trigger] s[j]) by {
        assert(s[j] == tail[j - query.len()]);
    }
    lemma_trim_end_white_space_prefix(s, query.len() as int);
    assert(s.take(query.len() as int) =~= query);
}

/// Whether the generated code declares the operation's struct itself.
#[derive(Debug, Clone, Copy, PartialEq, Eq, Structural)]
pub enum CodegenMode {
    /// Code written by the command-line tool: the struct is declared.
    Cli,
    /// Code of the custom derive: the struct is already present.
    Derive,
}

/// The values that the generated module is made of.
#[derive(Debug, Clone, PartialEq, Eq)]
pub struct GeneratedModuleItems {
    /// The name of the module: the operation's name in snake case.
    pub module_name: String,
    /// The value of `OPERATION_NAME`.
    pub operation_name: String,
    /// The value of `QUERY`.
    pub query: String,
    /// The value of `QUERY_HASH`.
    pub query_hash: String,
    /// Whether the struct of the operation is declared beside the module.
    pub declares_struct: bool,
}

/// Computes the items of the module generated for `operation`, whose query
/// text is `query_string` and whose canonical text (with `__typename`
/// added) is `canonical_query`.
pub fn generated_module_items(
    operation: &str,
    query_string: &str,
    canonical_query: &str,
    mode: CodegenMode,
) -> (r: GeneratedModuleItems)
    ensures
        r.module_name@ == snake_case(operation@),
        r.operation_name@ == operation@,
        r.query@ == query_string@,
        r.query_hash@ == query_hash_of(canonical_query@),
        r.query_hash@.len() == 64,
        r.declares_struct == (mode == CodegenMode::Cli),
{
    let module_name = to_snake_case(operation);
    let query_hash = query_hash(canonical_query);
    let declares_struct = match mode {
        CodegenMode::Cli => true,
        // The struct is already present in derive mode.
        CodegenMode::Derive => false,
    };
    GeneratedModuleItems {
        module_name,
        operation_name: operation.to_owned(),
        query: query_string.to_owned(),
        query_hash,
        declares_struct,
    }
}

/// The error given when the query document has no operation of the
/// requested name.
#[derive(Debug, Clone, PartialEq, Eq)]
pub struct OperationNotFound {
    pub operation_name: String,
}

/// The message of an [`OperationNotFound`].
pub open spec fn operation_not_found_text(name: Seq<char>) -> Seq<char> {
    "Could not find an operation named "@ + name + " in the query document."@
}

impl OperationNotFound {
    /// The message: `Could not find an operation named NAME in the query document.`
    pub fn to_string(&self) -> (s: String)
        ensures
            s@ == operation_not_found_text(self.operation_name@),
    {
        let mut s = String::new();
        push_str(&mut s, "Could not find an operation named ");
        push_str(&mut s, self.operation_name.as_str());
        push_str(&mut s, " in the query document.");
        assert(s@ =~= operation_not_found_text(self.operation_name@));
        s
    }
}

} // verus!
