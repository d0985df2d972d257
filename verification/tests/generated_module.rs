use graphql_client::generated_module::{
    generated_module_items, query_hash, CodegenMode, OperationNotFound,
};
use graphql_client::text::{to_lower_hex, trim_end};

#[test]
fn query_hash_is_sha256_in_lower_hex() {
    assert_eq!(
        query_hash("abc"),
        "ba7816bf8f01cfea414140de5dae2223b00361a396177a9cb410ff61f20015ad"
    );
    assert_eq!(
        query_hash(""),
        "e3b0c44298fc1c149afbf4c8996fb92427ae41e4649b934ca495991b7852b855"
    );
}

#[test]
fn query_hash_ignores_trailing_white_space() {
    assert_eq!(query_hash("abc\n"), query_hash("abc"));
    assert_eq!(query_hash("abc \t\r\n\u{3000}"), query_hash("abc"));
    assert_ne!(query_hash(" abc"), query_hash("abc"));
}

#[test]
fn module_items_for_cli_and_derive() {
    let items = generated_module_items("GetDeviceToken", "query GetDeviceToken { a }", "abc\n", CodegenMode::Cli);
    assert_eq!(items.module_name, "get_device_token");
    assert_eq!(items.operation_name, "GetDeviceToken");
    assert_eq!(items.query, "query GetDeviceToken { a }");
    assert_eq!(items.query_hash, "ba7816bf8f01cfea414140de5dae2223b00361a396177a9cb410ff61f20015ad");
    assert!(items.declares_struct);
    let derived = generated_module_items("GetDeviceToken", "q", "abc", CodegenMode::Derive);
    assert!(!derived.declares_struct);
}

#[test]
fn operation_not_found_message() {
    let err = OperationNotFound { operation_name: "GetUser".to_owned() };
    assert_eq!(err.to_string(), "Could not find an operation named GetUser in the query document.");
}

#[test]
fn lower_hex_of_bytes() {
    assert_eq!(to_lower_hex(&[0x0a, 0x14, 0x1e, 0xff, 0x00]), "0a141eff00");
    assert_eq!(to_lower_hex(&[]), "");
}

#[test]
fn trim_end_removes_unicode_white_space() {
    assert_eq!(trim_end("a b \n\u{85}\u{a0}"), "a b");
    assert_eq!(trim_end("  "), "");
    assert_eq!(trim_end("x\u{200b}"), "x\u{200b}");
}
