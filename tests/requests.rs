use near_jsonrpc_client::decimal::{parse_u128, parse_u64, u64_text};
use near_jsonrpc_client::NearJsonRpcClient;

fn client() -> NearJsonRpcClient {
    NearJsonRpcClient::new("http://127.0.0.1:3030".to_string())
}

/// The text is one JSON document, already written as serde_json writes it.
fn assert_canonical(text: &str) {
    let value: serde_json::Value = serde_json::from_str(text).unwrap();
    assert_eq!(serde_json::to_string(&value).unwrap(), text);
}

#[test]
fn new_keeps_endpoint() {
    assert_eq!(client().endpoint(), "http://127.0.0.1:3030");
}

#[test]
fn parses_decimal_amounts() {
    assert_eq!(parse_u128("1000"), Some(1000));
    assert_eq!(parse_u128("0"), Some(0));
    assert_eq!(parse_u128("007"), Some(7));
    assert_eq!(parse_u128(""), None);
    assert_eq!(parse_u128("12a"), None);
    assert_eq!(parse_u128("-1"), None);
    assert_eq!(parse_u128("+1"), None);
    assert_eq!(parse_u128("340282366920938463463374607431768211455"), Some(u128::MAX));
    assert_eq!(parse_u128("340282366920938463463374607431768211456"), None);
    assert_eq!(parse_u64("18446744073709551615"), Some(u64::MAX));
    assert_eq!(parse_u64("18446744073709551616"), None);
    assert_eq!(parse_u64("1.5"), None);
}

#[test]
fn writes_decimal_heights() {
    assert_eq!(u64_text(0), "0");
    assert_eq!(u64_text(9), "9");
    assert_eq!(u64_text(10), "10");
    assert_eq!(u64_text(123456789), "123456789");
    assert_eq!(u64_text(u64::MAX), "18446744073709551615");
}

#[test]
fn locked_amount_request_text() {
    let r = client().locked_amount_request("lockup.near", 42);
    assert_eq!(
        r,
        r#"{"id":"dontcare","jsonrpc":"2.0","method":"query","params":{"account_id":"lockup.near","args_base64":"","block_id":42,"method_name":"get_locked_amount","request_type":"call_function"}}"#
    );
    assert_canonical(&r);
}

#[test]
fn liquid_owners_balance_request_text() {
    let r = client().liquid_owners_balance_request("lockup.near", 7);
    assert_eq!(
        r,
        r#"{"id":"dontcare","jsonrpc":"2.0","method":"query","params":{"account_id":"lockup.near","args_base64":"","block_id":7,"method_name":"get_liquid_owners_balance","request_type":"call_function"}}"#
    );
    assert_canonical(&r);
}

#[test]
fn account_in_pool_request_text() {
    let r = client().account_in_pool_request("alice.near", "pool.near", 100);
    // base64 of {"account_id":"alice.near"}
    assert_eq!(
        r,
        r#"{"id":"dontcare","jsonrpc":"2.0","method":"query","params":{"account_id":"pool.near","args_base64":"eyJhY2NvdW50X2lkIjoiYWxpY2UubmVhciJ9","block_id":100,"method_name":"get_account","request_type":"call_function"}}"#
    );
    assert_canonical(&r);
}

#[test]
fn native_balance_request_text() {
    let r = client().native_balance_request("alice.near", 5);
    assert_eq!(
        r,
        r#"{"id":"dontcare","jsonrpc":"2.0","method":"query","params":{"account_id":"alice.near","block_id":5,"request_type":"view_account"}}"#
    );
    assert_canonical(&r);
}

#[test]
fn validators_request_text() {
    let r = client().validators_request();
    assert_eq!(
        r,
        r#"{"id":"dontcare","jsonrpc":"2.0","method":"validators","params":{"latest":null}}"#
    );
    assert_canonical(&r);
}

#[test]
fn block_request_selects_by_height_only() {
    let r = client().block_request(12345);
    assert_eq!(
        r,
        r#"{"id":"dontcare","jsonrpc":"2.0","method":"block","params":{"block_id":12345}}"#
    );
    assert!(!r.contains("finality"));
    assert_canonical(&r);
}

#[test]
fn final_block_request_selects_by_finality_only() {
    let r = client().final_block_request();
    assert_eq!(
        r,
        r#"{"id":"dontcare","jsonrpc":"2.0","method":"block","params":{"finality":"final"}}"#
    );
    assert!(!r.contains("block_id"));
    assert_canonical(&r);
}

#[test]
fn staking_pool_account_id_request_text() {
    let r = client().staking_pool_account_id_request("lockup.near");
    assert_eq!(
        r,
        r#"{"id":"dontcare","jsonrpc":"2.0","method":"query","params":{"account_id":"lockup.near","args_base64":"e30=","finality":"final","method_name":"get_staking_pool_account_id","request_type":"call_function"}}"#
    );
    assert_canonical(&r);
}

#[test]
fn account_ids_are_escaped() {
    let r = client().native_balance_request("a\"b\\c", 1);
    assert!(r.contains(r#""account_id":"a\"b\\c","#));
    assert_canonical(&r);
    let value: serde_json::Value = serde_json::from_str(&r).unwrap();
    assert_eq!(value["params"]["account_id"], serde_json::Value::String("a\"b\\c".to_string()));
}

#[test]
fn same_client_serves_many_calls() {
    let c = client();
    let a = c.block_request(1);
    let b = c.final_block_request();
    let again = c.block_request(1);
    assert_eq!(a, again);
    assert_ne!(a, b);
    assert_eq!(c.endpoint(), "http://127.0.0.1:3030");
}
