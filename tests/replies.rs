use near_jsonrpc_client::{
    decode_account_in_pool, decode_amount, decode_block, decode_staking_pool_account_id,
    decode_validators, AccountInPoolResult, DecodeStage, RpcError,
};

fn body(text: &str) -> Result<Vec<u8>, String> {
    Ok(text.as_bytes().to_vec())
}

/// A `call_function` reply whose `result.result` holds the bytes of `inner`.
fn call_reply(inner: &[u8]) -> Result<Vec<u8>, String> {
    let items: Vec<String> = inner.iter().map(|b| b.to_string()).collect();
    let text = format!(
        r#"{{"jsonrpc":"2.0","result":{{"result":[{}],"logs":[],"block_height":9,"block_hash":"h"}},"id":"dontcare"}}"#,
        items.join(",")
    );
    Ok(text.into_bytes())
}

const ENVELOPE: RpcError = RpcError::Decode(DecodeStage::Envelope);
const PAYLOAD: RpcError = RpcError::Decode(DecodeStage::Payload);

#[test]
fn amount_is_read_from_result() {
    let r = decode_amount(body(r#"{"jsonrpc":"2.0","result":{"amount":"1000","locked":"0"},"id":"dontcare"}"#));
    assert_eq!(r, Ok(1000));
}

#[test]
fn largest_amount_is_read() {
    let r = decode_amount(body(r#"{"result":{"amount":"340282366920938463463374607431768211455"}}"#));
    assert_eq!(r, Ok(u128::MAX));
}

#[test]
fn amount_over_u128_is_a_decode_error() {
    let r = decode_amount(body(r#"{"result":{"amount":"340282366920938463463374607431768211456"}}"#));
    assert_eq!(r, Err(ENVELOPE));
}

#[test]
fn amount_as_number_is_a_decode_error() {
    assert_eq!(decode_amount(body(r#"{"result":{"amount":1000}}"#)), Err(ENVELOPE));
}

#[test]
fn malformed_bodies_are_decode_errors() {
    for text in ["", "not json", "{", r#"{"error":{"code":-32000}}"#, r#"{"result":{}}"#, "[]"] {
        assert_eq!(decode_amount(body(text)), Err(ENVELOPE));
        assert_eq!(decode_block(body(text)), Err(ENVELOPE));
        assert_eq!(decode_validators(body(text)), Err(ENVELOPE));
        assert_eq!(decode_account_in_pool(body(text)), Err(ENVELOPE));
        assert_eq!(decode_staking_pool_account_id(body(text)), Err(ENVELOPE));
    }
}

#[test]
fn transport_failures_are_transport_errors() {
    let e = || Err("connection refused".to_string());
    let t = RpcError::Transport("connection refused".to_string());
    assert_eq!(decode_amount(e()), Err(t.clone()));
    assert_eq!(decode_block(e()), Err(t.clone()));
    assert_eq!(decode_validators(e()), Err(t.clone()));
    assert_eq!(decode_account_in_pool(e()), Err(t.clone()));
    assert_eq!(decode_staking_pool_account_id(e()), Err(t));
}

#[test]
fn block_is_read_from_result() {
    let text = r#"{"jsonrpc":"2.0","result":{"author":"node0","header":{"height":12345,"epoch_id":"E1","hash":"H1","prev_hash":"H0","timestamp":1600000000000000000,"gas_price":"100"},"chunks":[]},"id":"dontcare"}"#;
    let b = decode_block(body(text)).unwrap();
    assert_eq!(b.author, "node0");
    assert_eq!(b.header.height, 12345);
    assert_eq!(b.header.epoch_id, "E1");
    assert_eq!(b.header.hash, "H1");
    assert_eq!(b.header.prev_hash, "H0");
    assert_eq!(b.header.timestamp, 1600000000000000000);
}

#[test]
fn block_with_negative_height_is_a_decode_error() {
    let text = r#"{"result":{"author":"a","header":{"height":-1,"epoch_id":"E","hash":"H","prev_hash":"P","timestamp":1}}}"#;
    assert_eq!(decode_block(body(text)), Err(ENVELOPE));
}

#[test]
fn validators_are_read_in_order() {
    let text = r#"{"result":{"current_validators":[{"account_id":"v1","stake":"10","is_slashed":false},{"account_id":"v2","stake":"20"}],"epoch_start_height":77,"next_validators":[]}}"#;
    let v = decode_validators(body(text)).unwrap();
    assert_eq!(v.epoch_start_height, 77);
    assert_eq!(v.current_validators.len(), 2);
    assert_eq!(v.current_validators[0].account_id, "v1");
    assert_eq!(v.current_validators[0].stake, 10);
    assert_eq!(v.current_validators[1].account_id, "v2");
    assert_eq!(v.current_validators[1].stake, 20);
}

#[test]
fn empty_validator_set_is_read() {
    let v = decode_validators(body(r#"{"result":{"current_validators":[],"epoch_start_height":1}}"#)).unwrap();
    assert!(v.current_validators.is_empty());
}

#[test]
fn validator_without_stake_is_a_decode_error() {
    let text = r#"{"result":{"current_validators":[{"account_id":"v1"}],"epoch_start_height":1}}"#;
    assert_eq!(decode_validators(body(text)), Err(ENVELOPE));
}

#[test]
fn account_in_pool_reverses_double_encoding() {
    let inner = br#"{"account_id":"alice.near","unstaked_balance":"5","staked_balance":"1000000000000000000000000","can_withdraw":true}"#;
    let r = decode_account_in_pool(call_reply(inner));
    assert_eq!(
        r,
        Ok(AccountInPoolResult {
            account_id: "alice.near".to_string(),
            unstaked_balance: 5,
            staked_balance: 1000000000000000000000000,
            can_withdraw: true,
        })
    );
}

#[test]
fn account_in_pool_with_bad_inner_json_is_a_payload_error() {
    assert_eq!(decode_account_in_pool(call_reply(b"not json")), Err(PAYLOAD));
    assert_eq!(decode_account_in_pool(call_reply(b"{\"account_id\":\"a\"}")), Err(PAYLOAD));
}

#[test]
fn staking_pool_account_id_reverses_double_encoding() {
    let r = decode_staking_pool_account_id(call_reply(b"\"pool.near\""));
    assert_eq!(r, Ok("pool.near".to_string()));
}

#[test]
fn staking_pool_account_id_unescapes_inner_string() {
    let r = decode_staking_pool_account_id(call_reply(b"\"a\\u0062c\""));
    assert_eq!(r, Ok("abc".to_string()));
}

#[test]
fn staking_pool_account_id_needs_a_string() {
    assert_eq!(decode_staking_pool_account_id(call_reply(b"null")), Err(PAYLOAD));
    assert_eq!(decode_staking_pool_account_id(call_reply(b"\"open")), Err(PAYLOAD));
}

#[test]
fn payload_bytes_out_of_range_are_a_decode_error() {
    let text = r#"{"result":{"result":[34,256,34]}}"#;
    assert_eq!(decode_staking_pool_account_id(body(text)), Err(ENVELOPE));
}
