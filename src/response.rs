//! Reading typed results out of parsed replies.
use vstd::prelude::*;
use crate::decimal::{parse_u128, parse_u64, u128_of, u64_of};
use crate::json::{field, field_of, JsonValue};
use crate::types::{
    AccountInPoolResult, AccountInPoolView, Block, BlockHeader, BlockHeaderView, BlockView,
    ValidatorStake, ValidatorStakeView, Validators, ValidatorsView,
};

verus! {

pub open spec fn str_at(v: JsonValue, key: Seq<char>) -> Option<Seq<char>> {
    match field_of(v, key) {
        Some(JsonValue::Str(s)) => Some(s@),
        _ => None,
    }
}

/// An amount: a string of decimal digits, as JSON carries 128-bit numbers.
pub open spec fn u128_at(v: JsonValue, key: Seq<char>) -> Option<u128> {
    match str_at(v, key) {
        Some(s) => u128_of(s),
        None => None,
    }
}

pub open spec fn u64_at(v: JsonValue, key: Seq<char>) -> Option<u64> {
    match field_of(v, key) {
        Some(JsonValue::Number(t)) => u64_of(t@),
        _ => None,
    }
}

pub open spec fn bool_at(v: JsonValue, key: Seq<char>) -> Option<bool> {
    match field_of(v, key) {
        Some(JsonValue::Bool(b)) => Some(b),
        _ => None,
    }
}

fn str_field<'a>(v: &'a JsonValue, key: &str) -> (r: Option<&'a String>)
    ensures
        match r {
            Some(s) => str_at(*v, key@) == Some(s@),
            None => str_at(*v, key@) is None,
        },
{
    match field(v, key) {
        Some(JsonValue::Str(s)) => Some(s),
        _ => None,
    }
}

fn owned_str_field(v: &JsonValue, key: &str) -> (r: Option<String>)
    ensures
        match r {
            Some(s) => str_at(*v, key@) == Some(s@),
            None => str_at(*v, key@) is None,
        },
{
    match str_field(v, key) {
        Some(s) => Some(s.clone()),
        None => None,
    }
}

fn u128_field(v: &JsonValue, key: &str) -> (r: Option<u128>)
    ensures
        r == u128_at(*v, key@),
{
    match str_field(v, key) {
        Some(s) => parse_u128(s.as_str()),
        None => None,
    }
}

fn u64_field(v: &JsonValue, key: &str) -> (r: Option<u64>)
    ensures
        r == u64_at(*v, key@),
{
    match field(v, key) {
        Some(JsonValue::Number(t)) => parse_u64(t.as_str()),
        _ => None,
    }
}

fn bool_field(v: &JsonValue, key: &str) -> (r: Option<bool>)
    ensures
        r == bool_at(*v, key@),
{
    match field(v, key) {
        Some(JsonValue::Bool(b)) => Some(*b),
        _ => None,
    }
}

/// The balance in `result.amount` of a reply.
pub open spec fn amount_of(reply: JsonValue) -> Option<u128> {
    match field_of(reply, "result"@) {
        Some(res) => u128_at(res, "amount"@),
        None => None,
    }
}

/// Reads the balance in `result.amount` of a reply.
pub fn amount_from_json(reply: &JsonValue) -> (r: Option<u128>)
    ensures
        r == amount_of(*reply),
{
    match field(reply, "result") {
        Some(res) => u128_field(res, "amount"),
        None => None,
    }
}

/// The value of a byte: a JSON integer from 0 to 255.
pub open spec fn byte_of(v: JsonValue) -> Option<u8> {
    match v {
        JsonValue::Number(t) => match u64_of(t@) {
            Some(n) => if n <= 255 {
                Some(n as u8)
            } else {
                None
            },
            None => None,
        },
        _ => None,
    }
}

/// The bytes that a contract call returned, in `result.result` of a reply.
pub open spec fn payload_of(reply: JsonValue) -> Option<Seq<u8>> {
    match field_of(reply, "result"@) {
        Some(res) => match field_of(res, "result"@) {
            Some(JsonValue::Array(items)) => if forall|i: int|
                0 <= i < items@.len() ==> (#[trigger] byte_of(items@[i])) is Some {
                Some(Seq::new(items@.len(), |i: int| byte_of(items@[i])->Some_0))
            } else {
                None
            },
            _ => None,
        },
        None => None,
    }
}

fn byte_from_json(v: &JsonValue) -> (r: Option<u8>)
    ensures
        r == byte_of(*v),
{
    match v {
        JsonValue::Number(t) => match parse_u64(t.as_str()) {
            Some(n) => if n <= 255 {
                Some(n as u8)
            } else {
                None
            },
            None => None,
        },
        _ => None,
    }
}

/// Reads the bytes that a contract call returned, in `result.result` of a reply.
pub fn payload_from_json(reply: &JsonValue) -> (r: Option<Vec<u8>>)
    ensures
        match r {
            Some(b) => payload_of(*reply) == Some(b@),
            None => payload_of(*reply) is None,
        },
{
    let res = match field(reply, "result") {
        Some(res) => res,
        None => return None,
    };
    let items = match field(res, "result") {
        Some(JsonValue::Array(items)) => items,
        _ => return None,
    };
    let mut out: Vec<u8> = Vec::new();
    let mut i: usize = 0;
    while i < items.len()
        invariant
            0 <= i <= items@.len(),
            out@.len() == i,
            forall|j: int| 0 <= j < i ==> (#[trigger] byte_of(items@[j])) == Some(out@[j]),
            field_of(*reply, "result"@) == Some(*res),
            field_of(*res, "result"@) == Some(JsonValue::Array(*items)),
        decreases items.len() - i,
    {
        match byte_from_json(&items[i]) {
            Some(b) => out.push(b),
            None => return None,
        }
        i = i + 1;
    }
    assert(out@ =~= Seq::new(items@.len() as nat, |j: int| byte_of(items@[j])->Some_0));
    Some(out)
}

/// A delegator's balances, as a staking pool's `get_account` returns them.
pub open spec fn account_in_pool_of(v: JsonValue) -> Option<AccountInPoolView> {
    match (
        str_at(v, "account_id"@),
        u128_at(v, "unstaked_balance"@),
        u128_at(v, "staked_balance"@),
        bool_at(v, "can_withdraw"@),
    ) {
        (Some(a), Some(u), Some(s), Some(w)) => Some(
            AccountInPoolView {
                account_id: a,
                unstaked_balance: u,
                staked_balance: s,
                can_withdraw: w,
            },
        ),
        _ => None,
    }
}

/// Reads a delegator's balances out of what `get_account` returned.
pub fn account_in_pool_from_json(v: &JsonValue) -> (r: Option<AccountInPoolResult>)
    ensures
        match r {
            Some(x) => account_in_pool_of(*v) == Some(x@),
            None => account_in_pool_of(*v) is None,
        },
{
    let account_id = match owned_str_field(v, "account_id") {
        Some(a) => a,
        None => return None,
    };
    let unstaked_balance = match u128_field(v, "unstaked_balance") {
        Some(u) => u,
        None => return None,
    };
    let staked_balance = match u128_field(v, "staked_balance") {
        Some(s) => s,
        None => return None,
    };
    let can_withdraw = match bool_field(v, "can_withdraw") {
        Some(w) => w,
        None => return None,
    };
    Some(AccountInPoolResult { account_id, unstaked_balance, staked_balance, can_withdraw })
}

/// The account id that `get_staking_pool_account_id` returned: a JSON string.
pub open spec fn pool_account_id_of(v: JsonValue) -> Option<Seq<char>> {
    match v {
        JsonValue::Str(s) => Some(s@),
        _ => None,
    }
}

/// Reads the account id that `get_staking_pool_account_id` returned.
pub fn pool_account_id_from_json(v: &JsonValue) -> (r: Option<String>)
    ensures
        match r {
            Some(s) => pool_account_id_of(*v) == Some(s@),
            None => pool_account_id_of(*v) is None,
        },
{
    match v {
        JsonValue::Str(s) => Some(s.clone()),
        _ => None,
    }
}

pub open spec fn header_of(v: JsonValue) -> Option<BlockHeaderView> {
    match (
        u64_at(v, "height"@),
        str_at(v, "epoch_id"@),
        str_at(v, "hash"@),
        str_at(v, "prev_hash"@),
        u64_at(v, "timestamp"@),
    ) {
        (Some(height), Some(epoch_id), Some(hash), Some(prev_hash), Some(timestamp)) => Some(
            BlockHeaderView { height, epoch_id, hash, prev_hash, timestamp },
        ),
        _ => None,
    }
}

/// The block in `result` of a reply: its `author` and its `header`.
pub open spec fn block_of(reply: JsonValue) -> Option<BlockView> {
    match field_of(reply, "result"@) {
        Some(res) => match (str_at(res, "author"@), field_of(res, "header"@)) {
            (Some(author), Some(h)) => match header_of(h) {
                Some(header) => Some(BlockView { author, header }),
                None => None,
            },
            _ => None,
        },
        None => None,
    }
}

fn header_from_json(v: &JsonValue) -> (r: Option<BlockHeader>)
    ensures
        match r {
            Some(x) => header_of(*v) == Some(x@),
            None => header_of(*v) is None,
        },
{
    let height = match u64_field(v, "height") {
        Some(h) => h,
        None => return None,
    };
    let epoch_id = match owned_str_field(v, "epoch_id") {
        Some(e) => e,
        None => return None,
    };
    let hash = match owned_str_field(v, "hash") {
        Some(h) => h,
        None => return None,
    };
    let prev_hash = match owned_str_field(v, "prev_hash") {
        Some(p) => p,
        None => return None,
    };
    let timestamp = match u64_field(v, "timestamp") {
        Some(t) => t,
        None => return None,
    };
    Some(BlockHeader { height, epoch_id, hash, prev_hash, timestamp })
}

/// Reads the block in `result` of a reply.
pub fn block_from_json(reply: &JsonValue) -> (r: Option<Block>)
    ensures
        match r {
            Some(x) => block_of(*reply) == Some(x@),
            None => block_of(*reply) is None,
        },
{
    let res = match field(reply, "result") {
        Some(res) => res,
        None => return None,
    };
    let author = match owned_str_field(res, "author") {
        Some(a) => a,
        None => return None,
    };
    let h = match field(res, "header") {
        Some(h) => h,
        None => return None,
    };
    match header_from_json(h) {
        Some(header) => Some(Block { author, header }),
        None => None,
    }
}

pub open spec fn validator_of(v: JsonValue) -> Option<ValidatorStakeView> {
    match (str_at(v, "account_id"@), u128_at(v, "stake"@)) {
        (Some(account_id), Some(stake)) => Some(ValidatorStakeView { account_id, stake }),
        _ => None,
    }
}

/// The validator set in `result` of a reply: each entry of
/// `current_validators`, in order, and `epoch_start_height`.
pub open spec fn validators_of(reply: JsonValue) -> Option<ValidatorsView> {
    match field_of(reply, "result"@) {
        Some(res) => match (field_of(res, "current_validators"@), u64_at(res, "epoch_start_height"@)) {
            (Some(JsonValue::Array(items)), Some(h)) => if forall|i: int|
                0 <= i < items@.len() ==> (#[trigger] validator_of(items@[i])) is Some {
                Some(
                    ValidatorsView {
                        current_validators: Seq::new(
                            items@.len(),
                            |i: int| validator_of(items@[i])->Some_0,
                        ),
                        epoch_start_height: h,
                    },
                )
            } else {
                None
            },
            _ => None,
        },
        None => None,
    }
}

fn validator_from_json(v: &JsonValue) -> (r: Option<ValidatorStake>)
    ensures
        match r {
            Some(x) => validator_of(*v) == Some(x@),
            None => validator_of(*v) is None,
        },
{
    let account_id = match owned_str_field(v, "account_id") {
        Some(a) => a,
        None => return None,
    };
    match u128_field(v, "stake") {
        Some(stake) => Some(ValidatorStake { account_id, stake }),
        None => None,
    }
}

/// Reads the validator set in `result` of a reply.
pub fn validators_from_json(reply: &JsonValue) -> (r: Option<Validators>)
    ensures
        match r {
            Some(x) => validators_of(*reply) == Some(x@),
            None => validators_of(*reply) is None,
        },
{
    let res = match field(reply, "result") {
        Some(res) => res,
        None => return None,
    };
    let epoch_start_height = match u64_field(res, "epoch_start_height") {
        Some(h) => h,
        None => return None,
    };
    let items = match field(res, "current_validators") {
        Some(JsonValue::Array(items)) => items,
        _ => return None,
    };
    let mut out: Vec<ValidatorStake> = Vec::new();
    let mut i: usize = 0;
    while i < items.len()
        invariant
            0 <= i <= items@.len(),
            out@.len() == i,
            forall|j: int| 0 <= j < i ==> (#[trigger] validator_of(items@[j])) == Some(out@[j]@),
            field_of(*reply, "result"@) == Some(*res),
            field_of(*res, "current_validators"@) == Some(JsonValue::Array(*items)),
            u64_at(*res, "epoch_start_height"@) == Some(epoch_start_height),
        decreases items.len() - i,
    {
        match validator_from_json(&items[i]) {
            Some(x) => out.push(x),
            None => return None,
        }
        i = i + 1;
    }
    let r = Validators { current_validators: out, epoch_start_height };
    assert(r@.current_validators =~= Seq::new(
        items@.len() as nat,
        |j: int| validator_of(items@[j])->Some_0,
    ));
    Some(r)
}

} // verus!
