//! The client: for each call, the request it sends and the decoding of the
//! reply it gets back. The exchange itself is left to the caller.
use vstd::prelude::*;
use vstd::string::*;
use crate::decimal::{decimal_text, is_digit, lemma_decimal_round_trip, lemma_u128_text};
use crate::json::{field_of, parse_json, parsed_json, JsonValue};
use crate::request::{
    account_args, account_args_base64, base64_of_text, block_params, block_request_params,
    call_function, call_function_params, envelope, envelope_text, view_account,
    view_account_params, BlockRef,
};
use crate::response::{
    account_in_pool_from_json, account_in_pool_of, amount_from_json, amount_of, block_from_json,
    block_of, bool_at, payload_from_json, payload_of, pool_account_id_from_json,
    pool_account_id_of, str_at, validators_from_json, validators_of,
};
use crate::types::{
    AccountInPoolResult, AccountInPoolView, Block, BlockView, DecodeStage, RpcError, Validators,
    ValidatorsView,
};

verus! {

/// A client of one JSON-RPC endpoint. It holds nothing but the endpoint's
/// address, so one client serves any number of calls at once.
#[derive(Debug)]
pub struct NearJsonRpcClient {
    endpoint: String,
}

impl NearJsonRpcClient {
    pub fn new(endpoint: String) -> (r: Self)
        ensures
            r.spec_endpoint() == endpoint@,
    {
        NearJsonRpcClient { endpoint }
    }

    pub closed spec fn spec_endpoint(&self) -> Seq<char> {
        self.endpoint@
    }

    /// The address that requests are posted to.
    pub fn endpoint(&self) -> (r: &str)
        ensures
            r@ == self.spec_endpoint(),
    {
        self.endpoint.as_str()
    }

    /// The request for `get_locked_amount` of a lockup contract, at a height.
    pub fn locked_amount_request(&self, account_id: &str, block_height: u64) -> (r: String)
        ensures
            r@ == envelope_text(
                "query"@,
                call_function_params(
                    account_id@,
                    ""@,
                    BlockRef::Height(block_height),
                    "get_locked_amount"@,
                ),
            ),
    {
        let params = call_function(
            account_id,
            "",
            BlockRef::Height(block_height),
            "get_locked_amount",
        );
        envelope("query", params.as_str())
    }

    /// The request for `get_liquid_owners_balance` of a lockup contract, at a height.
    pub fn liquid_owners_balance_request(&self, account_id: &str, block_height: u64) -> (r:
        String)
        ensures
            r@ == envelope_text(
                "query"@,
                call_function_params(
                    account_id@,
                    ""@,
                    BlockRef::Height(block_height),
                    "get_liquid_owners_balance"@,
                ),
            ),
    {
        let params = call_function(
            account_id,
            "",
            BlockRef::Height(block_height),
            "get_liquid_owners_balance",
        );
        envelope("query", params.as_str())
    }

    /// The request for `get_account` of the pool contract `pool_account_id`,
    /// with the delegator's id as base64-encoded JSON arguments.
    pub fn account_in_pool_request(
        &self,
        account_id: &str,
        pool_account_id: &str,
        block_height: u64,
    ) -> (r: String)
        ensures
            r@ == envelope_text(
                "query"@,
                call_function_params(
                    pool_account_id@,
                    base64_of_text(account_args(account_id@)),
                    BlockRef::Height(block_height),
                    "get_account"@,
                ),
            ),
    {
        let args = account_args_base64(account_id);
        let params = call_function(
            pool_account_id,
            args.as_str(),
            BlockRef::Height(block_height),
            "get_account",
        );
        envelope("query", params.as_str())
    }

    /// The `view_account` request for an account, at a height.
    pub fn native_balance_request(&self, account_id: &str, block_height: u64) -> (r: String)
        ensures
            r@ == envelope_text(
                "query"@,
                view_account_params(account_id@, BlockRef::Height(block_height)),
            ),
    {
        let params = view_account(account_id, BlockRef::Height(block_height));
        envelope("query", params.as_str())
    }

    /// The request for the validators of the latest epoch.
    pub fn validators_request(&self) -> (r: String)
        ensures
            r@ == envelope_text("validators"@, "{\"latest\":null}"@),
    {
        envelope("validators", "{\"latest\":null}")
    }

    /// The request for the block at a height.
    pub fn block_request(&self, block_height: u64) -> (r: String)
        ensures
            r@ == envelope_text("block"@, block_params(BlockRef::Height(block_height))),
    {
        let params = block_request_params(BlockRef::Height(block_height));
        envelope("block", params.as_str())
    }

    /// The request for the latest final block.
    pub fn final_block_request(&self) -> (r: String)
        ensures
            r@ == envelope_text("block"@, block_params(BlockRef::Final)),
    {
        let params = block_request_params(BlockRef::Final);
        envelope("block", params.as_str())
    }

    /// The request for `get_staking_pool_account_id` of a lockup contract, on
    /// the final block, with the arguments `{}` in base64.
    pub fn staking_pool_account_id_request(&self, account_id: &str) -> (r: String)
        ensures
            r@ == envelope_text(
                "query"@,
                call_function_params(
                    account_id@,
                    "e30="@,
                    BlockRef::Final,
                    "get_staking_pool_account_id"@,
                ),
            ),
    {
        let params = call_function(
            account_id,
            "e30=",
            BlockRef::Final,
            "get_staking_pool_account_id",
        );
        envelope("query", params.as_str())
    }
}

pub open spec fn envelope_error() -> RpcError {
    RpcError::Decode(DecodeStage::Envelope)
}

pub open spec fn payload_error() -> RpcError {
    RpcError::Decode(DecodeStage::Payload)
}

/// A typed result seen through its view.
pub open spec fn result_view<T: View>(r: Result<T, RpcError>) -> Result<T::V, RpcError> {
    match r {
        Ok(x) => Ok(x@),
        Err(e) => Err(e),
    }
}

/// What a reply body holding a balance decodes to.
pub open spec fn amount_outcome(body: Seq<u8>) -> Result<u128, RpcError> {
    match parsed_json(body) {
        Some(v) => match amount_of(v) {
            Some(n) => Ok(n),
            None => Err(envelope_error()),
        },
        None => Err(envelope_error()),
    }
}

/// What a reply body holding a block decodes to.
pub open spec fn block_outcome(body: Seq<u8>) -> Result<BlockView, RpcError> {
    match parsed_json(body) {
        Some(v) => match block_of(v) {
            Some(b) => Ok(b),
            None => Err(envelope_error()),
        },
        None => Err(envelope_error()),
    }
}

/// What a reply body holding a validator set decodes to.
pub open spec fn validators_outcome(body: Seq<u8>) -> Result<ValidatorsView, RpcError> {
    match parsed_json(body) {
        Some(v) => match validators_of(v) {
            Some(x) => Ok(x),
            None => Err(envelope_error()),
        },
        None => Err(envelope_error()),
    }
}

/// The document that a contract call returned inside a reply body, or the
/// error of the stage that failed.
pub open spec fn payload_outcome(body: Seq<u8>) -> Result<JsonValue, RpcError> {
    match parsed_json(body) {
        Some(v) => match payload_of(v) {
            Some(p) => match parsed_json(p) {
                Some(inner) => Ok(inner),
                None => Err(payload_error()),
            },
            None => Err(envelope_error()),
        },
        None => Err(envelope_error()),
    }
}

/// What a reply body to `get_account` of a pool decodes to.
pub open spec fn account_in_pool_outcome(body: Seq<u8>) -> Result<AccountInPoolView, RpcError> {
    match payload_outcome(body) {
        Ok(inner) => match account_in_pool_of(inner) {
            Some(x) => Ok(x),
            None => Err(payload_error()),
        },
        Err(e) => Err(e),
    }
}

/// What a reply body to `get_staking_pool_account_id` decodes to.
pub open spec fn pool_account_id_outcome(body: Seq<u8>) -> Result<Seq<char>, RpcError> {
    match payload_outcome(body) {
        Ok(inner) => match pool_account_id_of(inner) {
            Some(s) => Ok(s),
            None => Err(payload_error()),
        },
        Err(e) => Err(e),
    }
}

/// Parses the document that a contract call returned inside a reply body.
fn payload(body: &[u8]) -> (r: Result<JsonValue, RpcError>)
    ensures
        r == payload_outcome(body@),
{
    let v = match parse_json(body) {
        Some(v) => v,
        None => return Err(RpcError::Decode(DecodeStage::Envelope)),
    };
    let bytes = match payload_from_json(&v) {
        Some(b) => b,
        None => return Err(RpcError::Decode(DecodeStage::Envelope)),
    };
    match parse_json(bytes.as_slice()) {
        Some(inner) => Ok(inner),
        None => Err(RpcError::Decode(DecodeStage::Payload)),
    }
}

/// Decodes the reply to a balance query (`get_locked_amount`,
/// `get_liquid_owners_balance`, `view_account`). `reply` is the body that the
/// endpoint sent, or the transport failure met on the way.
pub fn decode_amount(reply: Result<Vec<u8>, String>) -> (r: Result<u128, RpcError>)
    ensures
        match reply {
            Err(e) => r == Err::<u128, RpcError>(RpcError::Transport(e)),
            Ok(body) => r == amount_outcome(body@),
        },
{
    let body = match reply {
        Err(e) => return Err(RpcError::Transport(e)),
        Ok(body) => body,
    };
    match parse_json(body.as_slice()) {
        Some(v) => match amount_from_json(&v) {
            Some(n) => Ok(n),
            None => Err(RpcError::Decode(DecodeStage::Envelope)),
        },
        None => Err(RpcError::Decode(DecodeStage::Envelope)),
    }
}

/// Decodes the reply to a `block` request.
pub fn decode_block(reply: Result<Vec<u8>, String>) -> (r: Result<Block, RpcError>)
    ensures
        match reply {
            Err(e) => r == Err::<Block, RpcError>(RpcError::Transport(e)),
            Ok(body) => result_view(r) == block_outcome(body@),
        },
{
    let body = match reply {
        Err(e) => return Err(RpcError::Transport(e)),
        Ok(body) => body,
    };
    match parse_json(body.as_slice()) {
        Some(v) => match block_from_json(&v) {
            Some(b) => Ok(b),
            None => Err(RpcError::Decode(DecodeStage::Envelope)),
        },
        None => Err(RpcError::Decode(DecodeStage::Envelope)),
    }
}

/// Decodes the reply to a `validators` request.
pub fn decode_validators(reply: Result<Vec<u8>, String>) -> (r: Result<Validators, RpcError>)
    ensures
        match reply {
            Err(e) => r == Err::<Validators, RpcError>(RpcError::Transport(e)),
            Ok(body) => result_view(r) == validators_outcome(body@),
        },
{
    let body = match reply {
        Err(e) => return Err(RpcError::Transport(e)),
        Ok(body) => body,
    };
    match parse_json(body.as_slice()) {
        Some(v) => match validators_from_json(&v) {
            Some(x) => Ok(x),
            None => Err(RpcError::Decode(DecodeStage::Envelope)),
        },
        None => Err(RpcError::Decode(DecodeStage::Envelope)),
    }
}

/// Decodes the reply to `get_account` of a pool: the envelope, then the JSON
/// that the contract returned as bytes.
pub fn decode_account_in_pool(reply: Result<Vec<u8>, String>) -> (r: Result<
    AccountInPoolResult,
    RpcError,
>)
    ensures
        match reply {
            Err(e) => r == Err::<AccountInPoolResult, RpcError>(RpcError::Transport(e)),
            Ok(body) => result_view(r) == account_in_pool_outcome(body@),
        },
{
    let body = match reply {
        Err(e) => return Err(RpcError::Transport(e)),
        Ok(body) => body,
    };
    match payload(body.as_slice()) {
        Ok(inner) => match account_in_pool_from_json(&inner) {
            Some(x) => Ok(x),
            None => Err(RpcError::Decode(DecodeStage::Payload)),
        },
        Err(e) => Err(e),
    }
}

/// Decodes the reply to `get_staking_pool_account_id`: the envelope, then
/// the JSON string that the contract returned as bytes.
pub fn decode_staking_pool_account_id(reply: Result<Vec<u8>, String>) -> (r: Result<
    String,
    RpcError,
>)
    ensures
        match reply {
            Err(e) => r == Err::<String, RpcError>(RpcError::Transport(e)),
            Ok(body) => result_view(r) == pool_account_id_outcome(body@),
        },
{
    let body = match reply {
        Err(e) => return Err(RpcError::Transport(e)),
        Ok(body) => body,
    };
    match payload(body.as_slice()) {
        Ok(inner) => match pool_account_id_from_json(&inner) {
            Some(s) => Ok(s),
            None => Err(RpcError::Decode(DecodeStage::Payload)),
        },
        Err(e) => Err(e),
    }
}

/// A reply whose `result.amount` is the decimal text of `n` decodes to
/// exactly `n`.
pub proof fn lemma_amount_reply(body: Seq<u8>, n: u128)
    requires
        match parsed_json(body) {
            Some(v) => match field_of(v, "result"@) {
                Some(res) => str_at(res, "amount"@) == Some(decimal_text(n as nat)),
                None => false,
            },
            None => false,
        },
    ensures
        amount_outcome(body) == Ok::<u128, RpcError>(n),
{
    lemma_u128_text(n);
}

/// A body that is not JSON decodes to an envelope error for every call, and
/// a body of any other wrong shape to a decode error: never to a value, and
/// never to a transport error.
pub proof fn lemma_malformed_reply(body: Seq<u8>)
    ensures
        parsed_json(body) is None ==> {
            &&& amount_outcome(body) == Err::<u128, RpcError>(envelope_error())
            &&& block_outcome(body) == Err::<BlockView, RpcError>(envelope_error())
            &&& validators_outcome(body) == Err::<ValidatorsView, RpcError>(envelope_error())
            &&& account_in_pool_outcome(body) == Err::<AccountInPoolView, RpcError>(
                envelope_error(),
            )
            &&& pool_account_id_outcome(body) == Err::<Seq<char>, RpcError>(envelope_error())
        },
        amount_outcome(body) is Err ==> amount_outcome(body)->Err_0 is Decode,
        block_outcome(body) is Err ==> block_outcome(body)->Err_0 is Decode,
        validators_outcome(body) is Err ==> validators_outcome(body)->Err_0 is Decode,
        account_in_pool_outcome(body) is Err ==> account_in_pool_outcome(body)->Err_0 is Decode,
        pool_account_id_outcome(body) is Err ==> pool_account_id_outcome(body)->Err_0 is Decode,
{
}

/// Where `result.result` of a reply holds the bytes of a JSON string, the
/// reply to `get_staking_pool_account_id` decodes to that string.
pub proof fn lemma_pool_account_id_payload(body: Seq<u8>, bytes: Seq<u8>, id: Seq<char>)
    requires
        match parsed_json(body) {
            Some(v) => payload_of(v) == Some(bytes),
            None => false,
        },
        match parsed_json(bytes) {
            Some(JsonValue::Str(s)) => s@ == id,
            _ => false,
        },
    ensures
        pool_account_id_outcome(body) == Ok::<Seq<char>, RpcError>(id),
{
}

/// Where `result.result` of a reply holds the bytes of a JSON object that
/// writes a delegator's account (balances as decimal strings), the reply to
/// `get_account` decodes to that account.
pub proof fn lemma_account_in_pool_payload(
    body: Seq<u8>,
    bytes: Seq<u8>,
    inner: JsonValue,
    account: AccountInPoolView,
)
    requires
        match parsed_json(body) {
            Some(v) => payload_of(v) == Some(bytes),
            None => false,
        },
        parsed_json(bytes) == Some(inner),
        str_at(inner, "account_id"@) == Some(account.account_id),
        str_at(inner, "unstaked_balance"@) == Some(decimal_text(account.unstaked_balance as nat)),
        str_at(inner, "staked_balance"@) == Some(decimal_text(account.staked_balance as nat)),
        bool_at(inner, "can_withdraw"@) == Some(account.can_withdraw),
    ensures
        account_in_pool_outcome(body) == Ok::<AccountInPoolView, RpcError>(account),
{
    lemma_u128_text(account.unstaked_balance);
    lemma_u128_text(account.staked_balance);
}

/// `word` stands somewhere in `text`.
pub open spec fn occurs_in(word: Seq<char>, text: Seq<char>) -> bool {
    exists|i: int|
        0 <= i && i + word.len() <= text.len() && #[trigger] text.subrange(i, i + word.len())
            == word
}

/// A word that starts with a character that `text` lacks does not stand in it.
proof fn lemma_absent_start(word: Seq<char>, text: Seq<char>)
    requires
        word.len() > 0,
        forall|j: int| 0 <= j < text.len() ==> text[j] != word[0],
    ensures
        !occurs_in(word, text),
{
    if occurs_in(word, text) {
        let i = choose|i: int|
            0 <= i && i + word.len() <= text.len() && #[trigger] text.subrange(
                i,
                i + word.len(),
            ) == word;
        assert(text.subrange(i, i + word.len())[0] == text[i]);
    }
}

/// A block request by height names the height as `block_id` and no
/// finality; a request for the final block names the finality and no
/// `block_id`.
pub proof fn lemma_block_selectors(block_height: u64)
    ensures
        block_params(BlockRef::Height(block_height)) == "{\"block_id\":"@ + decimal_text(
            block_height as nat,
        ) + "}"@,
        block_params(BlockRef::Final) == "{\"finality\":\"final\"}"@,
        !occurs_in("finality"@, block_params(BlockRef::Height(block_height))),
        !occurs_in("block_id"@, block_params(BlockRef::Final)),
{
    reveal_strlit("{");
    reveal_strlit("}");
    reveal_strlit("\"block_id\":");
    reveal_strlit("\"finality\":\"final\"");
    reveal_strlit("{\"block_id\":");
    reveal_strlit("{\"finality\":\"final\"}");
    reveal_strlit("finality");
    reveal_strlit("block_id");
    let digits = decimal_text(block_height as nat);
    lemma_decimal_round_trip(block_height as nat);
    let by_height = block_params(BlockRef::Height(block_height));
    assert(by_height =~= "{\"block_id\":"@ + digits + "}"@);
    assert(block_params(BlockRef::Final) =~= "{\"finality\":\"final\"}"@);
    assert forall|j: int| 0 <= j < by_height.len() implies by_height[j] != 'f' by {
        if 12 <= j < 12 + digits.len() {
            assert(by_height[j] == digits[j - 12]);
            assert(is_digit(digits[j - 12]));
        }
    }
    lemma_absent_start("finality"@, by_height);
    lemma_absent_start("block_id"@, block_params(BlockRef::Final));
}

} // verus!
