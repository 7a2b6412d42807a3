//! A client for a blockchain node's JSON-RPC endpoint: it writes the request
//! envelopes and turns the node's replies into typed results.
pub mod client;
pub mod decimal;
pub mod json;
pub mod request;
pub mod response;
pub mod types;

pub use client::{
    decode_account_in_pool, decode_amount, decode_block, decode_staking_pool_account_id,
    decode_validators, NearJsonRpcClient,
};
pub use json::{JsonMember, JsonValue};
pub use request::BlockRef;
pub use types::{
    AccountInPoolResult, Block, BlockHeader, DecodeStage, RpcError, ValidatorStake, Validators,
};
