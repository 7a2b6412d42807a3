//! What the node's replies decode to, with a mathematical view of each.
use vstd::prelude::*;

verus! {

/// Which of the two JSON documents of a reply could not be decoded: the
/// JSON-RPC envelope, or the value that a contract call returned inside it.
#[derive(Debug, Clone, Copy, PartialEq, Eq)]
pub enum DecodeStage {
    Envelope,
    Payload,
}

/// Why a call failed: the node could not be reached or answered with a
/// failure status, or its reply did not have the expected shape.
#[derive(Debug, Clone, PartialEq, Eq)]
pub enum RpcError {
    Transport(String),
    Decode(DecodeStage),
}

/// A delegator's balances in a staking pool.
#[derive(Debug, Clone, PartialEq, Eq)]
pub struct AccountInPoolResult {
    pub account_id: String,
    pub unstaked_balance: u128,
    pub staked_balance: u128,
    pub can_withdraw: bool,
}

pub struct AccountInPoolView {
    pub account_id: Seq<char>,
    pub unstaked_balance: u128,
    pub staked_balance: u128,
    pub can_withdraw: bool,
}

impl View for AccountInPoolResult {
    type V = AccountInPoolView;

    open spec fn view(&self) -> AccountInPoolView {
        AccountInPoolView {
            account_id: self.account_id@,
            unstaked_balance: self.unstaked_balance,
            staked_balance: self.staked_balance,
            can_withdraw: self.can_withdraw,
        }
    }
}

/// The metadata of one block.
#[derive(Debug, Clone, PartialEq, Eq)]
pub struct BlockHeader {
    pub height: u64,
    pub epoch_id: String,
    pub hash: String,
    pub prev_hash: String,
    pub timestamp: u64,
}

pub struct BlockHeaderView {
    pub height: u64,
    pub epoch_id: Seq<char>,
    pub hash: Seq<char>,
    pub prev_hash: Seq<char>,
    pub timestamp: u64,
}

impl View for BlockHeader {
    type V = BlockHeaderView;

    open spec fn view(&self) -> BlockHeaderView {
        BlockHeaderView {
            height: self.height,
            epoch_id: self.epoch_id@,
            hash: self.hash@,
            prev_hash: self.prev_hash@,
            timestamp: self.timestamp,
        }
    }
}

/// A block: the validator that produced it, and its header.
#[derive(Debug, Clone, PartialEq, Eq)]
pub struct Block {
    pub author: String,
    pub header: BlockHeader,
}

pub struct BlockView {
    pub author: Seq<char>,
    pub header: BlockHeaderView,
}

impl View for Block {
    type V = BlockView;

    open spec fn view(&self) -> BlockView {
        BlockView { author: self.author@, header: self.header@ }
    }
}

/// One validator of the current epoch and its stake.
#[derive(Debug, Clone, PartialEq, Eq)]
pub struct ValidatorStake {
    pub account_id: String,
    pub stake: u128,
}

pub struct ValidatorStakeView {
    pub account_id: Seq<char>,
    pub stake: u128,
}

impl View for ValidatorStake {
    type V = ValidatorStakeView;

    open spec fn view(&self) -> ValidatorStakeView {
        ValidatorStakeView { account_id: self.account_id@, stake: self.stake }
    }
}

/// The validator set of the latest epoch.
#[derive(Debug, Clone, PartialEq, Eq)]
pub struct Validators {
    pub current_validators: Vec<ValidatorStake>,
    pub epoch_start_height: u64,
}

pub struct ValidatorsView {
    pub current_validators: Seq<ValidatorStakeView>,
    pub epoch_start_height: u64,
}

impl View for Validators {
    type V = ValidatorsView;

    open spec fn view(&self) -> ValidatorsView {
        ValidatorsView {
            current_validators: self.current_validators@.map_values(|x: ValidatorStake| x@),
            epoch_start_height: self.epoch_start_height,
        }
    }
}

} // verus!
