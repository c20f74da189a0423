//! The chain objects that a node returns, reduced to what the decoders read.

use crate::bytes::{optional_slice_view, Bloom, H160, H256};
use crate::u256::U256;
use vstd::prelude::*;

verus! {

/// A block header with its list of transactions.
#[derive(Clone, Debug, PartialEq, Eq)]
pub struct Block<TX> {
    /// Absent while the block is pending.
    pub hash: Option<H256>,
    pub parent_hash: H256,
    /// Absent while the block is pending.
    pub author: Option<H160>,
    pub state_root: H256,
    pub transactions_root: H256,
    pub receipts_root: H256,
    pub number: Option<u64>,
    pub gas_used: U256,
    pub extra_data: Vec<u8>,
    pub logs_bloom: Option<Bloom>,
    pub timestamp: U256,
    pub total_difficulty: Option<U256>,
    pub size: Option<U256>,
    pub base_fee_per_gas: Option<U256>,
    pub transactions: Vec<TX>,
}

/// An event log emitted by a transaction.
#[derive(Clone, Debug, PartialEq, Eq)]
pub struct Log {
    pub address: H160,
    pub topics: Vec<H256>,
    pub data: Vec<u8>,
    pub block_number: Option<u64>,
    pub transaction_hash: Option<H256>,
    pub transaction_index: Option<u64>,
    pub log_index: Option<U256>,
}

/// A message call.
#[derive(Clone, Copy, Debug, PartialEq, Eq)]
pub struct Call {
    pub from: H160,
    pub to: H160,
    pub value: U256,
}

/// A contract creation.
#[derive(Clone, Debug, PartialEq, Eq)]
pub struct Create {
    pub from: H160,
    pub value: U256,
    pub init: Vec<u8>,
}

/// A self-destruct.
#[derive(Clone, Copy, Debug, PartialEq, Eq)]
pub struct Suicide {
    pub address: H160,
    pub refund_address: H160,
    pub balance: U256,
}

/// A block or uncle reward.
#[derive(Clone, Copy, Debug, PartialEq, Eq)]
pub struct Reward {
    pub author: H160,
    pub value: U256,
}

/// What a trace did.
#[derive(Clone, Debug, PartialEq, Eq)]
pub enum Action {
    Call(Call),
    Create(Create),
    Suicide(Suicide),
    Reward(Reward),
}

/// The outcome of a message call.
#[derive(Clone, Debug, PartialEq, Eq)]
pub struct CallResult {
    pub gas_used: U256,
    pub output: Vec<u8>,
}

/// The outcome of a contract creation.
#[derive(Clone, Debug, PartialEq, Eq)]
pub struct CreateResult {
    pub gas_used: U256,
    pub code: Vec<u8>,
    pub address: H160,
}

/// The outcome of a trace.
#[derive(Clone, Debug, PartialEq, Eq)]
pub enum Res {
    Call(CallResult),
    Create(CreateResult),
    /// The node reported no outcome.
    Empty,
}

/// One recorded action within the execution of a block or transaction.
#[derive(Clone, Debug, PartialEq, Eq)]
pub struct Trace {
    pub action: Action,
    pub result: Option<Res>,
    /// The path from the top-level call down to this one; empty for a
    /// top-level call.
    pub trace_address: Vec<usize>,
    pub transaction_position: Option<usize>,
    pub transaction_hash: Option<H256>,
    pub block_number: u64,
    /// Present when the action failed.
    pub error: Option<String>,
}

/// How a piece of account state changed.
#[derive(Clone, Debug, PartialEq, Eq)]
pub enum Diff {
    Same,
    Born(Vec<u8>),
    Died(Vec<u8>),
    Changed { from: Vec<u8>, to: Vec<u8> },
}

/// The change of one account's code.
#[derive(Clone, Debug, PartialEq, Eq)]
pub struct AccountDiff {
    pub address: H160,
    pub code: Diff,
}

/// The accounts that one execution touched, in ascending order of address.
#[derive(Clone, Debug, PartialEq, Eq)]
pub struct StateDiff {
    pub accounts: Vec<AccountDiff>,
}

/// The state-diff trace of one transaction.
#[derive(Clone, Debug, PartialEq, Eq)]
pub struct BlockTrace {
    pub state_diff: Option<StateDiff>,
}

impl Log {
    /// Whether the log says where it sits in the chain: its block, its
    /// transaction and its place in both. A log of a pending block does not.
    pub open spec fn spec_is_positioned(&self) -> bool {
        self.block_number is Some && self.transaction_hash is Some
            && self.transaction_index is Some && self.log_index is Some
    }

    /// Whether the log says where it sits in the chain.
    #[verifier::when_used_as_spec(spec_is_positioned)]
    pub fn is_positioned(&self) -> (r: bool)
        ensures
            r == self.spec_is_positioned(),
    {
        self.block_number.is_some() && self.transaction_hash.is_some()
            && self.transaction_index.is_some() && self.log_index.is_some()
    }

    /// The topic at a position, if the log has that many topics.
    pub open spec fn spec_topic(&self, position: int) -> Option<Seq<u8>> {
        if 0 <= position < self.topics@.len() {
            Some(self.topics@[position]@)
        } else {
            None
        }
    }

    /// The topic at a position, if the log has that many topics.
    pub fn topic(&self, position: usize) -> (r: Option<&[u8]>)
        ensures
            optional_slice_view(r) == self.spec_topic(position as int),
    {
        if position < self.topics.len() {
            Some(self.topics[position].as_slice())
        } else {
            None
        }
    }
}

impl Trace {
    /// Whether this is a top-level trace.
    pub open spec fn spec_is_root(&self) -> bool {
        self.trace_address@.len() == 0
    }

    /// Whether this is a top-level trace.
    #[verifier::when_used_as_spec(spec_is_root)]
    pub fn is_root(&self) -> (r: bool)
        ensures
            r == self.spec_is_root(),
    {
        self.trace_address.len() == 0
    }
}

impl Action {
    /// The account on whose behalf a top-level action runs.
    pub open spec fn spec_origin(&self) -> H160 {
        match self {
            Action::Call(call) => call.from,
            Action::Create(create) => create.from,
            Action::Suicide(suicide) => suicide.refund_address,
            Action::Reward(reward) => reward.author,
        }
    }

    /// The account on whose behalf a top-level action runs.
    #[verifier::when_used_as_spec(spec_origin)]
    pub fn origin(&self) -> (r: H160)
        ensures
            r == self.spec_origin(),
    {
        match self {
            Action::Call(call) => call.from,
            Action::Create(create) => create.from,
            Action::Suicide(suicide) => suicide.refund_address,
            Action::Reward(reward) => reward.author,
        }
    }
}

} // verus!
