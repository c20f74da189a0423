//! Requests: the unit of work that one chunk addresses.

use crate::bytes::{H160, H256};
use vstd::prelude::*;

verus! {

/// A dimension along which a range of work is cut into chunks.
#[derive(Clone, Copy, Debug, PartialEq, Eq, Structural)]
pub enum ChunkDim {
    BlockNumber,
    TransactionHash,
    Address,
}

/// A filter for the logs of a range of blocks.
#[derive(Clone, Copy, Debug, PartialEq, Eq)]
pub struct LogFilter {
    pub from_block: u64,
    pub to_block: u64,
    /// Only logs of this contract, if set.
    pub address: Option<H160>,
    /// Only logs with these topics at these places, where set.
    pub topics: [Option<H256>; 4],
}

/// What one chunk addresses: a block, a transaction, a contract, or several
/// of them. A request does not change once it is made.
#[derive(Clone, Copy, Debug, PartialEq, Eq)]
pub struct Params {
    block_number: Option<u64>,
    transaction_hash: Option<H256>,
    address: Option<H160>,
}

impl Params {
    /// A request for one block.
    pub fn for_block(block_number: u64) -> (r: Params)
        ensures
            r.block_number() == Some(block_number),
            r.transaction_hash() is None,
            r.address() is None,
    {
        Params { block_number: Some(block_number), transaction_hash: None, address: None }
    }

    /// A request for one transaction.
    pub fn for_transaction(transaction_hash: H256) -> (r: Params)
        ensures
            r.block_number() is None,
            r.transaction_hash() == Some(transaction_hash),
            r.address() is None,
    {
        Params { block_number: None, transaction_hash: Some(transaction_hash), address: None }
    }

    /// The same request, for one contract.
    pub fn with_address(self, address: H160) -> (r: Params)
        ensures
            r.block_number() == self.block_number(),
            r.transaction_hash() == self.transaction_hash(),
            r.address() == Some(address),
    {
        Params {
            block_number: self.block_number,
            transaction_hash: self.transaction_hash,
            address: Some(address),
        }
    }

    /// The block that the request addresses, if it addresses one.
    pub closed spec fn spec_block_number(&self) -> Option<u64> {
        self.block_number
    }

    /// The transaction that the request addresses, if it addresses one.
    pub closed spec fn spec_transaction_hash(&self) -> Option<H256> {
        self.transaction_hash
    }

    /// The contract that the request addresses, if it addresses one.
    pub closed spec fn spec_address(&self) -> Option<H160> {
        self.address
    }

    /// The block that the request addresses, if it addresses one.
    #[verifier::when_used_as_spec(spec_block_number)]
    pub fn block_number(&self) -> (r: Option<u64>)
        ensures
            r == self.spec_block_number(),
    {
        self.block_number
    }

    /// The transaction that the request addresses, if it addresses one.
    #[verifier::when_used_as_spec(spec_transaction_hash)]
    pub fn transaction_hash(&self) -> (r: Option<H256>)
        ensures
            r == self.spec_transaction_hash(),
    {
        self.transaction_hash
    }

    /// The contract that the request addresses, if it addresses one.
    #[verifier::when_used_as_spec(spec_address)]
    pub fn address(&self) -> (r: Option<H160>)
        ensures
            r == self.spec_address(),
    {
        self.address
    }

    /// Whether the request gives a value along a dimension.
    pub open spec fn spec_has(&self, dim: ChunkDim) -> bool {
        match dim {
            ChunkDim::BlockNumber => self.block_number() is Some,
            ChunkDim::TransactionHash => self.transaction_hash() is Some,
            ChunkDim::Address => self.address() is Some,
        }
    }

    /// Whether the request gives a value along a dimension.
    #[verifier::when_used_as_spec(spec_has)]
    pub fn has(&self, dim: ChunkDim) -> (r: bool)
        ensures
            r == self.spec_has(dim),
    {
        match dim {
            ChunkDim::BlockNumber => self.block_number.is_some(),
            ChunkDim::TransactionHash => self.transaction_hash.is_some(),
            ChunkDim::Address => self.address.is_some(),
        }
    }

    /// Whether the request gives a value along every dimension that a data
    /// kind asks for.
    pub fn covers(&self, dims: &Vec<ChunkDim>) -> (r: bool)
        ensures
            r == forall|i: int| 0 <= i < dims@.len() ==> self.has(#[trigger] dims@[i]),
    {
        let mut i: usize = 0;
        while i < dims.len()
            invariant
                i <= dims@.len(),
                forall|k: int| 0 <= k < i ==> self.has(#[trigger] dims@[k]),
            decreases dims@.len() - i,
        {
            if !self.has(dims[i]) {
                return false;
            }
            i = i + 1;
        }
        true
    }

    /// The filter for the logs of the block that the request addresses: every
    /// log of that block, or every log of the addressed contract in it.
    pub fn log_filter(&self) -> (r: Option<LogFilter>)
        ensures
            r is Some <==> self.block_number() is Some,
            r matches Some(filter) ==> {
                &&& filter.from_block == self.block_number().unwrap()
                &&& filter.to_block == self.block_number().unwrap()
                &&& filter.address == self.address()
                &&& forall|i: int| 0 <= i < 4 ==> filter.topics@[i] is None
            },
    {
        match self.block_number {
            Some(block_number) => Some(
                LogFilter {
                    from_block: block_number,
                    to_block: block_number,
                    address: self.address,
                    topics: [None, None, None, None],
                },
            ),
            None => None,
        }
    }
}

} // verus!
