//! The decisions of an extraction: what the answers of a node mean.
//!
//! The calls to the node are made by the caller. What comes back is handed
//! to these functions, which say whether the extraction goes on and with
//! what. An object that the node does not have is a failure of its own kind,
//! never an empty answer.

use crate::bytes::H256;
use crate::chain::{Block, Log};
use crate::collectors::erc721_transfers::{erc721_transfer_topic, event_erc721_transfer};
use crate::errors::CollectError;
use crate::request::{LogFilter, Params};
use vstd::prelude::*;

verus! {

/// The block that a node returned, or the failure to find it.
pub fn found_block<TX>(block: Option<Block<TX>>) -> (r: Result<Block<TX>, CollectError>)
    ensures
        r == (match block {
            Some(block) => Ok::<Block<TX>, CollectError>(block),
            None => Err(CollectError::BlockNotFound),
        }),
{
    match block {
        Some(block) => Ok(block),
        None => Err(CollectError::BlockNotFound),
    }
}

/// The hash of the block that holds a transaction, given what the node
/// returned for the transaction: nothing, or the transaction with the hash
/// of its block, which a pending transaction lacks.
pub fn transaction_block_hash(transaction: Option<Option<H256>>) -> (r: Result<H256, CollectError>)
    ensures
        r == (match transaction {
            Some(Some(block_hash)) => Ok::<H256, CollectError>(block_hash),
            Some(None) => Err(CollectError::MissingBlockHash),
            None => Err(CollectError::TransactionNotFound),
        }),
{
    match transaction {
        Some(Some(block_hash)) => Ok(block_hash),
        Some(None) => Err(CollectError::MissingBlockHash),
        None => Err(CollectError::TransactionNotFound),
    }
}

/// The logs of a transaction, given the logs of the receipt that the node
/// returned for it, if it returned one.
pub fn receipt_logs(receipt: Option<Vec<Log>>) -> (r: Result<Vec<Log>, CollectError>)
    ensures
        r == (match receipt {
            Some(logs) => Ok::<Vec<Log>, CollectError>(logs),
            None => Err(CollectError::ReceiptNotFound),
        }),
{
    match receipt {
        Some(logs) => Ok(logs),
        None => Err(CollectError::ReceiptNotFound),
    }
}

/// The filter for the transfer logs of the block that a request addresses:
/// the filter of the request, narrowed to the topic of the transfer event.
pub fn erc721_transfer_filter(request: &Params) -> (r: Option<LogFilter>)
    ensures
        r is Some <==> request.block_number() is Some,
        r matches Some(filter) ==> {
            &&& filter.from_block == request.block_number().unwrap()
            &&& filter.to_block == request.block_number().unwrap()
            &&& filter.address == request.address()
            &&& filter.topics@[0] matches Some(topic) && topic@ == erc721_transfer_topic()
            &&& forall|i: int| 1 <= i < 4 ==> filter.topics@[i] is None
        },
{
    match request.log_filter() {
        Some(filter) => Some(
            LogFilter {
                from_block: filter.from_block,
                to_block: filter.to_block,
                address: filter.address,
                topics: [Some(event_erc721_transfer()), None, None, None],
            },
        ),
        None => None,
    }
}

} // verus!
