//! Schema-driven decoding of chain data into columnar accumulators.
//!
//! A request is answered by a node with raw chain objects (blocks, logs,
//! traces, state diffs). Each data kind turns such a response into rows and
//! appends them to its column accumulator, writing a value only into the
//! columns that the schema of that data kind activates.

pub mod bytes;
pub mod chain;
pub mod collect;
pub mod collectors;
pub mod decoder;
pub mod encoding;
pub mod errors;
pub mod extract;
pub mod hashing;
pub mod hex;
pub mod request;
pub mod schema;
pub mod store;
pub mod text;
pub mod u256;

pub use collect::{CollectByBlock, CollectByTransaction};
pub use collectors::blocks::{process_block, BlockColumns, Blocks};
pub use collectors::code_diffs::{process_code_diff, process_code_diffs, CodeDiffColumns, CodeDiffs};
pub use collectors::contracts::{process_contracts, Contracts, TraceColumns};
pub use collectors::erc20_metadata::{
    process_erc20_metadata, Erc20Metadata, Erc20MetadataColumns, Erc20MetadataQuery,
};
pub use collectors::erc721_transfers::{
    is_erc721_transfer, process_erc721_transfers, Erc721TransferColumns, Erc721Transfers,
};
pub use collectors::logs::{process_logs, LogColumns, Logs};
pub use collectors::native_transfers::{
    process_native_transfers, NativeTransferColumns, NativeTransfers,
};
pub use collectors::traces::filter_failed_traces;
pub use decoder::LogDecoder;
pub use errors::{CollectError, Datatype};
pub use request::{ChunkDim, LogFilter, Params};
pub use schema::{Column, ColumnEncoding, Schemas, Table, U256Type};
pub use u256::U256;
