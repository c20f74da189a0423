//! One decoder for each data kind.

pub mod native_transfers;
pub mod logs;
pub mod contracts;
pub mod traces;
pub mod blocks;
pub mod erc721_transfers;
pub mod code_diffs;
pub mod erc20_metadata;
