//! One typed record per table. Hashes, addresses and byte strings are
//! lowercase hex without a prefix; every record carries its chain.

pub mod block;
pub mod contract;
pub mod dex_trade;
pub mod erc1155_transfer;
pub mod erc20_transfer;
pub mod erc721_transfer;
pub mod infoforsync;
pub mod log;
pub mod trace;
pub mod transaction;
pub mod withdrawal;
