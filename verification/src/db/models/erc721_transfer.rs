//! The ERC-721 transfer record.

use crate::utils::u256::U256;
use vstd::prelude::*;

verus! {

/// A transfer of one non-fungible token, derived from one log. Keyed by
/// `(chain, transaction_hash, log_index)`.
#[derive(Clone, Debug)]
pub struct DatabaseERC721Transfer {
    pub chain: u32,
    pub transaction_hash: String,
    pub log_index: u32,
    /// The contract that emitted the log.
    pub token_address: String,
    pub from: String,
    pub to: String,
    pub id: U256,
    pub block_number: u32,
    pub timestamp: u32,
}

impl DatabaseERC721Transfer {
    /// The two records hold the same values, column by column.
    pub open spec fn same(&self, other: &DatabaseERC721Transfer) -> bool {
        &&& self.chain == other.chain
        &&& self.transaction_hash@ == other.transaction_hash@
        &&& self.log_index == other.log_index
        &&& self.token_address@ == other.token_address@
        &&& self.from@ == other.from@
        &&& self.to@ == other.to@
        &&& self.id == other.id
        &&& self.block_number == other.block_number
        &&& self.timestamp == other.timestamp
    }
}

} // verus!
