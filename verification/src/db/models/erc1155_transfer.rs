//! The ERC-1155 transfer record.

use crate::utils::u256::U256;
use vstd::prelude::*;

verus! {

/// A transfer of one token id of a multi-token contract. A batch event
/// gives one record per `(id, value)` pair; `batch_index` tells the
/// records of one log apart. Keyed by `(chain, transaction_hash,
/// log_index, batch_index)`.
#[derive(Clone, Debug)]
pub struct DatabaseERC1155Transfer {
    pub chain: u32,
    pub transaction_hash: String,
    pub log_index: u32,
    /// The place of the pair in its event; 0 for a single transfer.
    pub batch_index: u64,
    /// The contract that emitted the log.
    pub token_address: String,
    pub operator: String,
    pub from: String,
    pub to: String,
    pub id: U256,
    pub value: U256,
    pub block_number: u32,
    pub timestamp: u32,
}

impl DatabaseERC1155Transfer {
    /// The two records hold the same values, column by column.
    pub open spec fn same(&self, other: &DatabaseERC1155Transfer) -> bool {
        &&& self.chain == other.chain
        &&& self.transaction_hash@ == other.transaction_hash@
        &&& self.log_index == other.log_index
        &&& self.batch_index == other.batch_index
        &&& self.token_address@ == other.token_address@
        &&& self.operator@ == other.operator@
        &&& self.from@ == other.from@
        &&& self.to@ == other.to@
        &&& self.id == other.id
        &&& self.value == other.value
        &&& self.block_number == other.block_number
        &&& self.timestamp == other.timestamp
    }
}

} // verus!
