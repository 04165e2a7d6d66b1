//! The validator-withdrawal record.

use vstd::prelude::*;

verus! {

/// A withdrawal of validator stake. Keyed by `(chain, block_number,
/// index)`.
#[derive(Clone, Debug)]
pub struct DatabaseWithdrawal {
    pub chain: u32,
    pub block_number: u32,
    pub index: u64,
    pub validator_index: u64,
    pub address: String,
    /// In gwei.
    pub amount: u64,
    /// The timestamp of the block that holds the withdrawal.
    pub timestamp: u32,
}

impl DatabaseWithdrawal {
    /// The two records hold the same values, column by column.
    pub open spec fn same(&self, other: &DatabaseWithdrawal) -> bool {
        &&& self.chain == other.chain
        &&& self.block_number == other.block_number
        &&& self.index == other.index
        &&& self.validator_index == other.validator_index
        &&& self.address@ == other.address@
        &&& self.amount == other.amount
        &&& self.timestamp == other.timestamp
    }
}

} // verus!
