//! The contract-creation record.

use vstd::prelude::*;

verus! {

/// A contract and the transaction that created it. Keyed by `(chain,
/// address)`.
#[derive(Clone, Debug)]
pub struct DatabaseContract {
    pub chain: u32,
    pub address: String,
    pub creator_transaction_hash: String,
    pub bytecode: String,
}

impl DatabaseContract {
    /// The two records hold the same values, column by column.
    pub open spec fn same(&self, other: &DatabaseContract) -> bool {
        &&& self.chain == other.chain
        &&& self.address@ == other.address@
        &&& self.creator_transaction_hash@ == other.creator_transaction_hash@
        &&& self.bytecode@ == other.bytecode@
    }
}

} // verus!
