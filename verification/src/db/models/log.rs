//! The event-log record.

use crate::utils::format::text_of;
use vstd::prelude::*;

verus! {

/// One event log of a receipt. Keyed by `(chain, transaction_hash,
/// log_index)`.
#[derive(Clone, Debug)]
pub struct DatabaseLog {
    pub chain: u32,
    pub transaction_hash: String,
    pub log_index: u32,
    pub address: String,
    pub topic0: Option<String>,
    pub topic1: Option<String>,
    pub topic2: Option<String>,
    pub topic3: Option<String>,
    pub data: String,
    pub block_number: u32,
    /// The timestamp of the block that holds the log.
    pub timestamp: u32,
}

impl DatabaseLog {
    /// The two records hold the same values, column by column.
    pub open spec fn same(&self, other: &DatabaseLog) -> bool {
        &&& self.chain == other.chain
        &&& self.transaction_hash@ == other.transaction_hash@
        &&& self.log_index == other.log_index
        &&& self.address@ == other.address@
        &&& text_of(self.topic0) == text_of(other.topic0)
        &&& text_of(self.topic1) == text_of(other.topic1)
        &&& text_of(self.topic2) == text_of(other.topic2)
        &&& text_of(self.topic3) == text_of(other.topic3)
        &&& self.data@ == other.data@
        &&& self.block_number == other.block_number
        &&& self.timestamp == other.timestamp
    }
}

} // verus!
