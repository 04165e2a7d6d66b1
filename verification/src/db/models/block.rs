//! The block record.

use crate::utils::u256::U256;
use vstd::prelude::*;

verus! {

/// A block header with the totals of its transactions. Keyed by
/// `(chain, number)`.
#[derive(Clone, Debug)]
pub struct DatabaseBlock {
    pub chain: u32,
    pub number: u32,
    pub hash: String,
    pub parent_hash: String,
    /// Unix seconds.
    pub timestamp: u32,
    pub miner: String,
    pub nonce: String,
    pub gas_limit: u64,
    pub gas_used: u64,
    pub base_fee_per_gas: Option<u64>,
    pub difficulty: U256,
    pub total_difficulty: Option<U256>,
    pub size: u32,
    pub uncles: Vec<String>,
    /// How many transactions the block holds.
    pub transactions: u32,
    pub total_fee_reward: U256,
    pub burned: U256,
    /// A mined block that is not part of the canonical chain.
    pub is_uncle: bool,
}

impl DatabaseBlock {
    /// The record that stands in when the store has no such block.
    pub fn new() -> (block: Self)
        ensures
            block.chain == 0,
            block.number == 0,
            block.hash@.len() == 0,
            block.parent_hash@.len() == 0,
            block.timestamp == 0,
            block.miner@.len() == 0,
            block.nonce@.len() == 0,
            block.gas_limit == 0,
            block.gas_used == 0,
            block.base_fee_per_gas is None,
            block.difficulty@ == 0,
            block.total_difficulty is None,
            block.size == 0,
            block.uncles@.len() == 0,
            block.transactions == 0,
            block.total_fee_reward@ == 0,
            block.burned@ == 0,
            !block.is_uncle,
    {
        DatabaseBlock {
            chain: 0,
            number: 0,
            hash: String::new(),
            parent_hash: String::new(),
            timestamp: 0,
            miner: String::new(),
            nonce: String::new(),
            gas_limit: 0,
            gas_used: 0,
            base_fee_per_gas: None,
            difficulty: U256::zero(),
            total_difficulty: None,
            size: 0,
            uncles: Vec::new(),
            transactions: 0,
            total_fee_reward: U256::zero(),
            burned: U256::zero(),
            is_uncle: false,
        }
    }
}

impl DatabaseBlock {
    /// The two records hold the same values, column by column.
    pub open spec fn same(&self, other: &DatabaseBlock) -> bool {
        &&& self.chain == other.chain
        &&& self.number == other.number
        &&& self.hash@ == other.hash@
        &&& self.parent_hash@ == other.parent_hash@
        &&& self.timestamp == other.timestamp
        &&& self.miner@ == other.miner@
        &&& self.nonce@ == other.nonce@
        &&& self.gas_limit == other.gas_limit
        &&& self.gas_used == other.gas_used
        &&& self.base_fee_per_gas == other.base_fee_per_gas
        &&& self.difficulty == other.difficulty
        &&& self.total_difficulty == other.total_difficulty
        &&& self.size == other.size
        &&& self.uncles@.len() == other.uncles@.len()
        &&& forall|i: int|
            0 <= i < self.uncles@.len() ==> (#[trigger] self.uncles@[i])@ == other.uncles@[i]@
        &&& self.transactions == other.transactions
        &&& self.total_fee_reward == other.total_fee_reward
        &&& self.burned == other.burned
        &&& self.is_uncle == other.is_uncle
    }
}

} // verus!
