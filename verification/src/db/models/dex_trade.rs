//! The DEX trade record.

use crate::utils::u256::{I256, U256};
use vstd::prelude::*;

verus! {

/// The amounts of a swap, as the pool's event states them.
#[derive(Clone, Copy, Debug, PartialEq, Eq, Structural)]
pub enum DexTradeAmounts {
    /// A constant-product pool: what came in and what went out, per token.
    V2 { amount0_in: U256, amount1_in: U256, amount0_out: U256, amount1_out: U256 },
    /// A concentrated-liquidity pool: the signed change of the pool's
    /// balance per token, and the pool's state after the swap.
    V3 { amount0: I256, amount1: I256, sqrt_price_x96: U256, liquidity: U256, tick: I256 },
}

/// A swap on a pool, derived from one log. Keyed by `(chain,
/// transaction_hash, log_index)`.
#[derive(Clone, Debug)]
pub struct DatabaseDexTrade {
    pub chain: u32,
    pub transaction_hash: String,
    pub log_index: u32,
    /// The pool that emitted the log.
    pub pair_address: String,
    pub sender: String,
    pub recipient: String,
    pub amounts: DexTradeAmounts,
    pub block_number: u32,
    pub timestamp: u32,
}

impl DatabaseDexTrade {
    /// The two records hold the same values, column by column.
    pub open spec fn same(&self, other: &DatabaseDexTrade) -> bool {
        &&& self.chain == other.chain
        &&& self.transaction_hash@ == other.transaction_hash@
        &&& self.log_index == other.log_index
        &&& self.pair_address@ == other.pair_address@
        &&& self.sender@ == other.sender@
        &&& self.recipient@ == other.recipient@
        &&& self.amounts == other.amounts
        &&& self.block_number == other.block_number
        &&& self.timestamp == other.timestamp
    }
}

} // verus!
