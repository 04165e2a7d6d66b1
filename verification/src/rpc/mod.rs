//! What a node answers, as plain values, and the work that turns it into
//! records: the assembler, the decoder and the reconciliation plan.
//!
//! The client that talks to the node converts its answers into the types
//! of this module; a quantity that does not fit the width given here is a
//! decoding failure of the client.

pub mod assembler;
pub mod backfill;
pub mod batch;
pub mod decoder;
pub mod replay;
pub mod sync;
pub mod tip;

use crate::db::models::trace::TraceType;
use crate::utils::u256::U256;
use vstd::prelude::*;

verus! {

/// A transaction as a block carries it.
#[derive(Clone, Debug)]
pub struct RpcTransaction {
    pub hash: [u8; 32],
    pub transaction_index: u32,
    pub from: [u8; 20],
    /// Absent where the transaction creates a contract.
    pub to: Option<[u8; 20]>,
    pub value: U256,
    pub gas: u64,
    pub gas_price: Option<u128>,
    pub max_fee_per_gas: Option<u128>,
    pub max_priority_fee_per_gas: Option<u128>,
    pub input: Vec<u8>,
    pub nonce: u32,
    pub transaction_type: u8,
}

/// An event log as a receipt carries it.
#[derive(Clone, Debug)]
pub struct RpcLog {
    pub address: [u8; 20],
    pub topics: Vec<[u8; 32]>,
    pub data: Vec<u8>,
    pub log_index: u32,
}

/// The receipt of a transaction.
#[derive(Clone, Debug)]
pub struct RpcReceipt {
    pub transaction_hash: [u8; 32],
    /// 1 for success, 0 for failure; absent before the Byzantium fork.
    pub status: Option<u64>,
    pub gas_used: Option<u64>,
    pub cumulative_gas_used: u64,
    pub effective_gas_price: Option<u128>,
    pub contract_address: Option<[u8; 20]>,
    pub logs: Vec<RpcLog>,
}

/// What a creating trace left behind.
#[derive(Clone, Debug)]
pub struct RpcCreated {
    pub address: [u8; 20],
    pub code: Vec<u8>,
}

/// One entry of a block's internal traces.
#[derive(Clone, Debug)]
pub struct RpcTrace {
    /// Absent for entries that belong to no transaction, such as rewards.
    pub transaction_hash: Option<[u8; 32]>,
    pub trace_address: Vec<u32>,
    pub call_type: TraceType,
    pub from: [u8; 20],
    pub to: Option<[u8; 20]>,
    pub value: U256,
    pub gas: u64,
    pub gas_used: u64,
    pub input: Vec<u8>,
    pub output: Vec<u8>,
    pub error: Option<String>,
    /// The result of a creation, where the entry has one.
    pub created: Option<RpcCreated>,
}

/// A withdrawal as a block carries it.
#[derive(Clone, Copy, Debug)]
pub struct RpcWithdrawal {
    pub index: u64,
    pub validator_index: u64,
    pub address: [u8; 20],
    pub amount: u64,
}

/// A block with its transactions in full.
#[derive(Clone, Debug)]
pub struct RpcBlock {
    pub number: u32,
    pub hash: [u8; 32],
    pub parent_hash: [u8; 32],
    pub timestamp: u32,
    pub miner: [u8; 20],
    pub nonce: [u8; 8],
    pub gas_limit: u64,
    pub gas_used: u64,
    pub base_fee_per_gas: Option<u64>,
    pub difficulty: U256,
    pub total_difficulty: Option<U256>,
    pub size: u32,
    pub uncles: Vec<[u8; 32]>,
    pub transactions: Vec<RpcTransaction>,
    pub withdrawals: Vec<RpcWithdrawal>,
    pub is_uncle: bool,
}

/// An event log with the place where it was emitted. The decoder reads
/// logs in this form; the store keeps them as text.
#[derive(Clone, Debug)]
pub struct Log {
    pub chain: u32,
    pub block_number: u32,
    /// The timestamp of the block that holds the log.
    pub timestamp: u32,
    pub transaction_hash: [u8; 32],
    pub log_index: u32,
    pub address: [u8; 20],
    pub topics: Vec<[u8; 32]>,
    pub data: Vec<u8>,
}

impl Log {
    /// The two logs hold the same values.
    pub open spec fn same(&self, other: &Log) -> bool {
        &&& self.chain == other.chain
        &&& self.block_number == other.block_number
        &&& self.timestamp == other.timestamp
        &&& self.transaction_hash == other.transaction_hash
        &&& self.log_index == other.log_index
        &&& self.address == other.address
        &&& self.topics@ == other.topics@
        &&& self.data@ == other.data@
    }
}

} // verus!
