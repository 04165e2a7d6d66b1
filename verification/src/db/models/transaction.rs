//! The transaction record.

use crate::utils::u256::U256;
use crate::utils::format::text_of;
use vstd::prelude::*;

verus! {

/// How the execution of a transaction ended. Receipts from before the
/// Byzantium fork carry no status, which leaves it unknown.
#[derive(Clone, Copy, Debug, PartialEq, Eq, Structural)]
pub enum TransactionStatus {
    Success,
    Failure,
    Unknown,
}

impl TransactionStatus {
    /// The status as a receipt states it: 1 for success, 0 for failure,
    /// nothing where it is unknown.
    pub open spec fn code_of(self) -> Option<u8> {
        match self {
            TransactionStatus::Success => Some(1u8),
            TransactionStatus::Failure => Some(0u8),
            TransactionStatus::Unknown => None,
        }
    }

    /// The status that a code stands for: success for 1, failure for any
    /// other code, unknown for none.
    pub open spec fn of_code(code: Option<u8>) -> TransactionStatus {
        match code {
            Some(c) => if c == 1 {
                TransactionStatus::Success
            } else {
                TransactionStatus::Failure
            },
            None => TransactionStatus::Unknown,
        }
    }

    /// The status as the store keeps it.
    pub fn code(&self) -> (code: Option<u8>)
        ensures
            code == self.code_of(),
    {
        match self {
            TransactionStatus::Success => Some(1),
            TransactionStatus::Failure => Some(0),
            TransactionStatus::Unknown => None,
        }
    }

    /// The status that the store kept under a code.
    pub fn from_code(code: Option<u8>) -> (status: TransactionStatus)
        ensures
            status == TransactionStatus::of_code(code),
    {
        match code {
            Some(c) => if c == 1 {
                TransactionStatus::Success
            } else {
                TransactionStatus::Failure
            },
            None => TransactionStatus::Unknown,
        }
    }

    /// A status that is stored and read again is the status that it was.
    pub proof fn lemma_code_round_trip(self)
        ensures
            TransactionStatus::of_code(self.code_of()) == self,
    {
    }
}

/// A transaction joined with its receipt. Keyed by `(chain, hash)`.
#[derive(Clone, Debug)]
pub struct DatabaseTransaction {
    pub chain: u32,
    pub hash: String,
    pub block_number: u32,
    pub transaction_index: u32,
    pub from: String,
    /// Absent where the transaction creates a contract.
    pub to: Option<String>,
    pub value: U256,
    pub gas: u64,
    pub gas_price: Option<u128>,
    pub max_fee_per_gas: Option<u128>,
    pub max_priority_fee_per_gas: Option<u128>,
    pub base_fee_per_gas: Option<u64>,
    pub input: String,
    pub nonce: u32,
    pub transaction_type: u8,
    pub status: TransactionStatus,
    pub gas_used: Option<u64>,
    pub cumulative_gas_used: u64,
    pub effective_transaction_fee: Option<U256>,
    pub contract_created: Option<String>,
    /// The first four bytes of the input; empty where the input is shorter.
    pub method: String,
    pub burned: Option<U256>,
    /// The timestamp of the block that holds the transaction.
    pub timestamp: u32,
}

impl DatabaseTransaction {
    /// The record that stands in when the store has no such transaction.
    pub fn new() -> (tx: Self)
        ensures
            tx.chain == 0,
            tx.hash@.len() == 0,
            tx.block_number == 0,
            tx.transaction_index == 0,
            tx.from@.len() == 0,
            tx.to is None,
            tx.value@ == 0,
            tx.gas == 0,
            tx.gas_price is None,
            tx.max_fee_per_gas is None,
            tx.max_priority_fee_per_gas is None,
            tx.base_fee_per_gas is None,
            tx.input@.len() == 0,
            tx.nonce == 0,
            tx.transaction_type == 0,
            tx.status == TransactionStatus::Unknown,
            tx.gas_used is None,
            tx.cumulative_gas_used == 0,
            tx.effective_transaction_fee is None,
            tx.contract_created is None,
            tx.method@.len() == 0,
            tx.burned is None,
            tx.timestamp == 0,
    {
        DatabaseTransaction {
            chain: 0,
            hash: String::new(),
            block_number: 0,
            transaction_index: 0,
            from: String::new(),
            to: None,
            value: U256::zero(),
            gas: 0,
            gas_price: None,
            max_fee_per_gas: None,
            max_priority_fee_per_gas: None,
            base_fee_per_gas: None,
            input: String::new(),
            nonce: 0,
            transaction_type: 0,
            status: TransactionStatus::Unknown,
            gas_used: None,
            cumulative_gas_used: 0,
            effective_transaction_fee: None,
            contract_created: None,
            method: String::new(),
            burned: None,
            timestamp: 0,
        }
    }
}

impl DatabaseTransaction {
    /// The two records hold the same values, column by column.
    pub open spec fn same(&self, other: &DatabaseTransaction) -> bool {
        &&& self.chain == other.chain
        &&& self.hash@ == other.hash@
        &&& self.block_number == other.block_number
        &&& self.transaction_index == other.transaction_index
        &&& self.from@ == other.from@
        &&& text_of(self.to) == text_of(other.to)
        &&& self.value == other.value
        &&& self.gas == other.gas
        &&& self.gas_price == other.gas_price
        &&& self.max_fee_per_gas == other.max_fee_per_gas
        &&& self.max_priority_fee_per_gas == other.max_priority_fee_per_gas
        &&& self.base_fee_per_gas == other.base_fee_per_gas
        &&& self.input@ == other.input@
        &&& self.nonce == other.nonce
        &&& self.transaction_type == other.transaction_type
        &&& self.status == other.status
        &&& self.gas_used == other.gas_used
        &&& self.cumulative_gas_used == other.cumulative_gas_used
        &&& self.effective_transaction_fee == other.effective_transaction_fee
        &&& text_of(self.contract_created) == text_of(other.contract_created)
        &&& self.method@ == other.method@
        &&& self.burned == other.burned
        &&& self.timestamp == other.timestamp
    }
}

} // verus!
