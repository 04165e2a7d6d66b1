//! The chain that is indexed and its genesis allocations.

use crate::db::models::transaction::{DatabaseTransaction, TransactionStatus};
use crate::utils::format::{format_address, hex_of, text_of};
use crate::utils::u256::U256;
use vstd::prelude::*;
use vstd::string::StringExecFns;

verus! {

/// A chain of the registry.
#[derive(Clone, Debug)]
pub struct Chain {
    pub id: u32,
    pub name: String,
}

/// A balance that an account holds from the first block on.
#[derive(Clone, Copy, Debug)]
pub struct GenesisAllocation {
    pub recipient: [u8; 20],
    pub value: U256,
}

/// The address that nobody holds: twenty zero bytes.
pub open spec fn zero_address() -> Seq<u8> {
    Seq::new(20, |i: int| 0u8)
}

/// `tx` is the synthetic transaction that stands for `allocation` on
/// chain `chain`: it sits in block 0, comes from the zero address, pays
/// the allocation to its recipient, succeeded, and has no input. Its
/// hash is `GENESIS_` and the recipient, so that no two allocations
/// share one.
pub open spec fn is_genesis_transaction(
    tx: DatabaseTransaction,
    chain: u32,
    allocation: GenesisAllocation,
) -> bool {
    &&& tx.chain == chain
    &&& tx.hash@ == "GENESIS_"@ + hex_of(allocation.recipient@)
    &&& tx.block_number == 0
    &&& tx.transaction_index == 0
    &&& tx.from@ == hex_of(zero_address())
    &&& text_of(tx.to) == Some(hex_of(allocation.recipient@))
    &&& tx.value == allocation.value
    &&& tx.gas == 0
    &&& tx.gas_price is None
    &&& tx.max_fee_per_gas is None
    &&& tx.max_priority_fee_per_gas is None
    &&& tx.base_fee_per_gas is None
    &&& tx.input@.len() == 0
    &&& tx.nonce == 0
    &&& tx.transaction_type == 0
    &&& tx.status == TransactionStatus::Success
    &&& tx.gas_used is None
    &&& tx.cumulative_gas_used == 0
    &&& tx.effective_transaction_fee is None
    &&& tx.contract_created is None
    &&& tx.method@.len() == 0
    &&& tx.burned is None
    &&& tx.timestamp == 0
}

/// The synthetic transaction of one allocation.
pub fn genesis_transaction(chain: u32, allocation: &GenesisAllocation) -> (tx:
    DatabaseTransaction)
    ensures
        is_genesis_transaction(tx, chain, *allocation),
{
    let zero: [u8; 20] = [0u8; 20];
    assert(zero@ =~= zero_address());
    let recipient = format_address(&allocation.recipient);
    let hash = String::from_str("GENESIS_").concat(recipient.as_str());
    DatabaseTransaction {
        chain,
        hash,
        block_number: 0,
        transaction_index: 0,
        from: format_address(&zero),
        to: Some(recipient),
        value: allocation.value,
        gas: 0,
        gas_price: None,
        max_fee_per_gas: None,
        max_priority_fee_per_gas: None,
        base_fee_per_gas: None,
        input: String::new(),
        nonce: 0,
        transaction_type: 0,
        status: TransactionStatus::Success,
        gas_used: None,
        cumulative_gas_used: 0,
        effective_transaction_fee: None,
        contract_created: None,
        method: String::new(),
        burned: None,
        timestamp: 0,
    }
}

/// The synthetic transactions of a chain's genesis allocations, one per
/// allocation and in their order. They are written when nothing is
/// indexed yet.
pub fn genesis_allocations(chain: &Chain, allocations: &Vec<GenesisAllocation>) -> (rows: Vec<
    DatabaseTransaction,
>)
    ensures
        rows@.len() == allocations@.len(),
        forall|i: int|
            0 <= i < rows@.len() ==> is_genesis_transaction(
                #[trigger] rows@[i],
                chain.id,
                allocations@[i],
            ),
{
    let mut rows: Vec<DatabaseTransaction> = Vec::new();
    let mut i: usize = 0;
    while i < allocations.len()
        invariant
            i <= allocations@.len(),
            rows@.len() == i,
            forall|k: int|
                0 <= k < i ==> is_genesis_transaction(
                    #[trigger] rows@[k],
                    chain.id,
                    allocations@[k],
                ),
        decreases allocations@.len() - i,
    {
        rows.push(genesis_transaction(chain.id, &allocations[i]));
        i += 1;
    }
    rows
}

} // verus!
