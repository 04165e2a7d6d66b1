//! The block assembler: joins a block with its receipts and traces into
//! the records of one height.

use crate::db::models::block::DatabaseBlock;
use crate::db::models::contract::DatabaseContract;
use crate::db::models::log::DatabaseLog;
use crate::db::models::trace::{DatabaseTrace, TraceType};
use crate::db::models::transaction::{DatabaseTransaction, TransactionStatus};
use crate::db::models::withdrawal::DatabaseWithdrawal;
use crate::rpc::{Log, RpcBlock, RpcLog, RpcReceipt, RpcTrace, RpcTransaction, RpcWithdrawal};
use crate::utils::format::{format_address, format_bytes, format_hash, hex_of, text_of};
use crate::chains::Chain;
use crate::utils::order::{lemma_stable_order, stable_ascending_order, stable_order};
use crate::utils::u256::{pow2_192, U256};
use vstd::prelude::*;

verus! {

/// Whether two byte strings are the same.
pub fn same_bytes(a: &[u8], b: &[u8]) -> (same: bool)
    ensures
        same == (a@ == b@),
{
    if a.len() != b.len() {
        return false;
    }
    let mut i: usize = 0;
    while i < a.len()
        invariant
            i <= a@.len(),
            a@.len() == b@.len(),
            forall|k: int| 0 <= k < i ==> a@[k] == b@[k],
        decreases a@.len() - i,
    {
        if a[i] != b[i] {
            return false;
        }
        i += 1;
    }
    assert(a@ =~= b@);
    true
}

/// The place of the first receipt from `from` on that belongs to the
/// transaction `hash`.
pub open spec fn receipt_from(receipts: Seq<RpcReceipt>, hash: Seq<u8>, from: int) -> Option<int>
    decreases receipts.len() - from,
{
    if from < 0 || from >= receipts.len() {
        None
    } else if receipts[from].transaction_hash@ == hash {
        Some(from)
    } else {
        receipt_from(receipts, hash, from + 1)
    }
}

/// The place of the receipt that belongs to the transaction `hash`: the
/// first with that hash.
pub open spec fn receipt_of(receipts: Seq<RpcReceipt>, hash: Seq<u8>) -> Option<int> {
    receipt_from(receipts, hash, 0)
}

/// Finds the receipt of a transaction.
pub fn find_receipt(receipts: &Vec<RpcReceipt>, hash: &[u8; 32]) -> (place: Option<usize>)
    ensures
        match place {
            Some(i) => receipt_of(receipts@, hash@) == Some(i as int) && i < receipts@.len(),
            None => receipt_of(receipts@, hash@) is None,
        },
{
    let mut i: usize = 0;
    while i < receipts.len()
        invariant
            i <= receipts@.len(),
            receipt_of(receipts@, hash@) == receipt_from(receipts@, hash@, i as int),
        decreases receipts@.len() - i,
    {
        if same_bytes(receipts[i].transaction_hash.as_slice(), hash.as_slice()) {
            return Some(i);
        }
        i += 1;
    }
    None
}

/// The status that a receipt reports: unknown where it reports none,
/// success for 1, failure otherwise.
pub open spec fn status_of(status: Option<u64>) -> TransactionStatus {
    match status {
        None => TransactionStatus::Unknown,
        Some(code) => if code == 1 {
            TransactionStatus::Success
        } else {
            TransactionStatus::Failure
        },
    }
}

/// The selector of a call: the first four bytes of the input as hex;
/// empty where the input is shorter.
pub open spec fn method_of(input: Seq<u8>) -> Seq<char> {
    if input.len() < 4 {
        Seq::empty()
    } else {
        hex_of(input.take(4))
    }
}

/// What the execution of a transaction cost: the gas that it used times
/// the price that was paid for it; absent where either is.
pub open spec fn fee_of(gas_used: Option<u64>, price: Option<u128>) -> Option<nat> {
    match (gas_used, price) {
        (Some(gas), Some(p)) => Some((gas * p) as nat),
        _ => None,
    }
}

/// The part of a fee that was burned: the gas used times the block's
/// base fee; absent where either is.
pub open spec fn burned_of(gas_used: Option<u64>, base_fee: Option<u64>) -> Option<nat> {
    match (gas_used, base_fee) {
        (Some(gas), Some(fee)) => Some((gas * fee) as nat),
        _ => None,
    }
}

/// The selector of a call.
pub fn method(input: &Vec<u8>) -> (text: String)
    ensures
        text@ == method_of(input@),
{
    if input.len() < 4 {
        String::new()
    } else {
        let selector = vstd::slice::slice_subrange(input.as_slice(), 0, 4);
        assert(selector@ == input@.take(4));
        format_bytes(selector)
    }
}

/// The fee of a transaction.
pub fn fee(gas_used: Option<u64>, price: Option<u128>) -> (amount: Option<U256>)
    ensures
        match amount {
            Some(a) => fee_of(gas_used, price) == Some(a@),
            None => fee_of(gas_used, price) is None,
        },
{
    match (gas_used, price) {
        (Some(gas), Some(p)) => Some(U256::from_product(gas, p)),
        _ => None,
    }
}

/// The burned part of a transaction's fee.
pub fn burned(gas_used: Option<u64>, base_fee: Option<u64>) -> (amount: Option<U256>)
    ensures
        match amount {
            Some(a) => burned_of(gas_used, base_fee) == Some(a@),
            None => burned_of(gas_used, base_fee) is None,
        },
{
    match (gas_used, base_fee) {
        (Some(gas), Some(fee)) => Some(U256::from_product(gas, fee as u128)),
        _ => None,
    }
}


/// The hex text of an address that may be absent.
pub open spec fn hex_of_address(address: Option<[u8; 20]>) -> Option<Seq<char>> {
    match address {
        Some(a) => Some(hex_of(a@)),
        None => None,
    }
}

/// An address that may be absent, as hex.
pub fn format_optional_address(address: &Option<[u8; 20]>) -> (text: Option<String>)
    ensures
        text_of(text) == hex_of_address(*address),
{
    match address {
        Some(a) => Some(format_address(a)),
        None => None,
    }
}

/// A receipt that may be absent, and a field of it.
pub open spec fn receipt_gas_used(receipt: Option<RpcReceipt>) -> Option<u64> {
    match receipt {
        Some(r) => r.gas_used,
        None => None,
    }
}

/// The price that a receipt reports, where there is a receipt.
pub open spec fn receipt_price(receipt: Option<RpcReceipt>) -> Option<u128> {
    match receipt {
        Some(r) => r.effective_gas_price,
        None => None,
    }
}

/// `row` is the record of the transaction `tx` of a block with the given
/// number, timestamp and base fee, joined with its receipt where it has
/// one, and with the contract `created` where it created one. Without a
/// receipt the status is unknown and what a receipt would report is
/// absent.
pub open spec fn is_transaction_row(
    row: DatabaseTransaction,
    chain: u32,
    block_number: u32,
    timestamp: u32,
    base_fee: Option<u64>,
    tx: RpcTransaction,
    receipt: Option<RpcReceipt>,
    created: Option<[u8; 20]>,
) -> bool {
    &&& row.chain == chain
    &&& row.hash@ == hex_of(tx.hash@)
    &&& row.block_number == block_number
    &&& row.transaction_index == tx.transaction_index
    &&& row.from@ == hex_of(tx.from@)
    &&& text_of(row.to) == hex_of_address(tx.to)
    &&& row.value == tx.value
    &&& row.gas == tx.gas
    &&& row.gas_price == tx.gas_price
    &&& row.max_fee_per_gas == tx.max_fee_per_gas
    &&& row.max_priority_fee_per_gas == tx.max_priority_fee_per_gas
    &&& row.base_fee_per_gas == base_fee
    &&& row.input@ == hex_of(tx.input@)
    &&& row.nonce == tx.nonce
    &&& row.transaction_type == tx.transaction_type
    &&& row.status == match receipt {
        Some(r) => status_of(r.status),
        None => TransactionStatus::Unknown,
    }
    &&& row.gas_used == receipt_gas_used(receipt)
    &&& row.cumulative_gas_used == match receipt {
        Some(r) => r.cumulative_gas_used,
        None => 0,
    }
    &&& match row.effective_transaction_fee {
        Some(fee) => fee_of(receipt_gas_used(receipt), receipt_price(receipt)) == Some(fee@),
        None => fee_of(receipt_gas_used(receipt), receipt_price(receipt)) is None,
    }
    &&& text_of(row.contract_created) == hex_of_address(created)
    &&& row.method@ == method_of(tx.input@)
    &&& match row.burned {
        Some(burned) => burned_of(receipt_gas_used(receipt), base_fee) == Some(burned@),
        None => burned_of(receipt_gas_used(receipt), base_fee) is None,
    }
    &&& row.timestamp == timestamp
}

/// The record of one transaction of a block.
pub fn transaction_row(
    chain: u32,
    block_number: u32,
    timestamp: u32,
    base_fee: Option<u64>,
    tx: &RpcTransaction,
    receipt: Option<&RpcReceipt>,
    created: &Option<[u8; 20]>,
) -> (row: DatabaseTransaction)
    ensures
        is_transaction_row(
            row,
            chain,
            block_number,
            timestamp,
            base_fee,
            *tx,
            match receipt {
                Some(r) => Some(*r),
                None => None,
            },
            *created,
        ),
{
    let (status, gas_used, cumulative_gas_used, price) = match receipt {
        Some(r) => {
            let status = match r.status {
                None => TransactionStatus::Unknown,
                Some(code) => if code == 1 {
                    TransactionStatus::Success
                } else {
                    TransactionStatus::Failure
                },
            };
            (status, r.gas_used, r.cumulative_gas_used, r.effective_gas_price)
        },
        None => (TransactionStatus::Unknown, None, 0, None),
    };
    DatabaseTransaction {
        chain,
        hash: format_hash(&tx.hash),
        block_number,
        transaction_index: tx.transaction_index,
        from: format_address(&tx.from),
        to: format_optional_address(&tx.to),
        value: tx.value,
        gas: tx.gas,
        gas_price: tx.gas_price,
        max_fee_per_gas: tx.max_fee_per_gas,
        max_priority_fee_per_gas: tx.max_priority_fee_per_gas,
        base_fee_per_gas: base_fee,
        input: format_bytes(tx.input.as_slice()),
        nonce: tx.nonce,
        transaction_type: tx.transaction_type,
        status,
        gas_used,
        cumulative_gas_used,
        effective_transaction_fee: fee(gas_used, price),
        contract_created: format_optional_address(created),
        method: method(&tx.input),
        burned: burned(gas_used, base_fee),
        timestamp,
    }
}

/// `log` is the event log `rpc` of a receipt of the transaction
/// `transaction_hash`, with the place where it was emitted.
pub open spec fn is_log_of(
    log: Log,
    chain: u32,
    block_number: u32,
    timestamp: u32,
    transaction_hash: [u8; 32],
    rpc: RpcLog,
) -> bool {
    &&& log.chain == chain
    &&& log.block_number == block_number
    &&& log.timestamp == timestamp
    &&& log.transaction_hash == transaction_hash
    &&& log.log_index == rpc.log_index
    &&& log.address == rpc.address
    &&& log.topics@ == rpc.topics@
    &&& log.data@ == rpc.data@
}

/// A copy of a byte string.
pub fn copy_bytes(bytes: &Vec<u8>) -> (copy: Vec<u8>)
    ensures
        copy@ == bytes@,
{
    let mut copy: Vec<u8> = Vec::new();
    let mut i: usize = 0;
    while i < bytes.len()
        invariant
            i <= bytes@.len(),
            copy@ == bytes@.take(i as int),
        decreases bytes@.len() - i,
    {
        copy.push(bytes[i]);
        assert(copy@ == bytes@.take(i + 1));
        i += 1;
    }
    assert(bytes@.take(bytes@.len() as int) == bytes@);
    copy
}

/// A copy of a list of words.
pub fn copy_words(words: &Vec<[u8; 32]>) -> (copy: Vec<[u8; 32]>)
    ensures
        copy@ == words@,
{
    let mut copy: Vec<[u8; 32]> = Vec::new();
    let mut i: usize = 0;
    while i < words.len()
        invariant
            i <= words@.len(),
            copy@ == words@.take(i as int),
        decreases words@.len() - i,
    {
        copy.push(words[i]);
        assert(copy@ == words@.take(i + 1));
        i += 1;
    }
    assert(words@.take(words@.len() as int) == words@);
    copy
}

/// The event log of a receipt with the place where it was emitted.
pub fn placed_log(
    chain: u32,
    block_number: u32,
    timestamp: u32,
    transaction_hash: &[u8; 32],
    rpc: &RpcLog,
) -> (log: Log)
    ensures
        is_log_of(log, chain, block_number, timestamp, *transaction_hash, *rpc),
{
    Log {
        chain,
        block_number,
        timestamp,
        transaction_hash: *transaction_hash,
        log_index: rpc.log_index,
        address: rpc.address,
        topics: copy_words(&rpc.topics),
        data: copy_bytes(&rpc.data),
    }
}

/// The hex text of the topic at `i`, where the log has one.
pub open spec fn topic_text(topics: Seq<[u8; 32]>, i: int) -> Option<Seq<char>> {
    if 0 <= i < topics.len() {
        Some(hex_of(topics[i]@))
    } else {
        None
    }
}

/// `row` is the record of `log`: the same log with hashes, address and
/// data as hex, and its first four topics.
pub open spec fn is_log_row(row: DatabaseLog, log: Log) -> bool {
    &&& row.chain == log.chain
    &&& row.transaction_hash@ == hex_of(log.transaction_hash@)
    &&& row.log_index == log.log_index
    &&& row.address@ == hex_of(log.address@)
    &&& text_of(row.topic0) == topic_text(log.topics@, 0)
    &&& text_of(row.topic1) == topic_text(log.topics@, 1)
    &&& text_of(row.topic2) == topic_text(log.topics@, 2)
    &&& text_of(row.topic3) == topic_text(log.topics@, 3)
    &&& row.data@ == hex_of(log.data@)
    &&& row.block_number == log.block_number
    &&& row.timestamp == log.timestamp
}

/// The topic at `i` as hex, where the log has one.
pub fn format_topic(topics: &Vec<[u8; 32]>, i: usize) -> (text: Option<String>)
    ensures
        text_of(text) == topic_text(topics@, i as int),
{
    if i < topics.len() {
        Some(format_hash(&topics[i]))
    } else {
        None
    }
}

/// The record of an event log.
pub fn log_row(log: &Log) -> (row: DatabaseLog)
    ensures
        is_log_row(row, *log),
{
    DatabaseLog {
        chain: log.chain,
        transaction_hash: format_hash(&log.transaction_hash),
        log_index: log.log_index,
        address: format_address(&log.address),
        topic0: format_topic(&log.topics, 0),
        topic1: format_topic(&log.topics, 1),
        topic2: format_topic(&log.topics, 2),
        topic3: format_topic(&log.topics, 3),
        data: format_bytes(log.data.as_slice()),
        block_number: log.block_number,
        timestamp: log.timestamp,
    }
}


/// The hex text of a hash that may be absent; empty where it is.
pub open spec fn hex_or_empty(bytes: Option<Seq<u8>>) -> Seq<char> {
    match bytes {
        Some(b) => hex_of(b),
        None => Seq::empty(),
    }
}

/// The bytes of a hash that may be absent.
pub open spec fn hash_bytes(hash: Option<[u8; 32]>) -> Option<Seq<u8>> {
    match hash {
        Some(h) => Some(h@),
        None => None,
    }
}

/// The bytes of an address that may be absent.
pub open spec fn address_bytes(address: Option<[u8; 20]>) -> Option<Seq<u8>> {
    match address {
        Some(a) => Some(a@),
        None => None,
    }
}

/// `row` is the record of the trace entry `trace` of a block. A hash or
/// an address that the entry lacks is empty text.
pub open spec fn is_trace_row(
    row: DatabaseTrace,
    chain: u32,
    block_number: u32,
    trace: RpcTrace,
) -> bool {
    &&& row.chain == chain
    &&& row.transaction_hash@ == hex_or_empty(hash_bytes(trace.transaction_hash))
    &&& row.trace_address@ == trace.trace_address@
    &&& row.call_type == trace.call_type
    &&& row.from@ == hex_of(trace.from@)
    &&& row.to@ == hex_or_empty(address_bytes(trace.to))
    &&& row.value == trace.value
    &&& row.input@ == hex_of(trace.input@)
    &&& row.output@ == hex_of(trace.output@)
    &&& row.gas == trace.gas
    &&& row.gas_used == trace.gas_used
    &&& text_of(row.error) == text_of(trace.error)
    &&& row.block_number == block_number
}

/// The record of a trace entry.
pub fn trace_row(chain: u32, block_number: u32, trace: &RpcTrace) -> (row: DatabaseTrace)
    ensures
        is_trace_row(row, chain, block_number, *trace),
{
    let transaction_hash = match &trace.transaction_hash {
        Some(h) => format_hash(h),
        None => String::new(),
    };
    let to = match &trace.to {
        Some(a) => format_address(a),
        None => String::new(),
    };
    let mut trace_address: Vec<u32> = Vec::new();
    let mut i: usize = 0;
    while i < trace.trace_address.len()
        invariant
            i <= trace.trace_address@.len(),
            trace_address@ == trace.trace_address@.take(i as int),
        decreases trace.trace_address@.len() - i,
    {
        trace_address.push(trace.trace_address[i]);
        assert(trace_address@ == trace.trace_address@.take(i + 1));
        i += 1;
    }
    assert(trace.trace_address@.take(trace.trace_address@.len() as int) == trace.trace_address@);
    let error = match &trace.error {
        Some(e) => Some(e.clone()),
        None => None,
    };
    DatabaseTrace {
        chain,
        transaction_hash,
        trace_address,
        call_type: trace.call_type,
        from: format_address(&trace.from),
        to,
        value: trace.value,
        input: format_bytes(trace.input.as_slice()),
        output: format_bytes(trace.output.as_slice()),
        gas: trace.gas,
        gas_used: trace.gas_used,
        error,
        block_number,
    }
}

/// Whether a trace entry stands for a contract that came to be: it is a
/// creation within a transaction, it did not fail, and it has a result.
pub open spec fn creates_contract(trace: RpcTrace) -> bool {
    &&& trace.call_type == TraceType::Create
    &&& trace.error is None
    &&& trace.created is Some
    &&& trace.transaction_hash is Some
}

/// `row` is the record of the contract that `trace` created.
pub open spec fn is_contract_row(row: DatabaseContract, chain: u32, trace: RpcTrace) -> bool {
    &&& creates_contract(trace)
    &&& row.chain == chain
    &&& row.address@ == hex_of(trace.created->0.address@)
    &&& row.creator_transaction_hash@ == hex_of(trace.transaction_hash->0@)
    &&& row.bytecode@ == hex_of(trace.created->0.code@)
}

/// The record of the contract that a trace entry created, where it
/// created one.
pub fn contract_row(chain: u32, trace: &RpcTrace) -> (row: Option<DatabaseContract>)
    ensures
        row is Some <==> creates_contract(*trace),
        row matches Some(r) ==> is_contract_row(r, chain, *trace),
{
    if trace.call_type != TraceType::Create || trace.error.is_some() {
        return None;
    }
    match (&trace.created, &trace.transaction_hash) {
        (Some(created), Some(hash)) => Some(
            DatabaseContract {
                chain,
                address: format_address(&created.address),
                creator_transaction_hash: format_hash(hash),
                bytecode: format_bytes(created.code.as_slice()),
            },
        ),
        _ => None,
    }
}

/// `row` is the record of the withdrawal `withdrawal` of a block.
pub open spec fn is_withdrawal_row(
    row: DatabaseWithdrawal,
    chain: u32,
    block_number: u32,
    timestamp: u32,
    withdrawal: RpcWithdrawal,
) -> bool {
    &&& row.chain == chain
    &&& row.block_number == block_number
    &&& row.index == withdrawal.index
    &&& row.validator_index == withdrawal.validator_index
    &&& row.address@ == hex_of(withdrawal.address@)
    &&& row.amount == withdrawal.amount
    &&& row.timestamp == timestamp
}

/// The record of a withdrawal.
pub fn withdrawal_row(
    chain: u32,
    block_number: u32,
    timestamp: u32,
    withdrawal: &RpcWithdrawal,
) -> (row: DatabaseWithdrawal)
    ensures
        is_withdrawal_row(row, chain, block_number, timestamp, *withdrawal),
{
    DatabaseWithdrawal {
        chain,
        block_number,
        index: withdrawal.index,
        validator_index: withdrawal.validator_index,
        address: format_address(&withdrawal.address),
        amount: withdrawal.amount,
        timestamp,
    }
}

/// The receipt at a place that may be none.
pub open spec fn receipt_at(receipts: Seq<RpcReceipt>, place: Option<int>) -> Option<RpcReceipt> {
    match place {
        Some(i) => Some(receipts[i]),
        None => None,
    }
}

/// The receipt of a transaction, where the block has one for it.
pub open spec fn receipt_for(receipts: Seq<RpcReceipt>, tx: RpcTransaction) -> Option<RpcReceipt> {
    receipt_at(receipts, receipt_of(receipts, tx.hash@))
}

/// A number that may be absent; zero where it is.
pub open spec fn or_zero(amount: Option<nat>) -> nat {
    match amount {
        Some(a) => a,
        None => 0,
    }
}

/// The fees of the first `n` transactions together, as far as their
/// receipts state them.
pub open spec fn total_fees(txs: Seq<RpcTransaction>, receipts: Seq<RpcReceipt>, n: int) -> nat
    decreases n,
{
    if n <= 0 {
        0
    } else {
        let receipt = receipt_for(receipts, txs[n - 1]);
        total_fees(txs, receipts, n - 1) + or_zero(
            fee_of(receipt_gas_used(receipt), receipt_price(receipt)),
        )
    }
}

/// What the first `n` transactions burned together, as far as their
/// receipts state the gas.
pub open spec fn total_burned(
    txs: Seq<RpcTransaction>,
    receipts: Seq<RpcReceipt>,
    base_fee: Option<u64>,
    n: int,
) -> nat
    decreases n,
{
    if n <= 0 {
        0
    } else {
        let receipt = receipt_for(receipts, txs[n - 1]);
        total_burned(txs, receipts, base_fee, n - 1) + or_zero(
            burned_of(receipt_gas_used(receipt), base_fee),
        )
    }
}

/// The fees and the burned amounts of a block's transactions.
pub fn block_totals(
    txs: &Vec<RpcTransaction>,
    receipts: &Vec<RpcReceipt>,
    base_fee: Option<u64>,
) -> (totals: (U256, U256))
    ensures
        totals.0@ == total_fees(txs@, receipts@, txs@.len() as int),
        totals.1@ == total_burned(txs@, receipts@, base_fee, txs@.len() as int),
{
    let mut fees = U256::zero();
    let mut burnt = U256::zero();
    let mut i: usize = 0;
    while i < txs.len()
        invariant
            i <= txs@.len(),
            fees@ == total_fees(txs@, receipts@, i as int),
            burnt@ == total_burned(txs@, receipts@, base_fee, i as int),
            fees@ <= i * pow2_192(),
            burnt@ <= i * pow2_192(),
        decreases txs@.len() - i,
    {
        let (gas_used, price) = match find_receipt(receipts, &txs[i].hash) {
            Some(place) => (receipts[place].gas_used, receipts[place].effective_gas_price),
            None => (None, None),
        };
        match fee(gas_used, price) {
            Some(amount) => {
                assert(amount@ <= pow2_192()) by (nonlinear_arith)
                    requires
                        amount@ == gas_used->0 * price->0,
                        gas_used->0 <= 0xffff_ffff_ffff_ffff,
                        price->0 <= 0xffff_ffff_ffff_ffff_ffff_ffff_ffff_ffff,
                ;
                match fees.checked_add(&amount) {
                    Some(sum) => {
                        fees = sum;
                    },
                    None => {
                        assert(false);
                    },
                }
            },
            None => {},
        }
        match burned(gas_used, base_fee) {
            Some(amount) => {
                assert(amount@ <= pow2_192()) by (nonlinear_arith)
                    requires
                        amount@ == gas_used->0 * base_fee->0,
                        gas_used->0 <= 0xffff_ffff_ffff_ffff,
                        base_fee->0 <= 0xffff_ffff_ffff_ffff,
                ;
                match burnt.checked_add(&amount) {
                    Some(sum) => {
                        burnt = sum;
                    },
                    None => {
                        assert(false);
                    },
                }
            },
            None => {},
        }
        i += 1;
    }
    (fees, burnt)
}


/// `row` is the record of the block `block` on chain `chain`, with the
/// fees and the burned amounts of its transactions as their receipts
/// state them.
pub open spec fn is_block_row(
    row: DatabaseBlock,
    chain: u32,
    block: RpcBlock,
    receipts: Seq<RpcReceipt>,
) -> bool {
    &&& row.chain == chain
    &&& row.number == block.number
    &&& row.hash@ == hex_of(block.hash@)
    &&& row.parent_hash@ == hex_of(block.parent_hash@)
    &&& row.timestamp == block.timestamp
    &&& row.miner@ == hex_of(block.miner@)
    &&& row.nonce@ == hex_of(block.nonce@)
    &&& row.gas_limit == block.gas_limit
    &&& row.gas_used == block.gas_used
    &&& row.base_fee_per_gas == block.base_fee_per_gas
    &&& row.difficulty == block.difficulty
    &&& row.total_difficulty == block.total_difficulty
    &&& row.size == block.size
    &&& row.uncles@.len() == block.uncles@.len()
    &&& forall|i: int|
        0 <= i < row.uncles@.len() ==> (#[trigger] row.uncles@[i])@ == hex_of(block.uncles@[i]@)
    &&& row.transactions == block.transactions@.len()
    &&& row.total_fee_reward@ == total_fees(
        block.transactions@,
        receipts,
        block.transactions@.len() as int,
    )
    &&& row.burned@ == total_burned(
        block.transactions@,
        receipts,
        block.base_fee_per_gas,
        block.transactions@.len() as int,
    )
    &&& row.is_uncle == block.is_uncle
}

/// The record of a block.
pub fn block_row(chain: u32, block: &RpcBlock, receipts: &Vec<RpcReceipt>) -> (row: DatabaseBlock)
    requires
        block.transactions@.len() <= u32::MAX,
    ensures
        is_block_row(row, chain, *block, receipts@),
{
    let mut uncles: Vec<String> = Vec::new();
    let mut i: usize = 0;
    while i < block.uncles.len()
        invariant
            i <= block.uncles@.len(),
            uncles@.len() == i,
            forall|k: int| 0 <= k < i ==> (#[trigger] uncles@[k])@ == hex_of(block.uncles@[k]@),
        decreases block.uncles@.len() - i,
    {
        uncles.push(format_hash(&block.uncles[i]));
        i += 1;
    }
    let (fees, burnt) = block_totals(&block.transactions, receipts, block.base_fee_per_gas);
    DatabaseBlock {
        chain,
        number: block.number,
        hash: format_hash(&block.hash),
        parent_hash: format_hash(&block.parent_hash),
        timestamp: block.timestamp,
        miner: format_address(&block.miner),
        nonce: format_bytes(block.nonce.as_slice()),
        gas_limit: block.gas_limit,
        gas_used: block.gas_used,
        base_fee_per_gas: block.base_fee_per_gas,
        difficulty: block.difficulty,
        total_difficulty: block.total_difficulty,
        size: block.size,
        uncles,
        transactions: block.transactions.len() as u32,
        total_fee_reward: fees,
        burned: burnt,
        is_uncle: block.is_uncle,
    }
}

/// The indexes that the transactions of a block carry, in the order in
/// which the block lists them.
pub open spec fn transaction_indexes(txs: Seq<RpcTransaction>) -> Seq<u32> {
    Seq::new(txs.len(), |i: int| txs[i].transaction_index)
}

/// The places `(receipt, log)` of the logs of the first `n` receipts:
/// receipt by receipt, and within a receipt log by log.
pub open spec fn log_places(receipts: Seq<RpcReceipt>, n: int) -> Seq<(int, int)>
    decreases n,
{
    if n <= 0 {
        Seq::empty()
    } else {
        log_places(receipts, n - 1) + Seq::new(
            receipts[n - 1].logs@.len(),
            |j: int| (n - 1, j),
        )
    }
}

/// The places of the first `n` trace entries that created a contract.
pub open spec fn contract_places(traces: Seq<RpcTrace>, n: int) -> Seq<int>
    decreases n,
{
    if n <= 0 {
        Seq::empty()
    } else if creates_contract(traces[n - 1]) {
        contract_places(traces, n - 1).push(n - 1)
    } else {
        contract_places(traces, n - 1)
    }
}

/// The records of one height.
#[derive(Debug)]
pub struct FetchedBlock {
    pub block: DatabaseBlock,
    pub transactions: Vec<DatabaseTransaction>,
    pub logs: Vec<Log>,
    pub traces: Vec<DatabaseTrace>,
    pub contracts: Vec<DatabaseContract>,
    pub withdrawals: Vec<DatabaseWithdrawal>,
}

/// The contract that the first trace entry from `from` on created within
/// the transaction `hash`.
pub open spec fn created_from(traces: Seq<RpcTrace>, hash: Seq<u8>, from: int) -> Option<[u8; 20]>
    decreases traces.len() - from,
{
    if from < 0 || from >= traces.len() {
        None
    } else if creates_contract(traces[from]) && traces[from].transaction_hash->0@ == hash {
        Some(traces[from].created->0.address)
    } else {
        created_from(traces, hash, from + 1)
    }
}

/// The contract that a transaction created: none where it has a
/// recipient; else the one that its receipt names; else the one that its
/// first creating trace entry names.
pub open spec fn created_by(
    tx: RpcTransaction,
    receipt: Option<RpcReceipt>,
    traces: Seq<RpcTrace>,
) -> Option<[u8; 20]> {
    if tx.to is Some {
        None
    } else if receipt is Some && receipt->0.contract_address is Some {
        receipt->0.contract_address
    } else {
        created_from(traces, tx.hash@, 0)
    }
}

/// Finds the contract that the traces of a transaction show as created.
pub fn find_created(traces: &Vec<RpcTrace>, hash: &[u8; 32]) -> (created: Option<[u8; 20]>)
    ensures
        created == created_from(traces@, hash@, 0),
{
    let mut i: usize = 0;
    while i < traces.len()
        invariant
            i <= traces@.len(),
            created_from(traces@, hash@, 0) == created_from(traces@, hash@, i as int),
        decreases traces@.len() - i,
    {
        let trace = &traces[i];
        if trace.call_type == TraceType::Create && trace.error.is_none() {
            match (&trace.created, &trace.transaction_hash) {
                (Some(created), Some(its_hash)) => {
                    if same_bytes(its_hash.as_slice(), hash.as_slice()) {
                        return Some(created.address);
                    }
                },
                _ => {},
            }
        }
        i += 1;
    }
    None
}

/// The contract that a transaction created.
pub fn created_contract(
    tx: &RpcTransaction,
    receipt: Option<&RpcReceipt>,
    traces: &Vec<RpcTrace>,
) -> (created: Option<[u8; 20]>)
    ensures
        created == created_by(
            *tx,
            match receipt {
                Some(r) => Some(*r),
                None => None,
            },
            traces@,
        ),
{
    if tx.to.is_some() {
        return None;
    }
    match receipt {
        Some(r) => match r.contract_address {
            Some(address) => Some(address),
            None => find_created(traces, &tx.hash),
        },
        None => find_created(traces, &tx.hash),
    }
}

/// `rows` are the records of the transactions `txs`, each joined with its
/// receipt, in ascending order of their indexes; transactions with one
/// index keep the order in which the block lists them.
pub open spec fn are_transaction_rows(
    rows: Seq<DatabaseTransaction>,
    chain: u32,
    block: RpcBlock,
    receipts: Seq<RpcReceipt>,
    traces: Seq<RpcTrace>,
) -> bool {
    let txs = block.transactions@;
    let order = stable_order(transaction_indexes(txs));
    &&& rows.len() == txs.len()
    &&& forall|k: int|
        0 <= k < rows.len() ==> is_transaction_row(
            #[trigger] rows[k],
            chain,
            block.number,
            block.timestamp,
            block.base_fee_per_gas,
            txs[order[k]],
            receipt_for(receipts, txs[order[k]]),
            created_by(txs[order[k]], receipt_for(receipts, txs[order[k]]), traces),
        )
}

/// `logs` are the logs of the receipts, receipt by receipt and log by
/// log, each with the place where it was emitted.
pub open spec fn are_placed_logs(
    logs: Seq<Log>,
    chain: u32,
    block: RpcBlock,
    receipts: Seq<RpcReceipt>,
) -> bool {
    let places = log_places(receipts, receipts.len() as int);
    &&& logs.len() == places.len()
    &&& forall|k: int|
        0 <= k < logs.len() ==> is_log_of(
            #[trigger] logs[k],
            chain,
            block.number,
            block.timestamp,
            receipts[places[k].0].transaction_hash,
            receipts[places[k].0].logs@[places[k].1],
        )
}

/// `fetched` holds the records of the block `block` with its receipts and
/// traces: one block, one transaction per transaction of the block, one
/// log per log of a receipt, one trace per trace entry, one contract per
/// entry that created one, and one withdrawal per withdrawal.
pub open spec fn is_fetched_block(
    fetched: FetchedBlock,
    chain: u32,
    block: RpcBlock,
    receipts: Seq<RpcReceipt>,
    traces: Seq<RpcTrace>,
) -> bool {
    let created = contract_places(traces, traces.len() as int);
    &&& is_block_row(fetched.block, chain, block, receipts)
    &&& are_transaction_rows(fetched.transactions@, chain, block, receipts, traces)
    &&& are_placed_logs(fetched.logs@, chain, block, receipts)
    &&& fetched.traces@.len() == traces.len()
    &&& forall|i: int|
        0 <= i < traces.len() ==> is_trace_row(
            #[trigger] fetched.traces@[i],
            chain,
            block.number,
            traces[i],
        )
    &&& fetched.contracts@.len() == created.len()
    &&& forall|k: int|
        0 <= k < created.len() ==> is_contract_row(
            #[trigger] fetched.contracts@[k],
            chain,
            traces[created[k]],
        )
    &&& fetched.withdrawals@.len() == block.withdrawals@.len()
    &&& forall|i: int|
        0 <= i < block.withdrawals@.len() ==> is_withdrawal_row(
            #[trigger] fetched.withdrawals@[i],
            chain,
            block.number,
            block.timestamp,
            block.withdrawals@[i],
        )
}

/// The records of a block's transactions.
pub fn transaction_rows(
    chain: u32,
    block: &RpcBlock,
    receipts: &Vec<RpcReceipt>,
    traces: &Vec<RpcTrace>,
) -> (rows: Vec<DatabaseTransaction>)
    ensures
        are_transaction_rows(rows@, chain, *block, receipts@, traces@),
{
    let mut indexes: Vec<u32> = Vec::new();
    let mut i: usize = 0;
    while i < block.transactions.len()
        invariant
            i <= block.transactions@.len(),
            indexes@ == transaction_indexes(block.transactions@).take(i as int),
        decreases block.transactions@.len() - i,
    {
        indexes.push(block.transactions[i].transaction_index);
        assert(indexes@ =~= transaction_indexes(block.transactions@).take(i + 1));
        i += 1;
    }
    assert(indexes@ =~= transaction_indexes(block.transactions@));
    let order = stable_ascending_order(&indexes);
    let ghost places = stable_order(transaction_indexes(block.transactions@));
    let mut rows: Vec<DatabaseTransaction> = Vec::new();
    let mut k: usize = 0;
    while k < order.len()
        invariant
            k <= order@.len(),
            order@.len() == block.transactions@.len(),
            order@.map_values(|p: usize| p as int) == places,
            forall|a: int|
                0 <= a < order@.len() ==> #[trigger] order@[a] < block.transactions@.len(),
            rows@.len() == k,
            forall|j: int|
                0 <= j < k ==> is_transaction_row(
                    #[trigger] rows@[j],
                    chain,
                    block.number,
                    block.timestamp,
                    block.base_fee_per_gas,
                    block.transactions@[places[j]],
                    receipt_for(receipts@, block.transactions@[places[j]]),
                    created_by(
                        block.transactions@[places[j]],
                        receipt_for(receipts@, block.transactions@[places[j]]),
                        traces@,
                    ),
                ),
        decreases order@.len() - k,
    {
        let place = order[k];
        assert(places[k as int] == place as int) by {
            assert(order@.map_values(|p: usize| p as int)[k as int] == order@[k as int] as int);
        }
        let tx = &block.transactions[place];
        let receipt = match find_receipt(receipts, &tx.hash) {
            Some(r) => Some(&receipts[r]),
            None => None,
        };
        let created = created_contract(tx, receipt, traces);
        let row = transaction_row(
            chain,
            block.number,
            block.timestamp,
            block.base_fee_per_gas,
            tx,
            receipt,
            &created,
        );
        rows.push(row);
        k += 1;
    }
    rows
}

/// The logs of a block's receipts, each with its place.
pub fn placed_logs(chain: u32, block: &RpcBlock, receipts: &Vec<RpcReceipt>) -> (logs: Vec<Log>)
    ensures
        are_placed_logs(logs@, chain, *block, receipts@),
{
    let mut logs: Vec<Log> = Vec::new();
    let mut r: usize = 0;
    while r < receipts.len()
        invariant
            r <= receipts@.len(),
            logs@.len() == log_places(receipts@, r as int).len(),
            forall|k: int|
                0 <= k < logs@.len() ==> is_log_of(
                    #[trigger] logs@[k],
                    chain,
                    block.number,
                    block.timestamp,
                    receipts@[log_places(receipts@, r as int)[k].0].transaction_hash,
                    receipts@[log_places(receipts@, r as int)[k].0].logs@[log_places(
                        receipts@,
                        r as int,
                    )[k].1],
                ),
        decreases receipts@.len() - r,
    {
        let receipt = &receipts[r];
        let ghost before = log_places(receipts@, r as int);
        let mut j: usize = 0;
        while j < receipt.logs.len()
            invariant
                j <= receipt.logs@.len(),
                r < receipts@.len(),
                *receipt == receipts@[r as int],
                before == log_places(receipts@, r as int),
                logs@.len() == before.len() + j,
                forall|k: int|
                    0 <= k < before.len() ==> is_log_of(
                        #[trigger] logs@[k],
                        chain,
                        block.number,
                        block.timestamp,
                        receipts@[before[k].0].transaction_hash,
                        receipts@[before[k].0].logs@[before[k].1],
                    ),
                forall|k: int|
                    before.len() <= k < logs@.len() ==> is_log_of(
                        #[trigger] logs@[k],
                        chain,
                        block.number,
                        block.timestamp,
                        receipt.transaction_hash,
                        receipt.logs@[k - before.len()],
                    ),
            decreases receipt.logs@.len() - j,
        {
            logs.push(
                placed_log(
                    chain,
                    block.number,
                    block.timestamp,
                    &receipt.transaction_hash,
                    &receipt.logs[j],
                ),
            );
            j += 1;
        }
        r += 1;
    }
    logs
}

/// The records of a block's trace entries and of the contracts that they
/// created.
pub fn trace_rows(chain: u32, block_number: u32, traces: &Vec<RpcTrace>) -> (rows: (
    Vec<DatabaseTrace>,
    Vec<DatabaseContract>,
))
    ensures
        rows.0@.len() == traces@.len(),
        forall|i: int|
            0 <= i < traces@.len() ==> is_trace_row(
                #[trigger] rows.0@[i],
                chain,
                block_number,
                traces@[i],
            ),
        rows.1@.len() == contract_places(traces@, traces@.len() as int).len(),
        forall|k: int|
            0 <= k < rows.1@.len() ==> is_contract_row(
                #[trigger] rows.1@[k],
                chain,
                traces@[contract_places(traces@, traces@.len() as int)[k]],
            ),
{
    let mut rows: Vec<DatabaseTrace> = Vec::new();
    let mut contracts: Vec<DatabaseContract> = Vec::new();
    let mut i: usize = 0;
    while i < traces.len()
        invariant
            i <= traces@.len(),
            rows@.len() == i,
            forall|k: int|
                0 <= k < i ==> is_trace_row(#[trigger] rows@[k], chain, block_number, traces@[k]),
            contracts@.len() == contract_places(traces@, i as int).len(),
            forall|k: int|
                0 <= k < contracts@.len() ==> is_contract_row(
                    #[trigger] contracts@[k],
                    chain,
                    traces@[contract_places(traces@, i as int)[k]],
                ),
        decreases traces@.len() - i,
    {
        rows.push(trace_row(chain, block_number, &traces[i]));
        match contract_row(chain, &traces[i]) {
            Some(contract) => {
                contracts.push(contract);
            },
            None => {},
        }
        i += 1;
    }
    (rows, contracts)
}

/// The records of a block's withdrawals.
pub fn withdrawal_rows(chain: u32, block: &RpcBlock) -> (rows: Vec<DatabaseWithdrawal>)
    ensures
        rows@.len() == block.withdrawals@.len(),
        forall|i: int|
            0 <= i < rows@.len() ==> is_withdrawal_row(
                #[trigger] rows@[i],
                chain,
                block.number,
                block.timestamp,
                block.withdrawals@[i],
            ),
{
    let mut rows: Vec<DatabaseWithdrawal> = Vec::new();
    let mut i: usize = 0;
    while i < block.withdrawals.len()
        invariant
            i <= block.withdrawals@.len(),
            rows@.len() == i,
            forall|k: int|
                0 <= k < i ==> is_withdrawal_row(
                    #[trigger] rows@[k],
                    chain,
                    block.number,
                    block.timestamp,
                    block.withdrawals@[k],
                ),
        decreases block.withdrawals@.len() - i,
    {
        rows.push(withdrawal_row(chain, block.number, block.timestamp, &block.withdrawals[i]));
        i += 1;
    }
    rows
}

/// Whether the three answers of a node make up the block at height
/// `number`: each of them came, the block is the one that was asked for,
/// and its transactions can be counted in 32 bits.
pub open spec fn is_complete(
    number: u32,
    block: Option<RpcBlock>,
    receipts: Option<Vec<RpcReceipt>>,
    traces: Option<Vec<RpcTrace>>,
) -> bool {
    &&& block is Some
    &&& receipts is Some
    &&& traces is Some
    &&& block->0.number == number
    &&& block->0.transactions@.len() <= u32::MAX
}

/// Joins what a node answered for the height `number` into the records of
/// that height. No partial block is ever handed on: where an answer is
/// missing, or the block is not the one that was asked for, there is no
/// result, and the height stays missing.
pub fn assemble_block(
    chain: &Chain,
    number: u32,
    block: &Option<RpcBlock>,
    receipts: &Option<Vec<RpcReceipt>>,
    traces: &Option<Vec<RpcTrace>>,
) -> (fetched: Option<FetchedBlock>)
    ensures
        fetched is Some <==> is_complete(number, *block, *receipts, *traces),
        fetched matches Some(f) ==> is_fetched_block(
            f,
            chain.id,
            block->0,
            receipts->0@,
            traces->0@,
        ),
{
    match (block, receipts, traces) {
        (Some(block), Some(receipts), Some(traces)) => {
            if block.number != number || block.transactions.len() > u32::MAX as usize {
                return None;
            }
            let (trace_records, contracts) = trace_rows(chain.id, block.number, traces);
            Some(
                FetchedBlock {
                    block: block_row(chain.id, block, receipts),
                    transactions: transaction_rows(chain.id, block, receipts, traces),
                    logs: placed_logs(chain.id, block, receipts),
                    traces: trace_records,
                    contracts,
                    withdrawals: withdrawal_rows(chain.id, block),
                },
            )
        },
        _ => None,
    }
}

/// `rows` holds a record with the hash of `tx`.
pub open spec fn has_record(rows: Seq<DatabaseTransaction>, tx: RpcTransaction) -> bool {
    exists|k: int| 0 <= k < rows.len() && (#[trigger] rows[k]).hash@ == hex_of(tx.hash@)
}

/// The transaction records of a block ascend by index, and every
/// transaction of the block has its record.
pub proof fn lemma_transactions_ascend(
    rows: Seq<DatabaseTransaction>,
    chain: u32,
    block: RpcBlock,
    receipts: Seq<RpcReceipt>,
    traces: Seq<RpcTrace>,
)
    requires
        are_transaction_rows(rows, chain, block, receipts, traces),
    ensures
        forall|i: int, j: int|
            0 <= i < j < rows.len() ==> (#[trigger] rows[i]).transaction_index <= (
            #[trigger] rows[j]).transaction_index,
        forall|t: int|
            0 <= t < block.transactions@.len() ==> has_record(
                rows,
                #[trigger] block.transactions@[t],
            ),
{
    let txs = block.transactions@;
    let keys = transaction_indexes(txs);
    let order = stable_order(keys);
    lemma_stable_order(keys, keys.len() as int);
    assert forall|i: int, j: int| 0 <= i < j < rows.len() implies (
    #[trigger] rows[i]).transaction_index <= (#[trigger] rows[j]).transaction_index by {
        assert(keys[order[i]] <= keys[order[j]]);
        assert(rows[i].transaction_index == txs[order[i]].transaction_index);
        assert(rows[j].transaction_index == txs[order[j]].transaction_index);
    }
    assert forall|t: int| 0 <= t < txs.len() implies has_record(rows, #[trigger] txs[t]) by {
        assert(order.contains(t));
        let k = choose|k: int| 0 <= k < order.len() && order[k] == t;
        assert(rows[k].hash@ == hex_of(txs[order[k]].hash@));
    }
}

/// Every record of a height carries the number of its block, and those
/// that carry a time carry the block's.
pub proof fn lemma_records_follow_their_block(
    fetched: FetchedBlock,
    chain: u32,
    block: RpcBlock,
    receipts: Seq<RpcReceipt>,
    traces: Seq<RpcTrace>,
)
    requires
        is_fetched_block(fetched, chain, block, receipts, traces),
    ensures
        forall|k: int|
            0 <= k < fetched.transactions@.len() ==> {
                let row = #[trigger] fetched.transactions@[k];
                row.block_number == fetched.block.number && row.timestamp
                    == fetched.block.timestamp && row.chain == fetched.block.chain
            },
        forall|k: int|
            0 <= k < fetched.logs@.len() ==> {
                let log = #[trigger] fetched.logs@[k];
                log.block_number == fetched.block.number && log.timestamp
                    == fetched.block.timestamp && log.chain == fetched.block.chain
            },
        forall|k: int|
            0 <= k < fetched.traces@.len() ==> {
                let row = #[trigger] fetched.traces@[k];
                row.block_number == fetched.block.number && row.chain == fetched.block.chain
            },
        forall|k: int|
            0 <= k < fetched.withdrawals@.len() ==> {
                let row = #[trigger] fetched.withdrawals@[k];
                row.block_number == fetched.block.number && row.timestamp
                    == fetched.block.timestamp && row.chain == fetched.block.chain
            },
{
}

} // verus!
