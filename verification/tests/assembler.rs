use satschain_indexer::chains::Chain;
use satschain_indexer::db::models::trace::TraceType;
use satschain_indexer::db::models::transaction::TransactionStatus;
use satschain_indexer::rpc::assembler::{
    assemble_block, block_totals, burned, copy_bytes, created_contract, fee, find_created,
    find_receipt, method, same_bytes,
};
use satschain_indexer::rpc::{
    RpcBlock, RpcCreated, RpcLog, RpcReceipt, RpcTrace, RpcTransaction, RpcWithdrawal,
};
use satschain_indexer::utils::u256::U256;

fn chain() -> Chain {
    Chain { id: 5, name: "test".to_string() }
}

fn hash(n: u8) -> [u8; 32] {
    [n; 32]
}

fn address(n: u8) -> [u8; 20] {
    [n; 20]
}

fn tx(n: u8, index: u32) -> RpcTransaction {
    RpcTransaction {
        hash: hash(n),
        transaction_index: index,
        from: address(0x0a),
        to: Some(address(0x0b)),
        value: U256::from_u64(1_000),
        gas: 21_000,
        gas_price: Some(2_000_000_000),
        max_fee_per_gas: None,
        max_priority_fee_per_gas: None,
        input: vec![0xa9, 0x05, 0x9c, 0xbb, 0x00, 0x01],
        nonce: 4,
        transaction_type: 2,
    }
}

fn receipt(n: u8, status: Option<u64>) -> RpcReceipt {
    RpcReceipt {
        transaction_hash: hash(n),
        status,
        gas_used: Some(21_000),
        cumulative_gas_used: 42_000,
        effective_gas_price: Some(2_000_000_000),
        contract_address: None,
        logs: vec![],
    }
}

fn block(number: u32, transactions: Vec<RpcTransaction>) -> RpcBlock {
    RpcBlock {
        number,
        hash: hash(0xb1),
        parent_hash: hash(0xb0),
        timestamp: 1_700_000_000,
        miner: address(0x33),
        nonce: [0, 0, 0, 0, 0, 0, 0, 0x2a],
        gas_limit: 30_000_000,
        gas_used: 63_000,
        base_fee_per_gas: Some(1_000_000_000),
        difficulty: U256::from_u64(2),
        total_difficulty: Some(U256::from_u64(200)),
        size: 1234,
        uncles: vec![hash(0xc1)],
        transactions,
        withdrawals: vec![],
        is_uncle: false,
    }
}

fn a_log(index: u32) -> RpcLog {
    RpcLog { address: address(0x7e), topics: vec![hash(0x01)], data: vec![1, 2, 3], log_index: index }
}

#[test]
fn a_block_without_transactions_gives_a_block_row_alone() {
    let fetched =
        assemble_block(&chain(), 9, &Some(block(9, vec![])), &Some(vec![]), &Some(vec![])).unwrap();
    assert_eq!(fetched.block.number, 9);
    assert_eq!(fetched.block.chain, 5);
    assert_eq!(fetched.block.transactions, 0);
    assert_eq!(fetched.block.hash, "b1".repeat(32));
    assert_eq!(fetched.block.parent_hash, "b0".repeat(32));
    assert_eq!(fetched.block.miner, "33".repeat(20));
    assert_eq!(fetched.block.nonce, "000000000000002a");
    assert_eq!(fetched.block.uncles, vec!["c1".repeat(32)]);
    assert_eq!(fetched.block.timestamp, 1_700_000_000);
    assert_eq!(fetched.block.total_fee_reward, U256::zero());
    assert_eq!(fetched.block.burned, U256::zero());
    assert!(!fetched.block.is_uncle);
    assert!(fetched.transactions.is_empty());
    assert!(fetched.logs.is_empty());
    assert!(fetched.traces.is_empty());
    assert!(fetched.contracts.is_empty());
    assert!(fetched.withdrawals.is_empty());
}

#[test]
fn a_failed_sub_call_gives_no_block() {
    let b = Some(block(9, vec![]));
    let none_block: Option<RpcBlock> = None;
    let none_receipts: Option<Vec<RpcReceipt>> = None;
    let none_traces: Option<Vec<RpcTrace>> = None;
    assert!(assemble_block(&chain(), 9, &none_block, &Some(vec![]), &Some(vec![])).is_none());
    assert!(assemble_block(&chain(), 9, &b, &none_receipts, &Some(vec![])).is_none());
    assert!(assemble_block(&chain(), 9, &b, &Some(vec![]), &none_traces).is_none());
}

#[test]
fn a_block_of_another_height_is_not_the_block() {
    let b = Some(block(10, vec![]));
    assert!(assemble_block(&chain(), 9, &b, &Some(vec![]), &Some(vec![])).is_none());
}

#[test]
fn transactions_are_joined_with_their_receipts_and_ordered_by_index() {
    let b = block(9, vec![tx(3, 2), tx(1, 0), tx(2, 1)]);
    let receipts = vec![receipt(1, Some(1)), receipt(3, Some(0)), receipt(2, None)];
    let fetched = assemble_block(&chain(), 9, &Some(b), &Some(receipts), &Some(vec![])).unwrap();
    let rows = &fetched.transactions;
    assert_eq!(rows.len(), 3);
    assert_eq!(rows[0].transaction_index, 0);
    assert_eq!(rows[1].transaction_index, 1);
    assert_eq!(rows[2].transaction_index, 2);
    assert_eq!(rows[0].hash, "01".repeat(32));
    assert_eq!(rows[1].hash, "02".repeat(32));
    assert_eq!(rows[2].hash, "03".repeat(32));
    assert_eq!(rows[0].status, TransactionStatus::Success);
    assert_eq!(rows[1].status, TransactionStatus::Unknown);
    assert_eq!(rows[2].status, TransactionStatus::Failure);
    let row = &rows[0];
    assert_eq!(row.chain, 5);
    assert_eq!(row.block_number, 9);
    assert_eq!(row.timestamp, 1_700_000_000);
    assert_eq!(row.from, "0a".repeat(20));
    assert_eq!(row.to, Some("0b".repeat(20)));
    assert_eq!(row.value, U256::from_u64(1_000));
    assert_eq!(row.gas, 21_000);
    assert_eq!(row.gas_price, Some(2_000_000_000));
    assert_eq!(row.base_fee_per_gas, Some(1_000_000_000));
    assert_eq!(row.input, "a9059cbb0001");
    assert_eq!(row.method, "a9059cbb");
    assert_eq!(row.nonce, 4);
    assert_eq!(row.transaction_type, 2);
    assert_eq!(row.gas_used, Some(21_000));
    assert_eq!(row.cumulative_gas_used, 42_000);
    assert_eq!(row.effective_transaction_fee, Some(U256::from_u64(42_000_000_000_000)));
    assert_eq!(row.burned, Some(U256::from_u64(21_000_000_000_000)));
    assert_eq!(row.contract_created, None);
    assert_eq!(fetched.block.transactions, 3);
    assert_eq!(fetched.block.total_fee_reward, U256::from_u64(126_000_000_000_000));
    assert_eq!(fetched.block.burned, U256::from_u64(63_000_000_000_000));
}

#[test]
fn equal_indexes_keep_the_order_of_the_block() {
    let b = block(9, vec![tx(7, 1), tx(5, 0), tx(6, 1)]);
    let fetched = assemble_block(&chain(), 9, &Some(b), &Some(vec![]), &Some(vec![])).unwrap();
    let hashes: Vec<String> = fetched.transactions.iter().map(|t| t.hash.clone()).collect();
    assert_eq!(hashes, vec!["05".repeat(32), "07".repeat(32), "06".repeat(32)]);
}

#[test]
fn a_transaction_without_receipt_has_unknown_status_and_no_fee() {
    let b = block(9, vec![tx(1, 0)]);
    let fetched = assemble_block(&chain(), 9, &Some(b), &Some(vec![]), &Some(vec![])).unwrap();
    let row = &fetched.transactions[0];
    assert_eq!(row.status, TransactionStatus::Unknown);
    assert_eq!(row.gas_used, None);
    assert_eq!(row.cumulative_gas_used, 0);
    assert_eq!(row.effective_transaction_fee, None);
    assert_eq!(row.burned, None);
    assert_eq!(fetched.block.total_fee_reward, U256::zero());
}

#[test]
fn a_creation_sets_the_created_contract() {
    let mut creation = tx(1, 0);
    creation.to = None;
    creation.input = vec![0x60, 0x80];
    let mut r = receipt(1, Some(1));
    r.contract_address = Some(address(0xcc));
    let mut plain = receipt(2, Some(1));
    plain.contract_address = Some(address(0xdd));
    let b = block(9, vec![creation, tx(2, 1)]);
    let fetched = assemble_block(&chain(), 9, &Some(b), &Some(vec![r, plain]), &Some(vec![])).unwrap();
    assert_eq!(fetched.transactions[0].to, None);
    assert_eq!(fetched.transactions[0].contract_created, Some("cc".repeat(20)));
    assert_eq!(fetched.transactions[0].method, "");
    assert_eq!(fetched.transactions[1].contract_created, None);
}

#[test]
fn fee_and_burned_need_both_factors() {
    assert_eq!(fee(Some(21_000), Some(3)), Some(U256::from_u64(63_000)));
    assert_eq!(fee(None, Some(3)), None);
    assert_eq!(fee(Some(21_000), None), None);
    assert_eq!(burned(Some(10), Some(7)), Some(U256::from_u64(70)));
    assert_eq!(burned(Some(10), None), None);
    assert_eq!(burned(None, Some(7)), None);
    assert_eq!(
        fee(Some(u64::MAX), Some(u128::MAX)),
        Some(U256 { w3: 0, w2: u64::MAX - 1, w1: u64::MAX, w0: 1 })
    );
}

#[test]
fn the_method_is_the_first_four_bytes() {
    assert_eq!(method(&vec![]), "");
    assert_eq!(method(&vec![1, 2, 3]), "");
    assert_eq!(method(&vec![1, 2, 3, 4]), "01020304");
    assert_eq!(method(&vec![0xde, 0xad, 0xbe, 0xef, 9, 9]), "deadbeef");
}

#[test]
fn logs_follow_receipts_and_keep_their_place() {
    let b = block(9, vec![tx(1, 0), tx(2, 1)]);
    let mut first = receipt(1, Some(1));
    first.logs = vec![a_log(0), a_log(1)];
    let mut second = receipt(2, Some(1));
    second.logs = vec![a_log(2)];
    let fetched =
        assemble_block(&chain(), 9, &Some(b), &Some(vec![first, second]), &Some(vec![])).unwrap();
    assert_eq!(fetched.logs.len(), 3);
    assert_eq!(fetched.logs[0].transaction_hash, hash(1));
    assert_eq!(fetched.logs[1].transaction_hash, hash(1));
    assert_eq!(fetched.logs[2].transaction_hash, hash(2));
    assert_eq!(fetched.logs[1].log_index, 1);
    assert_eq!(fetched.logs[2].log_index, 2);
    let log = &fetched.logs[0];
    assert_eq!(log.chain, 5);
    assert_eq!(log.block_number, 9);
    assert_eq!(log.timestamp, 1_700_000_000);
    assert_eq!(log.address, address(0x7e));
    assert_eq!(log.topics, vec![hash(0x01)]);
    assert_eq!(log.data, vec![1, 2, 3]);
}

fn trace(kind: TraceType) -> RpcTrace {
    RpcTrace {
        transaction_hash: Some(hash(1)),
        trace_address: vec![0, 1],
        call_type: kind,
        from: address(0x0a),
        to: Some(address(0x0b)),
        value: U256::from_u64(5),
        gas: 100,
        gas_used: 60,
        input: vec![0xab],
        output: vec![0xcd],
        error: None,
        created: None,
    }
}

#[test]
fn traces_give_trace_rows_and_creations_give_contracts() {
    let call = trace(TraceType::Call);
    let mut create = trace(TraceType::Create);
    create.to = None;
    create.created = Some(RpcCreated { address: address(0xcc), code: vec![0x60, 0x00] });
    let mut failed = trace(TraceType::Create);
    failed.error = Some("out of gas".to_string());
    failed.created = Some(RpcCreated { address: address(0xdd), code: vec![] });
    let empty = trace(TraceType::Create);
    let mut reward = trace(TraceType::Reward);
    reward.transaction_hash = None;
    let fetched = assemble_block(
        &chain(),
        9,
        &Some(block(9, vec![])),
        &Some(vec![]),
        &Some(vec![call, create, failed, empty, reward]),
    )
    .unwrap();
    assert_eq!(fetched.traces.len(), 5);
    let row = &fetched.traces[0];
    assert_eq!(row.chain, 5);
    assert_eq!(row.block_number, 9);
    assert_eq!(row.transaction_hash, "01".repeat(32));
    assert_eq!(row.trace_address, vec![0, 1]);
    assert_eq!(row.call_type, TraceType::Call);
    assert_eq!(row.from, "0a".repeat(20));
    assert_eq!(row.to, "0b".repeat(20));
    assert_eq!(row.value, U256::from_u64(5));
    assert_eq!(row.input, "ab");
    assert_eq!(row.output, "cd");
    assert_eq!(row.gas, 100);
    assert_eq!(row.gas_used, 60);
    assert_eq!(row.error, None);
    assert_eq!(fetched.traces[1].to, "");
    assert_eq!(fetched.traces[2].error, Some("out of gas".to_string()));
    assert_eq!(fetched.traces[4].transaction_hash, "");
    assert_eq!(fetched.contracts.len(), 1);
    let contract = &fetched.contracts[0];
    assert_eq!(contract.chain, 5);
    assert_eq!(contract.address, "cc".repeat(20));
    assert_eq!(contract.creator_transaction_hash, "01".repeat(32));
    assert_eq!(contract.bytecode, "6000");
}

#[test]
fn withdrawals_are_carried_over() {
    let mut b = block(9, vec![]);
    b.withdrawals = vec![RpcWithdrawal {
        index: 11,
        validator_index: 22,
        address: address(0x44),
        amount: 32_000_000_000,
    }];
    let fetched = assemble_block(&chain(), 9, &Some(b), &Some(vec![]), &Some(vec![])).unwrap();
    assert_eq!(fetched.withdrawals.len(), 1);
    let row = &fetched.withdrawals[0];
    assert_eq!(row.chain, 5);
    assert_eq!(row.block_number, 9);
    assert_eq!(row.index, 11);
    assert_eq!(row.validator_index, 22);
    assert_eq!(row.address, "44".repeat(20));
    assert_eq!(row.amount, 32_000_000_000);
    assert_eq!(row.timestamp, 1_700_000_000);
}

#[test]
fn an_uncle_keeps_its_mark() {
    let mut b = block(50, vec![]);
    b.is_uncle = true;
    let fetched = assemble_block(&chain(), 50, &Some(b), &Some(vec![]), &Some(vec![])).unwrap();
    assert!(fetched.block.is_uncle);
}

#[test]
fn assembling_twice_gives_the_same_rows() {
    let b = Some(block(9, vec![tx(3, 2), tx(1, 0)]));
    let mut r = receipt(1, Some(1));
    r.logs = vec![a_log(0)];
    let receipts = Some(vec![r]);
    let traces = Some(vec![trace(TraceType::Call)]);
    let first = assemble_block(&chain(), 9, &b, &receipts, &traces).unwrap();
    let second = assemble_block(&chain(), 9, &b, &receipts, &traces).unwrap();
    assert_eq!(format!("{:?}", first), format!("{:?}", second));
}

#[test]
fn helpers_find_and_copy() {
    let receipts = vec![receipt(1, None), receipt(2, None), receipt(1, Some(1))];
    assert_eq!(find_receipt(&receipts, &hash(1)), Some(0));
    assert_eq!(find_receipt(&receipts, &hash(2)), Some(1));
    assert_eq!(find_receipt(&receipts, &hash(3)), None);
    assert!(same_bytes(&[1, 2], &[1, 2]));
    assert!(!same_bytes(&[1, 2], &[1, 3]));
    assert!(!same_bytes(&[1, 2], &[1]));
    assert_eq!(copy_bytes(&vec![9, 8]), vec![9, 8]);
    let totals = block_totals(&vec![tx(1, 0), tx(2, 1)], &vec![receipt(2, Some(1))], None);
    assert_eq!(totals.0, U256::from_u64(42_000_000_000_000));
    assert_eq!(totals.1, U256::zero());
}

#[test]
fn a_creating_trace_names_the_contract_where_the_receipt_does_not() {
    let mut creation = tx(1, 0);
    creation.to = None;
    let mut create = trace(TraceType::Create);
    create.to = None;
    create.created = Some(RpcCreated { address: address(0xee), code: vec![0x60] });
    let mut other = trace(TraceType::Create);
    other.transaction_hash = Some(hash(2));
    other.created = Some(RpcCreated { address: address(0xdd), code: vec![] });
    let mut failed = trace(TraceType::Create);
    failed.error = Some("reverted".to_string());
    failed.created = Some(RpcCreated { address: address(0xcc), code: vec![] });
    let traces = vec![trace(TraceType::Call), other, failed, create];
    // no receipt at all
    let b = block(9, vec![creation.clone(), tx(2, 1)]);
    let fetched =
        assemble_block(&chain(), 9, &Some(b), &Some(vec![]), &Some(traces.clone())).unwrap();
    assert_eq!(fetched.transactions[0].contract_created, Some("ee".repeat(20)));
    // a transaction with a recipient created nothing itself
    assert_eq!(fetched.transactions[1].contract_created, None);
    // a receipt without an address
    let b = block(9, vec![creation.clone()]);
    let fetched = assemble_block(
        &chain(),
        9,
        &Some(b),
        &Some(vec![receipt(1, Some(1))]),
        &Some(traces.clone()),
    )
    .unwrap();
    assert_eq!(fetched.transactions[0].contract_created, Some("ee".repeat(20)));
    // the receipt goes before the traces
    let mut named = receipt(1, Some(1));
    named.contract_address = Some(address(0xab));
    let b = block(9, vec![creation.clone()]);
    let fetched =
        assemble_block(&chain(), 9, &Some(b), &Some(vec![named]), &Some(traces.clone())).unwrap();
    assert_eq!(fetched.transactions[0].contract_created, Some("ab".repeat(20)));
    assert_eq!(find_created(&traces, &hash(1)), Some(address(0xee)));
    assert_eq!(find_created(&traces, &hash(2)), Some(address(0xdd)));
    assert_eq!(find_created(&traces, &hash(3)), None);
    assert_eq!(created_contract(&creation, None, &traces), Some(address(0xee)));
    assert_eq!(created_contract(&tx(1, 0), None, &traces), None);
}
