use satschain_indexer::chains::{genesis_allocations, genesis_transaction, Chain, GenesisAllocation};
use satschain_indexer::db::models::trace::TraceType;
use satschain_indexer::db::models::transaction::TransactionStatus;
use satschain_indexer::rpc::assembler::{log_row, placed_log};
use satschain_indexer::rpc::batch::build_batch;
use satschain_indexer::rpc::RpcLog;
use satschain_indexer::utils::order::stable_ascending_order;
use satschain_indexer::utils::u256::U256;

#[test]
fn a_genesis_allocation_is_a_transfer_from_nobody() {
    let allocation = GenesisAllocation { recipient: [0xab; 20], value: U256::from_u64(100) };
    let row = genesis_transaction(9, &allocation);
    assert_eq!(row.chain, 9);
    assert_eq!(row.hash, format!("GENESIS_{}", "ab".repeat(20)));
    assert_eq!(row.block_number, 0);
    assert_eq!(row.transaction_index, 0);
    assert_eq!(row.from, "0000000000000000000000000000000000000000");
    assert_eq!(row.to, Some("ab".repeat(20)));
    assert_eq!(row.value, U256::from_u64(100));
    assert_eq!(row.status, TransactionStatus::Success);
    assert_eq!(row.input, "");
    assert_eq!(row.method, "");
    assert_eq!(row.gas, 0);
    assert_eq!(row.gas_used, None);
    assert_eq!(row.effective_transaction_fee, None);
    assert_eq!(row.contract_created, None);
    assert_eq!(row.timestamp, 0);
}

#[test]
fn allocations_keep_their_order() {
    let chain = Chain { id: 9, name: "test".to_string() };
    let rows = genesis_allocations(
        &chain,
        &vec![
            GenesisAllocation { recipient: [2; 20], value: U256::from_u64(200) },
            GenesisAllocation { recipient: [1; 20], value: U256::from_u64(100) },
        ],
    );
    assert_eq!(rows.len(), 2);
    assert_eq!(rows[0].to, Some("02".repeat(20)));
    assert_eq!(rows[0].value, U256::from_u64(200));
    assert_eq!(rows[1].to, Some("01".repeat(20)));
    assert_ne!(rows[0].hash, rows[1].hash);
    assert!(genesis_allocations(&chain, &vec![]).is_empty());
}

#[test]
fn a_log_row_is_the_log_in_hex() {
    let rpc = RpcLog {
        address: [0x7e; 20],
        topics: vec![[1; 32], [2; 32]],
        data: vec![0xde, 0xad],
        log_index: 4,
    };
    let log = placed_log(5, 77, 1_700_000_000, &[0x11; 32], &rpc);
    let row = log_row(&log);
    assert_eq!(row.chain, 5);
    assert_eq!(row.block_number, 77);
    assert_eq!(row.timestamp, 1_700_000_000);
    assert_eq!(row.transaction_hash, "11".repeat(32));
    assert_eq!(row.log_index, 4);
    assert_eq!(row.address, "7e".repeat(20));
    assert_eq!(row.topic0, Some("01".repeat(32)));
    assert_eq!(row.topic1, Some("02".repeat(32)));
    assert_eq!(row.topic2, None);
    assert_eq!(row.topic3, None);
    assert_eq!(row.data, "dead");
}

#[test]
fn an_empty_chunk_gives_an_empty_batch() {
    let batch = build_batch(vec![None, None]);
    assert!(batch.blocks.is_empty());
    assert!(batch.transactions.is_empty());
    assert!(batch.logs.is_empty());
    assert!(batch.dependent_tables().is_empty());
}

#[test]
fn positions_ascend_by_key_and_ties_keep_their_order() {
    assert_eq!(stable_ascending_order(&vec![]), Vec::<usize>::new());
    assert_eq!(stable_ascending_order(&vec![3, 1, 2]), vec![1, 2, 0]);
    assert_eq!(stable_ascending_order(&vec![1, 1, 0, 1]), vec![2, 0, 1, 3]);
    assert_eq!(stable_ascending_order(&vec![5, 4, 4, 5, 0]), vec![4, 1, 2, 0, 3]);
}

#[test]
fn trace_kinds_have_their_names() {
    assert_eq!(TraceType::Call.as_str(), "call");
    assert_eq!(TraceType::CallCode.as_str(), "callcode");
    assert_eq!(TraceType::DelegateCall.as_str(), "delegatecall");
    assert_eq!(TraceType::StaticCall.as_str(), "staticcall");
    assert_eq!(TraceType::Create.as_str(), "create");
    assert_eq!(TraceType::Suicide.as_str(), "suicide");
    assert_eq!(TraceType::Reward.as_str(), "reward");
}

#[test]
fn a_status_is_stored_as_the_code_of_its_receipt() {
    assert_eq!(TransactionStatus::Success.code(), Some(1));
    assert_eq!(TransactionStatus::Failure.code(), Some(0));
    assert_eq!(TransactionStatus::Unknown.code(), None);
    assert_eq!(TransactionStatus::from_code(Some(1)), TransactionStatus::Success);
    assert_eq!(TransactionStatus::from_code(Some(0)), TransactionStatus::Failure);
    assert_eq!(TransactionStatus::from_code(Some(7)), TransactionStatus::Failure);
    assert_eq!(TransactionStatus::from_code(None), TransactionStatus::Unknown);
}
