use satschain_indexer::chains::Chain;
use satschain_indexer::db::BlockFetchedData;
use satschain_indexer::rpc::assembler::{assemble_block, FetchedBlock};
use satschain_indexer::rpc::batch::build_batch;
use satschain_indexer::rpc::decoder::{transfer_batch_signature, transfer_signature};
use satschain_indexer::rpc::{RpcBlock, RpcLog, RpcReceipt, RpcTransaction};
use satschain_indexer::utils::u256::U256;

fn the_chain() -> Chain {
    Chain { id: 5, name: "test".to_string() }
}

fn padded(last: u8) -> [u8; 32] {
    let mut word = [0u8; 32];
    word[31] = last;
    word
}

fn numbers(values: &[u64]) -> Vec<u8> {
    let mut data = Vec::new();
    for v in values {
        let mut word = [0u8; 32];
        word[24..].copy_from_slice(&v.to_be_bytes());
        data.extend_from_slice(&word);
    }
    data
}

fn transaction(n: u8, index: u32) -> RpcTransaction {
    RpcTransaction {
        hash: [n; 32],
        transaction_index: index,
        from: [1; 20],
        to: Some([2; 20]),
        value: U256::zero(),
        gas: 21_000,
        gas_price: Some(1),
        max_fee_per_gas: None,
        max_priority_fee_per_gas: None,
        input: vec![],
        nonce: 0,
        transaction_type: 0,
    }
}

/// A block with two transactions; the first emits an ERC-20 transfer, an
/// ERC-721 transfer and a batch of two, the second another ERC-721
/// transfer.
fn fetch(number: u32) -> Option<FetchedBlock> {
    let n = number as u8;
    let erc20 = RpcLog {
        address: [0x20; 20],
        topics: vec![transfer_signature(), padded(1), padded(2)],
        data: numbers(&[100]),
        log_index: 0,
    };
    let erc721 = RpcLog {
        address: [0x72; 20],
        topics: vec![transfer_signature(), padded(1), padded(2), padded(9)],
        data: vec![],
        log_index: 1,
    };
    let batch = RpcLog {
        address: [0x55; 20],
        topics: vec![transfer_batch_signature(), padded(3), padded(1), padded(2)],
        data: numbers(&[0x40, 0xa0, 2, 1, 2, 2, 10, 20]),
        log_index: 2,
    };
    let other = RpcLog {
        address: [0x72; 20],
        topics: vec![transfer_signature(), padded(2), padded(1), padded(n)],
        data: vec![],
        log_index: 3,
    };
    let block = RpcBlock {
        number,
        hash: [n; 32],
        parent_hash: [0; 32],
        timestamp: 1_000 + number,
        miner: [0x33; 20],
        nonce: [0; 8],
        gas_limit: 30_000_000,
        gas_used: 42_000,
        base_fee_per_gas: Some(1),
        difficulty: U256::zero(),
        total_difficulty: None,
        size: 500,
        uncles: vec![],
        transactions: vec![transaction(n, 0), transaction(n + 100, 1)],
        withdrawals: vec![],
        is_uncle: false,
    };
    let receipts = vec![
        RpcReceipt {
            transaction_hash: [n; 32],
            status: Some(1),
            gas_used: Some(21_000),
            cumulative_gas_used: 21_000,
            effective_gas_price: Some(1),
            contract_address: None,
            logs: vec![erc20, erc721, batch],
        },
        RpcReceipt {
            transaction_hash: [n + 100; 32],
            status: Some(1),
            gas_used: Some(21_000),
            cumulative_gas_used: 42_000,
            effective_gas_price: Some(1),
            contract_address: None,
            logs: vec![other],
        },
    ];
    assemble_block(&the_chain(), number, &Some(block), &Some(receipts), &Some(vec![]))
}

fn tables(batch: &BlockFetchedData) -> Vec<String> {
    vec![
        format!("{:?}", batch.blocks),
        format!("{:?}", batch.contracts),
        format!("{:?}", batch.logs),
        format!("{:?}", batch.traces),
        format!("{:?}", batch.transactions),
        format!("{:?}", batch.withdrawals),
        format!("{:?}", batch.erc20_transfers),
        format!("{:?}", batch.erc721_transfers),
        format!("{:?}", batch.erc1155_transfers),
        format!("{:?}", batch.dex_trades),
    ]
}

#[test]
fn an_indexed_transfer_among_many_logs_gives_one_erc721_row() {
    let batch = build_batch(vec![fetch(1), None, fetch(2)]);
    assert_eq!(batch.logs.len(), 8);
    assert_eq!(batch.erc20_transfers.len(), 2);
    assert_eq!(batch.erc721_transfers.len(), 4);
    assert_eq!(batch.erc1155_transfers.len(), 4);
    // the ERC-721 log of the first transaction of block 2
    let hash = "02".repeat(32);
    let of_the_log: Vec<_> = batch
        .erc721_transfers
        .iter()
        .filter(|row| row.transaction_hash == hash && row.log_index == 1)
        .collect();
    assert_eq!(of_the_log.len(), 1);
    assert_eq!(of_the_log[0].id, U256::from_u64(9));
    assert_eq!(of_the_log[0].block_number, 2);
    assert_eq!(of_the_log[0].timestamp, 1_002);
    assert!(!batch
        .erc20_transfers
        .iter()
        .any(|row| row.transaction_hash == hash && row.log_index == 1));
    let written: Vec<_> = batch
        .logs
        .iter()
        .filter(|row| row.transaction_hash == hash && row.log_index == 1)
        .collect();
    assert_eq!(written.len(), 1);
    assert_eq!(written[0].topic3, Some(format!("{}09", "00".repeat(31))));
    // it is the third of the four ERC-721 rows: two such logs come before it
    assert_eq!(batch.erc721_transfers[2].transaction_hash, hash);
    assert_eq!(batch.erc721_transfers[2].log_index, 1);
}

#[test]
fn a_replayed_block_gives_the_same_batch() {
    let first = build_batch(vec![fetch(7)]);
    let second = build_batch(vec![fetch(7)]);
    assert_eq!(tables(&first), tables(&second));
    assert_eq!(first.blocks.len(), 1);
    assert_eq!(first.logs.len(), 4);
}

#[test]
fn one_block_batches_hold_the_rows_of_one_large_batch() {
    let whole = build_batch(vec![fetch(1), fetch(2), fetch(3)]);
    let mut joined = BlockFetchedData::new();
    for number in [1u32, 2, 3] {
        let mut small = build_batch(vec![fetch(number)]);
        assert_eq!(small.blocks.len(), 1);
        joined.blocks.append(&mut small.blocks);
        joined.contracts.append(&mut small.contracts);
        joined.logs.append(&mut small.logs);
        joined.traces.append(&mut small.traces);
        joined.transactions.append(&mut small.transactions);
        joined.withdrawals.append(&mut small.withdrawals);
        joined.erc20_transfers.append(&mut small.erc20_transfers);
        joined.erc721_transfers.append(&mut small.erc721_transfers);
        joined.erc1155_transfers.append(&mut small.erc1155_transfers);
        joined.dex_trades.append(&mut small.dex_trades);
    }
    assert_eq!(tables(&whole), tables(&joined));
    assert_eq!(whole.erc1155_transfers.len(), 6);
    // a split in two gives the same as well
    let mut left = build_batch(vec![fetch(1)]);
    let mut right = build_batch(vec![fetch(2), fetch(3)]);
    left.logs.append(&mut right.logs);
    assert_eq!(format!("{:?}", whole.logs), format!("{:?}", left.logs));
}
