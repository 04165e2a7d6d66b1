use satschain_indexer::chains::{genesis_allocations, Chain, GenesisAllocation};
use satschain_indexer::configs::{Config, Settings};
use satschain_indexer::db::models::block::DatabaseBlock;
use satschain_indexer::db::models::transaction::{DatabaseTransaction, TransactionStatus};
use satschain_indexer::db::store::{InsertResult, StoreAction, StoreData, StoreEvent};
use satschain_indexer::db::tracker::Tracker;
use satschain_indexer::db::{BlockFetchedData, DatabaseTables};
use satschain_indexer::rpc::assembler::{assemble_block, FetchedBlock};
use satschain_indexer::rpc::backfill::{accept, Backfill, SyncAction, SyncEvent, SyncPhase};
use satschain_indexer::rpc::batch::build_batch;
use satschain_indexer::rpc::decoder::transfer_signature;
use satschain_indexer::rpc::sync::{chunk, chunks, missing_blocks, target_block};
use satschain_indexer::rpc::{RpcBlock, RpcLog, RpcReceipt, RpcTrace, RpcTransaction};
use satschain_indexer::utils::u256::U256;

fn chain() -> Chain {
    Chain { id: 5, name: "test".to_string() }
}

fn config(start_block: u32, end_block: i64, batch_size: usize) -> Config {
    Config::new(
        chain(),
        Settings {
            rpc_http_url: "http://node".to_string(),
            ws_url: None,
            db_host: "http://store".to_string(),
            db_username: "user".to_string(),
            db_password: "SECRET-REDACTED".to_string(),
            db_name: "chain".to_string(),
            start_block: Some(start_block),
            end_block: Some(end_block),
            batch_size: Some(batch_size),
            new_blocks_only: None,
            debug: None,
            explorer_server_host: None,
            explorer_server_port: None,
        },
    )
}

fn rpc_block(number: u32, is_uncle: bool) -> RpcBlock {
    RpcBlock {
        number,
        hash: [number as u8; 32],
        parent_hash: [0; 32],
        timestamp: 1_000 + number,
        miner: [0x33; 20],
        nonce: [0; 8],
        gas_limit: 30_000_000,
        gas_used: 0,
        base_fee_per_gas: None,
        difficulty: U256::zero(),
        total_difficulty: None,
        size: 500,
        uncles: vec![],
        transactions: vec![],
        withdrawals: vec![],
        is_uncle,
    }
}

fn fetch(number: u32) -> Option<FetchedBlock> {
    assemble_block(&chain(), number, &Some(rpc_block(number, false)), &Some(vec![]), &Some(vec![]))
}

fn fetch_uncle(number: u32) -> Option<FetchedBlock> {
    assemble_block(&chain(), number, &Some(rpc_block(number, true)), &Some(vec![]), &Some(vec![]))
}

/// A store that keeps what it is given, and fails where it is told to.
struct Store {
    blocks: Vec<DatabaseBlock>,
    transactions: Vec<DatabaseTransaction>,
    failing: Option<DatabaseTables>,
    attempted: Vec<DatabaseTables>,
}

impl Store {
    fn new() -> Store {
        Store { blocks: vec![], transactions: vec![], failing: None, attempted: vec![] }
    }

    fn insert(&mut self, batch: &BlockFetchedData, table: DatabaseTables) -> bool {
        self.attempted.push(table);
        if self.failing == Some(table) {
            return false;
        }
        match table {
            DatabaseTables::Blocks => self.blocks.extend(batch.blocks.iter().cloned()),
            DatabaseTables::Transactions => {
                self.transactions.extend(batch.transactions.iter().cloned())
            }
            _ => {}
        }
        true
    }

    /// Runs the store of one batch as the machine directs it.
    fn store(&mut self, batch: &BlockFetchedData) -> bool {
        let mut machine = StoreData::new();
        let mut event = StoreEvent::Begin;
        loop {
            match machine.step(batch, &event) {
                StoreAction::InsertDependents => {
                    let mut results = vec![];
                    for table in batch.dependent_tables() {
                        let ok = self.insert(batch, table);
                        results.push(InsertResult { table, ok });
                    }
                    event = StoreEvent::DependentsDone(results);
                }
                StoreAction::InsertBlocks => {
                    let ok = self.insert(batch, DatabaseTables::Blocks);
                    event = StoreEvent::BlocksDone(ok);
                }
                StoreAction::Finish => return true,
                StoreAction::Abort => return false,
                StoreAction::Wait => panic!("the store got an event out of turn"),
            }
        }
    }
}

fn allocations() -> Vec<GenesisAllocation> {
    vec![
        GenesisAllocation { recipient: [0x0a; 20], value: U256::from_u64(100) },
        GenesisAllocation { recipient: [0x0b; 20], value: U256::from_u64(200) },
    ]
}

#[test]
fn genesis_bootstrap() {
    let config = config(0, 0, 200);
    let mut tracker = Tracker::load(&vec![]);
    let mut store = Store::new();
    let mut backfill = Backfill::new();

    let action = backfill.step(&config, &mut tracker, SyncEvent::Wake);
    assert!(matches!(action, SyncAction::WriteGenesis));
    let mut genesis = BlockFetchedData::new();
    genesis.transactions = genesis_allocations(&config.chain, &allocations());
    let ok = store.store(&genesis);
    assert!(ok);

    let action = backfill.step(&config, &mut tracker, SyncEvent::GenesisStored(ok));
    assert!(matches!(action, SyncAction::AskTip));
    let action = backfill.step(&config, &mut tracker, SyncEvent::Tip(Some(3)));
    let asked = match action {
        SyncAction::Fetch(blocks) => blocks,
        _ => panic!("three blocks are missing"),
    };
    assert_eq!(asked, vec![0, 1, 2]);
    let results: Vec<Option<FetchedBlock>> = asked.iter().map(|n| fetch(*n)).collect();
    let action = backfill.step(&config, &mut tracker, SyncEvent::Fetched(results));
    let batch = match action {
        SyncAction::Store(batch) => batch,
        _ => panic!("what was fetched is stored"),
    };
    assert!(store.store(&batch));
    assert!(tracker.is_empty());
    let action = backfill.step(&config, &mut tracker, SyncEvent::Stored(true));
    assert!(matches!(action, SyncAction::Sleep));

    assert_eq!(store.transactions.len(), 2);
    for row in &store.transactions {
        assert_eq!(row.from, "00".repeat(20));
        assert_eq!(row.block_number, 0);
        assert_eq!(row.status, TransactionStatus::Success);
        assert_eq!(row.input, "");
    }
    assert_eq!(store.transactions[0].to, Some("0a".repeat(20)));
    assert_eq!(store.transactions[0].value, U256::from_u64(100));
    assert_eq!(store.transactions[0].hash, format!("GENESIS_{}", "0a".repeat(20)));
    assert_eq!(store.transactions[1].to, Some("0b".repeat(20)));
    assert_eq!(store.transactions[1].value, U256::from_u64(200));
    let numbers: Vec<u32> = store.blocks.iter().map(|b| b.number).collect();
    assert_eq!(numbers, vec![0, 1, 2]);
    assert_eq!(tracker.len(), 3);
    assert!(tracker.contains(0) && tracker.contains(1) && tracker.contains(2));

    // the next pass finds block 0 indexed and does not write the genesis again
    let action = backfill.step(&config, &mut tracker, SyncEvent::Wake);
    assert!(matches!(action, SyncAction::AskTip));
    let action = backfill.step(&config, &mut tracker, SyncEvent::Tip(Some(3)));
    assert!(matches!(action, SyncAction::Sleep));
    assert_eq!(backfill.phase(), SyncPhase::Idle);
    assert_eq!(store.transactions.len(), 2);
}

#[test]
fn non_block_write_failure() {
    let mut store = Store::new();
    store.failing = Some(DatabaseTables::Logs);
    let tracker = Tracker::load(&vec![1, 2]);
    let log = RpcLog {
        address: [0x7e; 20],
        topics: vec![transfer_signature(), [1; 32], [2; 32]],
        data: vec![0; 32],
        log_index: 0,
    };
    let mut block = rpc_block(100, false);
    block.transactions = vec![RpcTransaction {
        hash: [9; 32],
        transaction_index: 0,
        from: [1; 20],
        to: Some([2; 20]),
        value: U256::zero(),
        gas: 0,
        gas_price: None,
        max_fee_per_gas: None,
        max_priority_fee_per_gas: None,
        input: vec![],
        nonce: 0,
        transaction_type: 0,
    }];
    let receipt = RpcReceipt {
        transaction_hash: [9; 32],
        status: Some(1),
        gas_used: None,
        cumulative_gas_used: 0,
        effective_gas_price: None,
        contract_address: None,
        logs: vec![log],
    };
    let traces: Vec<RpcTrace> = vec![];
    let fetched = assemble_block(&chain(), 100, &Some(block), &Some(vec![receipt]), &Some(traces));
    let batch = build_batch(vec![fetched]);
    assert_eq!(batch.logs.len(), 1);
    assert_eq!(batch.erc20_transfers.len(), 1);
    assert!(!store.store(&batch));
    assert!(!store.attempted.contains(&DatabaseTables::Blocks));
    assert!(store.blocks.is_empty());

    // the coordinator ends the run with a failure and indexes nothing
    let config = config(100, 101, 10);
    let mut tracker = tracker;
    let mut backfill = Backfill::new();
    let action = backfill.step(&config, &mut tracker, SyncEvent::Wake);
    assert!(matches!(action, SyncAction::Fetch(_)));
    let action = backfill.step(&config, &mut tracker, SyncEvent::Fetched(vec![fetch(100)]));
    assert!(matches!(action, SyncAction::Store(_)));
    let action = backfill.step(&config, &mut tracker, SyncEvent::Stored(false));
    assert!(matches!(action, SyncAction::Exit(1)));
    assert_eq!(backfill.phase(), SyncPhase::Exited);
    assert_eq!(tracker.len(), 2);
    assert!(!tracker.contains(100));
    let action = backfill.step(&config, &mut tracker, SyncEvent::Wake);
    assert!(matches!(action, SyncAction::Wait));
}

#[test]
fn partial_chunk_failure() {
    let config = config(100, 103, 3);
    let mut tracker = Tracker::load(&vec![42]);
    let mut store = Store::new();
    let mut backfill = Backfill::new();
    let action = backfill.step(&config, &mut tracker, SyncEvent::Wake);
    let asked = match action {
        SyncAction::Fetch(blocks) => blocks,
        _ => panic!("three blocks are missing"),
    };
    assert_eq!(asked, vec![100, 101, 102]);
    let results = vec![fetch(100), None, fetch(102)];
    let action = backfill.step(&config, &mut tracker, SyncEvent::Fetched(results));
    let batch = match action {
        SyncAction::Store(batch) => batch,
        _ => panic!("what was fetched is stored"),
    };
    let numbers: Vec<u32> = batch.blocks.iter().map(|b| b.number).collect();
    assert_eq!(numbers, vec![100, 102]);
    assert!(store.store(&batch));
    let action = backfill.step(&config, &mut tracker, SyncEvent::Stored(true));
    assert!(matches!(action, SyncAction::Sleep));
    assert_eq!(tracker.len(), 3);
    assert!(tracker.contains(42) && tracker.contains(100) && tracker.contains(102));
    assert!(!tracker.contains(101));
    assert_eq!(missing_blocks(100, 103, &tracker), vec![101]);
    let action = backfill.step(&config, &mut tracker, SyncEvent::Wake);
    match action {
        SyncAction::Fetch(blocks) => assert_eq!(blocks, vec![101]),
        _ => panic!("block 101 is still missing"),
    }
}

#[test]
fn uncle_handling() {
    let config = config(50, 51, 10);
    let mut tracker = Tracker::load(&vec![1]);
    let mut store = Store::new();
    let mut backfill = Backfill::new();
    let action = backfill.step(&config, &mut tracker, SyncEvent::Wake);
    assert!(matches!(action, SyncAction::Fetch(_)));
    let action = backfill.step(&config, &mut tracker, SyncEvent::Fetched(vec![fetch_uncle(50)]));
    let batch = match action {
        SyncAction::Store(batch) => batch,
        _ => panic!("what was fetched is stored"),
    };
    assert!(store.store(&batch));
    assert_eq!(store.blocks.len(), 1);
    assert!(store.blocks[0].is_uncle);
    backfill.step(&config, &mut tracker, SyncEvent::Stored(true));
    assert!(!tracker.contains(50));
    assert_eq!(tracker.len(), 1);
    assert_eq!(missing_blocks(50, 51, &tracker), vec![50]);
    // the warm-up of a later run leaves the uncle out as well
    let mut later = Tracker::load(&vec![1]);
    later.record(&store.blocks);
    assert!(!later.contains(50));
    match backfill.step(&config, &mut tracker, SyncEvent::Wake) {
        SyncAction::Fetch(blocks) => assert_eq!(blocks, vec![50]),
        _ => panic!("the uncle is fetched again"),
    }
}

#[test]
fn an_unbounded_pass_with_nothing_missing_sleeps() {
    let config = config(0, 0, 10);
    let mut tracker = Tracker::load(&vec![0, 1, 2]);
    let mut backfill = Backfill::new();
    assert!(matches!(backfill.step(&config, &mut tracker, SyncEvent::Wake), SyncAction::AskTip));
    assert_eq!(backfill.phase(), SyncPhase::Tip);
    let action = backfill.step(&config, &mut tracker, SyncEvent::Tip(Some(3)));
    assert!(matches!(action, SyncAction::Sleep));
    assert_eq!(backfill.phase(), SyncPhase::Idle);
    assert_eq!(backfill.missing_count(), 0);
    // and it tries again at the next wake
    assert!(matches!(backfill.step(&config, &mut tracker, SyncEvent::Wake), SyncAction::AskTip));
}

#[test]
fn a_bounded_pass_with_nothing_missing_exits_with_zero() {
    let config = config(0, 3, 10);
    let mut tracker = Tracker::load(&vec![0, 1, 2]);
    let mut backfill = Backfill::new();
    let action = backfill.step(&config, &mut tracker, SyncEvent::Wake);
    assert!(matches!(action, SyncAction::Exit(0)));
    assert_eq!(backfill.phase(), SyncPhase::Exited);
}

#[test]
fn an_end_of_minus_one_follows_the_tip_like_zero() {
    let config = config(0, -1, 10);
    let mut tracker = Tracker::load(&vec![0]);
    let mut backfill = Backfill::new();
    assert!(matches!(backfill.step(&config, &mut tracker, SyncEvent::Wake), SyncAction::AskTip));
    let action = backfill.step(&config, &mut tracker, SyncEvent::Tip(Some(1)));
    assert!(matches!(action, SyncAction::Sleep));
}

#[test]
fn a_tip_that_cannot_be_had_is_tried_again_later() {
    let config = config(0, 0, 10);
    let mut tracker = Tracker::load(&vec![0]);
    let mut backfill = Backfill::new();
    backfill.step(&config, &mut tracker, SyncEvent::Wake);
    let action = backfill.step(&config, &mut tracker, SyncEvent::Tip(None));
    assert!(matches!(action, SyncAction::Sleep));
    assert_eq!(backfill.phase(), SyncPhase::Idle);
}

#[test]
fn new_blocks_only_skips_the_backfill() {
    let mut config = config(0, 0, 10);
    config.new_blocks_only = true;
    let mut tracker = Tracker::new();
    let mut backfill = Backfill::new();
    let action = backfill.step(&config, &mut tracker, SyncEvent::Wake);
    assert!(matches!(action, SyncAction::Sleep));
    assert_eq!(backfill.phase(), SyncPhase::Idle);
}

#[test]
fn a_failed_genesis_write_ends_the_run() {
    let config = config(0, 0, 10);
    let mut tracker = Tracker::new();
    let mut backfill = Backfill::new();
    assert!(matches!(
        backfill.step(&config, &mut tracker, SyncEvent::Wake),
        SyncAction::WriteGenesis
    ));
    assert_eq!(backfill.phase(), SyncPhase::Genesis);
    let action = backfill.step(&config, &mut tracker, SyncEvent::GenesisStored(false));
    assert!(matches!(action, SyncAction::Exit(1)));
}

#[test]
fn a_batch_size_of_one_stores_each_block_alone() {
    let config = config(10, 13, 1);
    let mut tracker = Tracker::load(&vec![1]);
    let mut backfill = Backfill::new();
    let mut action = backfill.step(&config, &mut tracker, SyncEvent::Wake);
    let mut stored = vec![];
    for expected in [10u32, 11, 12] {
        let asked = match action {
            SyncAction::Fetch(blocks) => blocks,
            _ => panic!("a block is missing"),
        };
        assert_eq!(asked, vec![expected]);
        assert_eq!(backfill.phase(), SyncPhase::Fetching);
        let batch = match backfill.step(&config, &mut tracker, SyncEvent::Fetched(vec![fetch(expected)])) {
            SyncAction::Store(batch) => batch,
            _ => panic!("what was fetched is stored"),
        };
        assert_eq!(batch.blocks.len(), 1);
        assert_eq!(backfill.phase(), SyncPhase::Storing);
        stored.push(batch.blocks[0].number);
        assert!(!tracker.contains(expected));
        action = backfill.step(&config, &mut tracker, SyncEvent::Stored(true));
        assert!(tracker.contains(expected));
    }
    assert!(matches!(action, SyncAction::Sleep));
    assert_eq!(stored, vec![10, 11, 12]);
    assert_eq!(tracker.len(), 4);
}

#[test]
fn chunks_follow_each_other_and_skip_what_is_indexed() {
    let config = config(0, 8, 3);
    let mut tracker = Tracker::load(&vec![2, 5]);
    let mut backfill = Backfill::new();
    let mut action = backfill.step(&config, &mut tracker, SyncEvent::Wake);
    assert_eq!(backfill.missing_count(), 6);
    let mut asked_for = vec![];
    loop {
        match action {
            SyncAction::Fetch(blocks) => {
                let results: Vec<Option<FetchedBlock>> = blocks.iter().map(|n| fetch(*n)).collect();
                asked_for.push(blocks);
                match backfill.step(&config, &mut tracker, SyncEvent::Fetched(results)) {
                    SyncAction::Store(_) => {}
                    _ => panic!("what was fetched is stored"),
                }
                action = backfill.step(&config, &mut tracker, SyncEvent::Stored(true));
            }
            SyncAction::Sleep => break,
            _ => panic!("a bounded pass with missing blocks fetches or sleeps"),
        }
    }
    assert_eq!(asked_for, vec![vec![0, 1, 3], vec![4, 6, 7]]);
    assert_eq!(tracker.len(), 8);
    assert!(matches!(backfill.step(&config, &mut tracker, SyncEvent::Wake), SyncAction::Exit(0)));
}

#[test]
fn a_block_that_was_not_asked_for_does_not_count() {
    let config = config(10, 12, 2);
    let mut tracker = Tracker::load(&vec![1]);
    let mut backfill = Backfill::new();
    backfill.step(&config, &mut tracker, SyncEvent::Wake);
    // the second result is block 99, and a third one was never asked for
    let results = vec![fetch(10), fetch(99), fetch(11)];
    let batch = match backfill.step(&config, &mut tracker, SyncEvent::Fetched(results)) {
        SyncAction::Store(batch) => batch,
        _ => panic!("what was fetched is stored"),
    };
    let numbers: Vec<u32> = batch.blocks.iter().map(|b| b.number).collect();
    assert_eq!(numbers, vec![10]);
    backfill.step(&config, &mut tracker, SyncEvent::Stored(true));
    assert!(tracker.contains(10));
    assert!(!tracker.contains(99));
    assert!(!tracker.contains(11));
    let kept = accept(vec![fetch(10), fetch(99), None], &vec![10, 11, 12]);
    assert!(kept[0].is_some());
    assert!(kept[1].is_none());
    assert!(kept[2].is_none());
    assert_eq!(kept.len(), 3);
}

#[test]
fn sync_events_out_of_turn_change_nothing() {
    let config = config(0, 0, 10);
    let mut tracker = Tracker::load(&vec![1]);
    let mut backfill = Backfill::new();
    assert!(matches!(backfill.step(&config, &mut tracker, SyncEvent::Stored(true)), SyncAction::Wait));
    assert!(matches!(backfill.step(&config, &mut tracker, SyncEvent::Tip(Some(9))), SyncAction::Wait));
    assert!(matches!(
        backfill.step(&config, &mut tracker, SyncEvent::Fetched(vec![fetch(3)])),
        SyncAction::Wait
    ));
    assert!(matches!(
        backfill.step(&config, &mut tracker, SyncEvent::GenesisStored(true)),
        SyncAction::Wait
    ));
    assert_eq!(backfill.phase(), SyncPhase::Idle);
    assert_eq!(tracker.len(), 1);
}

#[test]
fn the_target_is_the_end_or_the_tip() {
    assert_eq!(target_block(0, 77), 77);
    assert_eq!(target_block(-1, 77), 77);
    assert_eq!(target_block(-5, 77), 77);
    assert_eq!(target_block(10, 77), 10);
    assert_eq!(target_block(u32::MAX as i64, 77), u32::MAX);
    assert_eq!(target_block(u32::MAX as i64 + 1, 77), u32::MAX);
    assert_eq!(target_block(i64::MAX, 77), u32::MAX);
}

#[test]
fn missing_is_the_range_without_the_indexed() {
    let tracker = Tracker::load(&vec![3, 4, 9, 100]);
    assert_eq!(missing_blocks(2, 8, &tracker), vec![2, 5, 6, 7]);
    assert_eq!(missing_blocks(3, 5, &tracker), Vec::<u32>::new());
    assert_eq!(missing_blocks(5, 5, &tracker), Vec::<u32>::new());
    assert_eq!(missing_blocks(8, 5, &tracker), Vec::<u32>::new());
    assert_eq!(missing_blocks(u32::MAX - 2, u32::MAX, &tracker), vec![u32::MAX - 2, u32::MAX - 1]);
}

#[test]
fn chunking_loses_nothing() {
    let items = vec![1u32, 2, 3, 4, 5, 6, 7];
    assert_eq!(chunks(&items, 3), vec![vec![1, 2, 3], vec![4, 5, 6], vec![7]]);
    assert_eq!(chunks(&items, 7), vec![items.clone()]);
    assert_eq!(chunks(&items, 100), vec![items.clone()]);
    assert_eq!(chunks(&items, usize::MAX), vec![items.clone()]);
    assert_eq!(
        chunks(&items, 1),
        vec![vec![1], vec![2], vec![3], vec![4], vec![5], vec![6], vec![7]]
    );
    assert_eq!(chunks(&vec![], 3), Vec::<Vec<u32>>::new());
    assert_eq!(chunk(&items, 5, 3), vec![6, 7]);
    assert_eq!(chunk(&items, 7, 3), Vec::<u32>::new());
    assert_eq!(chunk(&items, 2, 0), Vec::<u32>::new());
    let joined: Vec<u32> = chunks(&items, 2).into_iter().flatten().collect();
    assert_eq!(joined, items);
}
