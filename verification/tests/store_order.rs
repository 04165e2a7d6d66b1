use satschain_indexer::db::models::block::DatabaseBlock;
use satschain_indexer::db::models::log::DatabaseLog;
use satschain_indexer::db::models::transaction::DatabaseTransaction;
use satschain_indexer::db::store::{
    all_ok, is_confirmed, InsertResult, StoreAction, StoreData, StoreEvent, StorePhase,
};
use satschain_indexer::db::{BlockFetchedData, DatabaseTables, InfoForAverageBlock};

fn a_log() -> DatabaseLog {
    DatabaseLog {
        chain: 1,
        transaction_hash: "ab".repeat(32),
        log_index: 0,
        address: "cd".repeat(20),
        topic0: None,
        topic1: None,
        topic2: None,
        topic3: None,
        data: String::new(),
        block_number: 7,
        timestamp: 1_700_000_000,
    }
}

fn a_batch() -> BlockFetchedData {
    let mut batch = BlockFetchedData::new();
    let mut block = DatabaseBlock::new();
    block.number = 7;
    batch.blocks.push(block);
    batch.logs.push(a_log());
    batch.transactions.push(DatabaseTransaction::new());
    batch
}

fn ok(table: DatabaseTables) -> InsertResult {
    InsertResult { table, ok: true }
}

#[test]
fn table_names_are_the_schema_names() {
    assert_eq!(DatabaseTables::Blocks.as_str(), "blocks");
    assert_eq!(DatabaseTables::Contracts.as_str(), "contracts");
    assert_eq!(DatabaseTables::Logs.as_str(), "logs");
    assert_eq!(DatabaseTables::Traces.as_str(), "traces");
    assert_eq!(DatabaseTables::Transactions.as_str(), "transactions");
    assert_eq!(DatabaseTables::Withdrawals.as_str(), "withdrawals");
    assert_eq!(DatabaseTables::Erc20Transfers.as_str(), "erc20_transfers");
    assert_eq!(DatabaseTables::Erc721Transfers.as_str(), "erc721_transfers");
    assert_eq!(DatabaseTables::Erc1155Transfers.as_str(), "erc1155_transfers");
    assert_eq!(DatabaseTables::DexTrades.as_str(), "dex_trades");
}

#[test]
fn average_block_default_is_one_block_in_one_second() {
    let info = InfoForAverageBlock::new();
    assert_eq!(info.start_timestamp, 0);
    assert_eq!(info.end_timestamp, 1);
    assert_eq!(info.start_number, 0);
    assert_eq!(info.end_number, 1);
}

#[test]
fn an_empty_batch_has_no_rows_and_no_dependents() {
    let batch = BlockFetchedData::new();
    assert_eq!(batch.row_count(DatabaseTables::Blocks), 0);
    assert_eq!(batch.row_count(DatabaseTables::Logs), 0);
    assert!(batch.dependent_tables().is_empty());
}

#[test]
fn dependents_are_the_filled_tables_without_blocks() {
    let batch = a_batch();
    assert_eq!(
        batch.dependent_tables(),
        vec![DatabaseTables::Logs, DatabaseTables::Transactions]
    );
    assert_eq!(batch.row_count(DatabaseTables::Blocks), 1);
    assert_eq!(batch.row_count(DatabaseTables::Logs), 1);
    assert_eq!(batch.row_count(DatabaseTables::Traces), 0);
}

#[test]
fn blocks_are_written_after_all_dependents() {
    let batch = a_batch();
    let mut store = StoreData::new();
    assert_eq!(store.step(&batch, &StoreEvent::Begin), StoreAction::InsertDependents);
    assert_eq!(store.phase, StorePhase::Dependents);
    assert!(!store.is_stored());
    let done = StoreEvent::DependentsDone(vec![
        ok(DatabaseTables::Transactions),
        ok(DatabaseTables::Logs),
    ]);
    assert_eq!(store.step(&batch, &done), StoreAction::InsertBlocks);
    assert_eq!(store.phase, StorePhase::Blocks);
    assert!(!store.is_stored());
    assert_eq!(store.step(&batch, &StoreEvent::BlocksDone(true)), StoreAction::Finish);
    assert!(store.is_stored());
}

#[test]
fn a_failed_logs_insert_leaves_the_blocks_unwritten() {
    let batch = a_batch();
    let mut store = StoreData::new();
    assert_eq!(store.step(&batch, &StoreEvent::Begin), StoreAction::InsertDependents);
    let done = StoreEvent::DependentsDone(vec![
        ok(DatabaseTables::Transactions),
        InsertResult { table: DatabaseTables::Logs, ok: false },
    ]);
    assert_eq!(store.step(&batch, &done), StoreAction::Abort);
    assert_eq!(store.phase, StorePhase::Failed);
    assert!(!store.is_stored());
    assert_eq!(store.step(&batch, &StoreEvent::BlocksDone(true)), StoreAction::Wait);
    assert_eq!(store.step(&batch, &StoreEvent::Begin), StoreAction::Wait);
    assert_eq!(store.phase, StorePhase::Failed);
}

#[test]
fn a_missing_report_counts_as_a_failure() {
    let batch = a_batch();
    let mut store = StoreData::new();
    store.step(&batch, &StoreEvent::Begin);
    let done = StoreEvent::DependentsDone(vec![ok(DatabaseTables::Transactions)]);
    assert_eq!(store.step(&batch, &done), StoreAction::Abort);
}

#[test]
fn a_failed_block_insert_is_fatal() {
    let batch = a_batch();
    let mut store = StoreData::new();
    store.step(&batch, &StoreEvent::Begin);
    let done = StoreEvent::DependentsDone(vec![
        ok(DatabaseTables::Logs),
        ok(DatabaseTables::Transactions),
    ]);
    store.step(&batch, &done);
    assert_eq!(store.step(&batch, &StoreEvent::BlocksDone(false)), StoreAction::Abort);
    assert_eq!(store.phase, StorePhase::Failed);
}

#[test]
fn a_batch_of_blocks_alone_goes_straight_to_the_blocks() {
    let mut batch = BlockFetchedData::new();
    batch.blocks.push(DatabaseBlock::new());
    let mut store = StoreData::new();
    assert_eq!(store.step(&batch, &StoreEvent::Begin), StoreAction::InsertBlocks);
    assert_eq!(store.step(&batch, &StoreEvent::BlocksDone(true)), StoreAction::Finish);
}

#[test]
fn an_empty_batch_is_stored_at_once() {
    let batch = BlockFetchedData::new();
    let mut store = StoreData::new();
    assert_eq!(store.step(&batch, &StoreEvent::Begin), StoreAction::Finish);
    assert!(store.is_stored());
}

#[test]
fn a_batch_without_blocks_finishes_after_its_dependents() {
    let mut batch = BlockFetchedData::new();
    batch.transactions.push(DatabaseTransaction::new());
    let mut store = StoreData::new();
    assert_eq!(store.step(&batch, &StoreEvent::Begin), StoreAction::InsertDependents);
    let done = StoreEvent::DependentsDone(vec![ok(DatabaseTables::Transactions)]);
    assert_eq!(store.step(&batch, &done), StoreAction::Finish);
}

#[test]
fn events_out_of_turn_change_nothing() {
    let batch = a_batch();
    let mut store = StoreData::new();
    assert_eq!(store.step(&batch, &StoreEvent::BlocksDone(true)), StoreAction::Wait);
    assert_eq!(store.step(&batch, &StoreEvent::DependentsDone(vec![])), StoreAction::Wait);
    assert_eq!(store.phase, StorePhase::Ready);
}

#[test]
fn confirmation_needs_every_table_and_no_failure() {
    let tables = vec![DatabaseTables::Logs, DatabaseTables::Traces];
    assert!(is_confirmed(&tables, &vec![ok(DatabaseTables::Traces), ok(DatabaseTables::Logs)]));
    assert!(!is_confirmed(&tables, &vec![ok(DatabaseTables::Logs)]));
    assert!(!is_confirmed(
        &tables,
        &vec![
            ok(DatabaseTables::Logs),
            ok(DatabaseTables::Traces),
            InsertResult { table: DatabaseTables::Contracts, ok: false }
        ]
    ));
    assert!(all_ok(&vec![]));
    assert!(is_confirmed(&vec![], &vec![]));
}
