use satschain_indexer::chains::Chain;
use satschain_indexer::configs::{
    Config, Settings, DEFAULT_BATCH_SIZE, RESUBSCRIBE_DELAY_MILLIS, SYNC_INTERVAL_SECONDS,
};
use satschain_indexer::db::tracker::Tracker;
use satschain_indexer::rpc::assembler::{assemble_block, FetchedBlock};
use satschain_indexer::rpc::tip::{TipAction, TipEvent, TipFollower, TipPhase};
use satschain_indexer::rpc::RpcBlock;
use satschain_indexer::utils::u256::U256;

fn chain() -> Chain {
    Chain { id: 5, name: "test".to_string() }
}

fn fetch(number: u32, is_uncle: bool) -> Option<FetchedBlock> {
    let block = RpcBlock {
        number,
        hash: [1; 32],
        parent_hash: [0; 32],
        timestamp: 10,
        miner: [0; 20],
        nonce: [0; 8],
        gas_limit: 0,
        gas_used: 0,
        base_fee_per_gas: None,
        difficulty: U256::zero(),
        total_difficulty: None,
        size: 0,
        uncles: vec![],
        transactions: vec![],
        withdrawals: vec![],
        is_uncle,
    };
    assemble_block(&chain(), number, &Some(block), &Some(vec![]), &Some(vec![]))
}

fn settings(ws_url: Option<&str>, end_block: Option<i64>) -> Settings {
    Settings {
        rpc_http_url: "http://node".to_string(),
        ws_url: ws_url.map(|u| u.to_string()),
        db_host: "http://store".to_string(),
        db_username: "user".to_string(),
        db_password: "SECRET-REDACTED".to_string(),
        db_name: "chain".to_string(),
        start_block: None,
        end_block,
        batch_size: None,
        new_blocks_only: None,
        debug: None,
        explorer_server_host: None,
        explorer_server_port: None,
    }
}

#[test]
fn a_head_is_fetched_stored_and_then_indexed() {
    let mut tracker = Tracker::new();
    let mut follower = TipFollower::new();
    assert_eq!(follower.phase(), TipPhase::Down);
    assert!(matches!(follower.step(&mut tracker, TipEvent::Wake), TipAction::Listen));
    assert_eq!(follower.phase(), TipPhase::Listening);
    assert!(matches!(follower.step(&mut tracker, TipEvent::Head(Some(7))), TipAction::Fetch(7)));
    let batch = match follower.step(&mut tracker, TipEvent::Fetched(fetch(7, false))) {
        TipAction::Store(batch) => batch,
        _ => panic!("the head is stored"),
    };
    assert_eq!(batch.blocks.len(), 1);
    assert_eq!(batch.blocks[0].number, 7);
    assert!(!tracker.contains(7));
    assert_eq!(follower.phase(), TipPhase::Storing);
    assert!(matches!(follower.step(&mut tracker, TipEvent::Stored(true)), TipAction::Listen));
    assert!(tracker.contains(7));
    assert_eq!(follower.phase(), TipPhase::Listening);
}

#[test]
fn a_head_that_cannot_be_resolved_or_fetched_is_passed_over() {
    let mut tracker = Tracker::new();
    let mut follower = TipFollower::new();
    follower.step(&mut tracker, TipEvent::Wake);
    assert!(matches!(follower.step(&mut tracker, TipEvent::Head(None)), TipAction::Listen));
    assert!(matches!(follower.step(&mut tracker, TipEvent::Head(Some(7))), TipAction::Fetch(7)));
    assert!(matches!(follower.step(&mut tracker, TipEvent::Fetched(None)), TipAction::Listen));
    assert!(matches!(follower.step(&mut tracker, TipEvent::Head(Some(8))), TipAction::Fetch(8)));
    assert!(matches!(
        follower.step(&mut tracker, TipEvent::Fetched(fetch(9, false))),
        TipAction::Listen
    ));
    assert!(tracker.is_empty());
}

#[test]
fn an_uncle_head_is_stored_but_not_indexed() {
    let mut tracker = Tracker::new();
    let mut follower = TipFollower::new();
    follower.step(&mut tracker, TipEvent::Wake);
    follower.step(&mut tracker, TipEvent::Head(Some(7)));
    assert!(matches!(
        follower.step(&mut tracker, TipEvent::Fetched(fetch(7, true))),
        TipAction::Store(_)
    ));
    follower.step(&mut tracker, TipEvent::Stored(true));
    assert!(!tracker.contains(7));
}

#[test]
fn a_failed_store_ends_the_run() {
    let mut tracker = Tracker::new();
    let mut follower = TipFollower::new();
    follower.step(&mut tracker, TipEvent::Wake);
    follower.step(&mut tracker, TipEvent::Head(Some(7)));
    follower.step(&mut tracker, TipEvent::Fetched(fetch(7, false)));
    assert!(matches!(follower.step(&mut tracker, TipEvent::Stored(false)), TipAction::Exit(1)));
    assert_eq!(follower.phase(), TipPhase::Exited);
    assert!(!tracker.contains(7));
    assert!(matches!(follower.step(&mut tracker, TipEvent::Dropped), TipAction::Wait));
    assert!(matches!(follower.step(&mut tracker, TipEvent::Wake), TipAction::Wait));
}

#[test]
fn a_dropped_subscription_is_taken_up_again() {
    let mut tracker = Tracker::new();
    let mut follower = TipFollower::new();
    follower.step(&mut tracker, TipEvent::Wake);
    follower.step(&mut tracker, TipEvent::Head(Some(7)));
    assert!(matches!(follower.step(&mut tracker, TipEvent::Dropped), TipAction::Resubscribe));
    assert_eq!(follower.phase(), TipPhase::Down);
    assert!(matches!(follower.step(&mut tracker, TipEvent::Head(Some(8))), TipAction::Wait));
    assert!(matches!(follower.step(&mut tracker, TipEvent::Wake), TipAction::Listen));
    assert_eq!(RESUBSCRIBE_DELAY_MILLIS, 500);
    assert_eq!(SYNC_INTERVAL_SECONDS, 30);
}

#[test]
fn settings_have_defaults() {
    let config = Config::new(chain(), settings(None, None));
    assert_eq!(config.start_block, 0);
    assert_eq!(config.end_block, 0);
    assert_eq!(config.batch_size, 200);
    assert_eq!(DEFAULT_BATCH_SIZE, 200);
    assert!(!config.new_blocks_only);
    assert!(!config.debug);
    assert_eq!(config.explorer_server_host, "0.0.0.0");
    assert_eq!(config.explorer_server_port, "8200");
    assert_eq!(config.explorer_address(), "0.0.0.0:8200");
    assert_eq!(config.chain.id, 5);
    assert_eq!(config.rpc_http_url, "http://node");
    assert!(!config.is_bounded());
    let mut given = settings(Some("ws://node"), Some(500));
    given.start_block = Some(100);
    given.batch_size = Some(25);
    given.new_blocks_only = Some(true);
    given.debug = Some(true);
    given.explorer_server_host = Some("127.0.0.1".to_string());
    given.explorer_server_port = Some("9000".to_string());
    let config = Config::new(chain(), given);
    assert_eq!(config.start_block, 100);
    assert_eq!(config.end_block, 500);
    assert_eq!(config.batch_size, 25);
    assert!(config.new_blocks_only);
    assert!(config.debug);
    assert_eq!(config.explorer_address(), "127.0.0.1:9000");
    assert!(config.is_bounded());
}

#[test]
fn heads_are_followed_with_a_socket_and_no_end_or_with_minus_one() {
    let follows = |ws: Option<&str>, end: i64| Config::new(chain(), settings(ws, Some(end))).follows_heads();
    assert!(follows(Some("ws://node"), 0));
    assert!(!follows(None, 0));
    assert!(follows(Some("ws://node"), -1));
    assert!(follows(None, -1));
    assert!(!follows(Some("ws://node"), 100));
    assert!(!follows(None, 100));
    assert!(!follows(Some("ws://node"), -2));
}

#[test]
fn a_store_under_way_outlives_a_dropped_subscription() {
    let mut tracker = Tracker::new();
    let mut follower = TipFollower::new();
    follower.step(&mut tracker, TipEvent::Wake);
    follower.step(&mut tracker, TipEvent::Head(Some(7)));
    assert!(matches!(
        follower.step(&mut tracker, TipEvent::Fetched(fetch(7, false))),
        TipAction::Store(_)
    ));
    assert!(matches!(follower.step(&mut tracker, TipEvent::Dropped), TipAction::Wait));
    assert_eq!(follower.phase(), TipPhase::Storing);
    assert!(!tracker.contains(7));
    assert!(matches!(follower.step(&mut tracker, TipEvent::Stored(true)), TipAction::Resubscribe));
    assert!(tracker.contains(7));
    assert_eq!(follower.phase(), TipPhase::Down);
    assert!(matches!(follower.step(&mut tracker, TipEvent::Wake), TipAction::Listen));
    // the drop is forgotten once it has been answered
    follower.step(&mut tracker, TipEvent::Head(Some(8)));
    follower.step(&mut tracker, TipEvent::Fetched(fetch(8, false)));
    assert!(matches!(follower.step(&mut tracker, TipEvent::Stored(true)), TipAction::Listen));
    assert!(tracker.contains(8));
}
