use satschain_indexer::db::models::block::DatabaseBlock;
use satschain_indexer::db::models::transaction::{DatabaseTransaction, TransactionStatus};
use satschain_indexer::db::queries::{
    get_block_by_id_query, get_blocks_query, get_chart_transaction_data_query,
    get_indexed_blocks_query, get_info_for_average_block_query, get_transaction_by_id_query,
    get_transactions_query, is_hash,
};
use satschain_indexer::db::InfoForAverageBlock;
use satschain_indexer::explorer::handlers::{
    blocks_request, handle_balance, handle_balancemulti, handle_bridged_token_list,
    handle_checkproxyverification, handle_checkverifystatus, handle_eth_block_number,
    handle_eth_get_balance, handle_get_block_by_id, handle_get_blocks, handle_get_indexing_status,
    handle_get_logs, handle_get_stats, handle_get_stats_charts_transactions, handle_get_status,
    handle_get_token, handle_get_token_holders, handle_get_transaction_by_id,
    handle_get_transaction_summary_for_id, handle_get_transactions, handle_get_tx_info,
    handle_get_tx_receipt_status, handle_getabi, handle_getblockcountdown,
    handle_getblocknobytime, handle_getblockreward, handle_getcontractcreation,
    handle_getsourcecode, handle_listcontracts, handle_main_page_blocks,
    handle_main_page_transactions, handle_pendingtxlist, handle_token_supply,
    handle_tokenbalance, handle_tokentx, handle_txlist, handle_txlistinternal, handle_verify,
    handle_verify_via_sourcify, handle_verify_vyper_contract, handle_verifyproxycontract,
    handle_verifysourcecode, index, main_page_request, next_page_params, status,
    transactions_request, PageRequest, MAIN_PAGE_SIZE, PAGE_SIZE,
};
use satschain_indexer::explorer::models::{
    AccountQuery, BlockQuery, BlockResponse, BridgedTokenListQuery, ChartTransactionResponse,
    ContractCreationQuery, ContractVerifyQuery, GetBlockQuery, GetTransactionQuery, LogQuery,
    MultiAccountQuery, NextPageParams, SimpleQuery, SourceCodeQuery, TokenBalanceQuery,
    TokenHoldersQuery, TokenQuery, TokenTxQuery, TransAccountType, TransactionHashQuery,
    TransactionQuery, TransactionResponse, TxListInternalQuery, VerifyStatusQuery,
};
use satschain_indexer::explorer::routes::{configure, Route};
use satschain_indexer::utils::u256::U256;

fn block(number: u32) -> DatabaseBlock {
    DatabaseBlock {
        chain: 5,
        number,
        hash: "b1".repeat(32),
        parent_hash: "b0".repeat(32),
        timestamp: 1_431_648_000,
        miner: "33".repeat(20),
        nonce: "000000000000002a".to_string(),
        gas_limit: 30_000_000,
        gas_used: 63_000,
        base_fee_per_gas: Some(7),
        difficulty: U256::from_u64(2),
        total_difficulty: Some(U256 { w3: 0, w2: 0, w1: 1, w0: 0 }),
        size: 1234,
        uncles: vec!["c1".repeat(32)],
        transactions: 3,
        total_fee_reward: U256::from_u64(126_000),
        burned: U256::from_u64(441_000),
        is_uncle: false,
    }
}

fn transaction(block_number: u32) -> DatabaseTransaction {
    DatabaseTransaction {
        chain: 5,
        hash: "01".repeat(32),
        block_number,
        transaction_index: 4,
        from: "0a".repeat(20),
        to: Some("0b".repeat(20)),
        value: U256::from_u64(1_000),
        gas: 21_000,
        gas_price: Some(2_000_000_000),
        max_fee_per_gas: Some(3_000_000_000),
        max_priority_fee_per_gas: None,
        base_fee_per_gas: Some(7),
        input: "a9059cbb0001".to_string(),
        nonce: 9,
        transaction_type: 2,
        status: TransactionStatus::Success,
        gas_used: Some(21_000),
        cumulative_gas_used: 42_000,
        effective_transaction_fee: Some(U256::from_u64(42_000_000_000_000)),
        contract_created: None,
        method: "a9059cbb".to_string(),
        burned: Some(U256::from_u64(147_000)),
        timestamp: 1_712_862_456,
    }
}

#[test]
fn a_block_is_shown_with_decimal_quantities() {
    let shown = BlockResponse::from(block(12));
    assert_eq!(shown.base_fee_per_gas, "7");
    assert_eq!(shown.blob_gas_used, "63000");
    assert_eq!(shown.blob_tx_count, 3);
    assert_eq!(shown.burnt_fees, "441000");
    assert_eq!(shown.difficulty, "2");
    assert_eq!(shown.excess_blob_gas, "0");
    assert_eq!(shown.gas_limit, "30000000");
    assert_eq!(shown.gas_used, "63000");
    assert_eq!(shown.hash, "b1".repeat(32));
    assert_eq!(shown.height, 12);
    assert_eq!(shown.miner.hash, "33".repeat(20));
    assert_eq!(shown.miner.ens_domain_name, None);
    assert_eq!(shown.miner.implementation_name, None);
    assert_eq!(shown.nonce, "000000000000002a");
    assert_eq!(shown.parent_hash, "b0".repeat(32));
    assert_eq!(shown.priority_fee, 0);
    assert!(shown.rewards.is_empty());
    assert_eq!(shown.size, 1234);
    assert_eq!(shown.timestamp, "2015-05-15T00:00:00Z");
    assert_eq!(shown.total_difficulty, "18446744073709551616");
    assert_eq!(shown.tx_count, 3);
    assert_eq!(shown.tx_fees, "126000");
    assert_eq!(shown.type_field, "block");
    assert_eq!(shown.uncles_hashes, vec!["c1".repeat(32)]);
    assert_eq!(shown.withdrawals_count, None);
}

#[test]
fn absent_quantities_of_a_block_are_empty() {
    let mut b = block(12);
    b.base_fee_per_gas = None;
    b.total_difficulty = None;
    let shown = handle_get_block_by_id(b);
    assert_eq!(shown.base_fee_per_gas, "");
    assert_eq!(shown.total_difficulty, "");
    let stand_in = BlockResponse::from(DatabaseBlock::new());
    assert_eq!(stand_in.height, 0);
    assert_eq!(stand_in.hash, "");
    assert_eq!(stand_in.gas_used, "0");
    assert_eq!(stand_in.timestamp, "1970-01-01T00:00:00Z");
}

#[test]
fn a_transaction_is_shown_with_decimal_quantities() {
    let shown = TransactionResponse::from(transaction(12));
    assert!(shown.actions.is_empty());
    assert_eq!(shown.base_fee_per_gas, "7");
    assert_eq!(shown.block, 12);
    assert!(shown.confirmation_duration.is_empty());
    assert_eq!(shown.confirmations, 0);
    assert_eq!(shown.created_contract, None);
    assert_eq!(shown.decode_input, Some("a9059cbb0001".to_string()));
    assert_eq!(shown.exchange_rate, "");
    assert_eq!(shown.fee.type_field, "Standard");
    assert_eq!(shown.fee.value, "42000000000000");
    assert_eq!(shown.from.hash, "0a".repeat(20));
    assert_eq!(shown.from.ens_domain_name, "");
    assert!(!shown.from.is_contract);
    assert_eq!(shown.from.is_verified, None);
    assert!(shown.from.private_tags.is_empty());
    assert_eq!(shown.gas_limit, "21000");
    assert_eq!(shown.gas_price, "2000000000");
    assert_eq!(shown.gas_used, "21000");
    assert!(!shown.has_error_in_internal_txs);
    assert_eq!(shown.hash, "01".repeat(32));
    assert_eq!(shown.max_fee_per_gas, "3000000000");
    assert_eq!(shown.max_priority_fee_per_gas, "");
    assert_eq!(shown.method, Some("a9059cbb".to_string()));
    assert_eq!(shown.nonce, 9);
    assert_eq!(shown.position, 4);
    assert_eq!(shown.priority_fee, None);
    assert_eq!(shown.raw_input, "a9059cbb0001");
    assert_eq!(shown.result, "success");
    assert_eq!(shown.revert_reason, None);
    assert_eq!(shown.status, "ok");
    assert_eq!(shown.timestamp, "2024-04-11T19:07:36Z");
    assert_eq!(shown.to.hash, "0b".repeat(20));
    assert_eq!(shown.token_transfers, None);
    assert_eq!(shown.token_transfers_overflow, None);
    assert_eq!(shown.tx_burnt_fee, Some("147000".to_string()));
    assert_eq!(shown.tx_tag, None);
    assert_eq!(shown.tx_types, vec!["coin_transfer", "contract_call", "token_transfer"]);
    assert_eq!(shown.type_field, 2);
    assert_eq!(shown.value, "1000");
}

#[test]
fn a_transaction_status_has_its_word() {
    let mut t = transaction(1);
    t.status = TransactionStatus::Failure;
    assert_eq!(TransactionResponse::from(t).status, "error");
    let mut t = transaction(1);
    t.status = TransactionStatus::Unknown;
    t.to = None;
    t.contract_created = Some("cc".repeat(20));
    t.burned = None;
    t.effective_transaction_fee = None;
    t.gas_used = None;
    let shown = handle_get_transaction_by_id(t);
    assert_eq!(shown.status, "Unknown");
    assert_eq!(shown.to.hash, "");
    assert_eq!(shown.created_contract, Some("cc".repeat(20)));
    assert_eq!(shown.tx_burnt_fee, None);
    assert_eq!(shown.fee.value, "");
    assert_eq!(shown.gas_used, "");
    let stand_in = TransactionResponse::from(DatabaseTransaction::new());
    assert_eq!(stand_in.hash, "");
    assert_eq!(stand_in.status, "Unknown");
    assert_eq!(stand_in.value, "0");
    let plain = TransAccountType::plain("ab".to_string());
    assert_eq!(plain.hash, "ab");
    assert_eq!(plain.name, None);
}

#[test]
fn a_page_of_blocks_says_where_the_next_starts() {
    let query = GetBlockQuery { block_number: None, items_count: Some(50) };
    assert_eq!(blocks_request(&query), PageRequest { skip_count: 50, limit: 50 });
    let page = handle_get_blocks(&query, vec![block(12), block(11), block(10)]);
    assert_eq!(page.items.len(), 3);
    assert_eq!(page.items[0].height, 12);
    assert_eq!(page.items[2].height, 10);
    assert_eq!(page.next_page_params, NextPageParams { block_number: 9, items_count: 53 });
    let first = GetBlockQuery { block_number: None, items_count: None };
    assert_eq!(blocks_request(&first), PageRequest { skip_count: 0, limit: PAGE_SIZE });
    let empty = handle_get_blocks(&first, vec![]);
    assert!(empty.items.is_empty());
    assert_eq!(empty.next_page_params, NextPageParams { block_number: 1, items_count: 0 });
    let to_genesis = handle_get_blocks(&first, vec![block(1), block(0)]);
    assert_eq!(to_genesis.next_page_params, NextPageParams { block_number: 0, items_count: 2 });
}

#[test]
fn a_page_of_transactions_says_where_the_next_starts() {
    let query = GetTransactionQuery { hash: None, index: None, items_count: Some(7) };
    assert_eq!(transactions_request(&query), PageRequest { skip_count: 7, limit: 50 });
    let page = handle_get_transactions(&query, vec![transaction(30), transaction(29)]);
    assert_eq!(page.items.len(), 2);
    assert_eq!(page.items[1].block, 29);
    assert_eq!(page.next_page_params, NextPageParams { block_number: 28, items_count: 9 });
    let first = GetTransactionQuery { hash: None, index: None, items_count: None };
    let empty = handle_get_transactions(&first, vec![]);
    assert_eq!(empty.next_page_params, NextPageParams { block_number: 1, items_count: 0 });
    let beyond = handle_get_transactions(&query, vec![]);
    assert_eq!(beyond.next_page_params, NextPageParams { block_number: 1, items_count: 7 });
}

#[test]
fn the_count_of_shown_items_is_held_to_its_width() {
    assert_eq!(
        next_page_params(Some(100), u32::MAX - 1, 5),
        NextPageParams { block_number: 99, items_count: u32::MAX }
    );
    assert_eq!(
        next_page_params(Some(u64::MAX), 4, 6),
        NextPageParams { block_number: u64::MAX - 1, items_count: 10 }
    );
    assert_eq!(next_page_params(None, 4, 0), NextPageParams { block_number: 1, items_count: 4 });
    assert_eq!(next_page_params(Some(0), 4, 1), NextPageParams { block_number: 0, items_count: 5 });
    assert_eq!(next_page_params(Some(1), 4, 1), NextPageParams { block_number: 0, items_count: 5 });
}

#[test]
fn the_main_page_shows_the_newest_six() {
    assert_eq!(main_page_request(), PageRequest { skip_count: 0, limit: 6 });
    assert_eq!(MAIN_PAGE_SIZE, 6);
    let blocks = handle_main_page_blocks(vec![block(3), block(2)]);
    assert_eq!(blocks.len(), 2);
    assert_eq!(blocks[0].height, 3);
    assert_eq!(blocks[1].height, 2);
    let transactions = handle_main_page_transactions(vec![transaction(3), transaction(2)]);
    assert_eq!(transactions.len(), 2);
    assert_eq!(transactions[0].block, 3);
    assert_eq!(transactions[1].block, 2);
    assert!(handle_main_page_blocks(vec![]).is_empty());
}

#[test]
fn the_average_block_time_is_in_milliseconds() {
    assert_eq!(InfoForAverageBlock::new().average_block_time(), Some(1000));
    let info = InfoForAverageBlock {
        start_timestamp: 1_000,
        end_timestamp: 1_600,
        start_number: 50,
        end_number: 99,
    };
    // 600 s over 49 steps: 12244.89... ms
    assert_eq!(info.average_block_time(), Some(12_244));
    let stats = handle_get_stats(&info).unwrap();
    assert_eq!(stats.average_block_time, 12_244);
    assert_eq!(stats.total_blocks, "99");
    let one_block =
        InfoForAverageBlock { start_timestamp: 5, end_timestamp: 5, start_number: 7, end_number: 7 };
    assert_eq!(one_block.average_block_time(), None);
    assert!(handle_get_stats(&one_block).is_none());
    let backwards =
        InfoForAverageBlock { start_timestamp: 9, end_timestamp: 5, start_number: 1, end_number: 7 };
    assert_eq!(backwards.average_block_time(), None);
    // 4294967295 s in one step are 4294967295000 ms; the low 32 bits stay
    let too_slow = InfoForAverageBlock {
        start_timestamp: 0,
        end_timestamp: u32::MAX,
        start_number: 0,
        end_number: 1,
    };
    assert_eq!(too_slow.average_block_time(), Some(4_294_966_296));
    let stats = handle_get_stats(&too_slow).unwrap();
    assert_eq!(stats.average_block_time, 4_294_966_296);
    assert_eq!(stats.total_blocks, "1");
    let same_time =
        InfoForAverageBlock { start_timestamp: 5, end_timestamp: 5, start_number: 1, end_number: 7 };
    assert_eq!(same_time.average_block_time(), Some(0));
}

#[test]
fn small_answers() {
    assert_eq!(index(), "Welcome to the EVM Indexer API!");
    assert_eq!(status(), "Status: Running");
    assert_eq!(handle_eth_block_number(), "Fetching current Ethereum block number");
    assert_eq!(handle_listcontracts(), "Listing all contracts");
    assert_eq!(handle_get_transaction_summary_for_id("0xabc".to_string()), "0xabc");
    let indexing = handle_get_indexing_status();
    assert!(indexing.finished_indexing);
    assert!(indexing.finished_indexing_blocks);
    assert_eq!(indexing.indexed_blocks_ratio, "1.00");
    assert_eq!(indexing.indexed_internal_transactions_ratio, "1.00");
    let chart = handle_get_stats_charts_transactions(vec![ChartTransactionResponse {
        date: "2024-04-11".to_string(),
        tx_count: 12,
    }]);
    assert_eq!(chart.chart_data.len(), 1);
    assert_eq!(chart.chart_data[0].date, "2024-04-11");
    assert_eq!(chart.chart_data[0].tx_count, 12);
}

fn transaction_query(address: &str) -> TransactionQuery {
    TransactionQuery {
        address: address.to_string(),
        startblock: None,
        endblock: None,
        page: None,
        offset: None,
        sort: None,
    }
}

fn verify_query(address: &str) -> ContractVerifyQuery {
    ContractVerifyQuery {
        address_hash: address.to_string(),
        name: None,
        compiler_version: Some("0.8.20".to_string()),
        optimization: None,
        contract_source_code: None,
    }
}

#[test]
fn stubs_echo_the_request() {
    let account = AccountQuery { address: "0xA".to_string() };
    assert_eq!(handle_eth_get_balance(&account), "Fetching ETH balance for 0xA");
    assert_eq!(handle_balance(&account), "Fetching balance for 0xA");
    let accounts = MultiAccountQuery { address: "0xA,0xB".to_string() };
    assert_eq!(handle_balancemulti(&accounts), "Fetching balances for 0xA,0xB");
    assert_eq!(
        handle_pendingtxlist(&transaction_query("0xA")),
        "Fetching pending transactions for 0xA"
    );
    assert_eq!(handle_txlist(&transaction_query("0xA")), "Fetching transactions for 0xA");
    let internal = TxListInternalQuery {
        txhash: "0xT".to_string(),
        startblock: None,
        endblock: None,
        page: None,
        offset: None,
        sort: None,
    };
    assert_eq!(
        handle_txlistinternal(&internal),
        "Fetching internal transactions for transaction hash 0xT"
    );
    let token_tx =
        TokenTxQuery { address: "0xA".to_string(), page: None, offset: None, sort: None };
    assert_eq!(handle_tokentx(&token_tx), "Fetching token transactions for 0xA");
    let balance =
        TokenBalanceQuery { contractaddress: "0xC".to_string(), address: "0xA".to_string() };
    assert_eq!(handle_tokenbalance(&balance), "Fetching token balance from contract 0xC for 0xA");
    let simple = SimpleQuery { address_hash: "0xC".to_string() };
    assert_eq!(handle_getabi(&simple), "Fetching ABI for address 0xC");
    assert_eq!(handle_getsourcecode(&simple), "Fetching source code for address 0xC");
    assert_eq!(
        handle_verify_via_sourcify(&simple),
        "Verifying contract via Sourcify for address 0xC"
    );
    assert_eq!(handle_verifyproxycontract(&simple), "Verifying proxy contract for address 0xC");
    let creation = ContractCreationQuery { contractaddresses: "0xC,0xD".to_string() };
    assert_eq!(
        handle_getcontractcreation(&creation),
        "Fetching contract creation info for addresses 0xC,0xD"
    );
    assert_eq!(
        handle_verify(&verify_query("0xC")),
        "Verifying contract at address 0xC with compiler version "
    );
    assert_eq!(
        handle_verify_vyper_contract(&verify_query("0xC")),
        "Verifying Vyper contract at address 0xC"
    );
    let source = SourceCodeQuery {
        address_hash: "0xC".to_string(),
        codeformat: Some("json".to_string()),
        contractaddress: None,
        contractname: None,
        compilerversion: None,
        source_code: None,
    };
    assert_eq!(handle_verifysourcecode(&source), "Verifying source code for address 0xC, format ");
    let guid = VerifyStatusQuery { guid: "g-1".to_string() };
    assert_eq!(handle_checkverifystatus(&guid), "Checking verification status with GUID g-1");
    assert_eq!(
        handle_checkproxyverification(&guid),
        "Checking proxy verification status with GUID g-1"
    );
    let token = TokenQuery { contractaddress: "0xC".to_string() };
    assert_eq!(handle_token_supply(&token), "Fetching token supply for contract address 0xC");
    assert_eq!(handle_get_token(&token), "Fetching token details for contract address 0xC");
    let hash = TransactionHashQuery { txhash: "0xT".to_string() };
    assert_eq!(handle_get_tx_info(&hash), "Fetching transaction info for hash 0xT");
    assert_eq!(
        handle_get_tx_receipt_status(&hash),
        "Fetching transaction receipt status for hash 0xT"
    );
    assert_eq!(handle_get_status(&hash), "Fetching transaction status for hash 0xT");
}

#[test]
fn stubs_print_numbers_in_decimal() {
    let by_number = BlockQuery { blockno: Some(15), timestamp: None, closest: None };
    assert_eq!(handle_getblockreward(&by_number), "Fetching block reward for block number 15");
    assert_eq!(
        handle_getblockcountdown(&by_number),
        "Fetching block countdown for block number 15"
    );
    assert_eq!(
        handle_getblocknobytime(&by_number),
        "Fetching block number by time 0, closest N/A"
    );
    let nothing = BlockQuery { blockno: None, timestamp: None, closest: None };
    assert_eq!(handle_getblockreward(&nothing), "Fetching block reward for block number 0");
    let by_time =
        BlockQuery { blockno: None, timestamp: Some(-3), closest: Some("before".to_string()) };
    assert_eq!(
        handle_getblocknobytime(&by_time),
        "Fetching block number by time -3, closest before"
    );
    let logs = LogQuery {
        from_block: 10,
        to_block: -20,
        address: "0xC".to_string(),
        topic0: "0xT0".to_string(),
        topic1: None,
        topic0_1_opr: None,
    };
    assert_eq!(
        handle_get_logs(&logs),
        "Fetching logs from block 10 to -20 for address 0xC with topics 0xT0 and"
    );
    let holders = TokenHoldersQuery { contractaddress: "0xC".to_string(), page: 2, offset: 25 };
    assert_eq!(
        handle_get_token_holders(&holders),
        "Fetching token holders for contract address 0xC on page 2 with offset 25"
    );
    let bridged = BridgedTokenListQuery { chainid: 100, page: i32::MIN, offset: i32::MAX };
    assert_eq!(
        handle_bridged_token_list(&bridged),
        "Fetching bridged token list for chain ID 100 on page -2147483648 with offset 2147483647"
    );
}

#[test]
fn queries_name_the_chain_and_the_page() {
    assert_eq!(
        get_indexed_blocks_query(5),
        "SELECT number FROM blocks WHERE chain = 5 AND is_uncle = false"
    );
    assert_eq!(
        get_blocks_query(5, 100, 50),
        "SELECT * FROM blocks WHERE chain = 5 AND is_uncle = false ORDER BY number DESC LIMIT 50 OFFSET 100"
    );
    assert_eq!(
        get_block_by_id_query(5, 12),
        "SELECT * FROM blocks WHERE chain = 5 AND is_uncle = false AND number = 12"
    );
    assert_eq!(
        get_transactions_query(5, 0, 6),
        "SELECT * FROM transactions WHERE chain = 5 ORDER BY timestamp DESC LIMIT 6 OFFSET 0"
    );
    assert_eq!(
        get_info_for_average_block_query(4_294_967_295),
        "SELECT Min(timestamp) as start_time, Max(timestamp) as end_time, Min(number) as start_number, Max(number) as end_number FROM blocks WHERE number IN (SELECT number FROM blocks WHERE chain = 4294967295 ORDER BY number DESC LIMIT 50)"
    );
    assert_eq!(
        get_chart_transaction_data_query(5),
        "SELECT toString(DATE(timestamp)) as tx_date, toUInt32(COUNT(DATE(timestamp))) as tx_count FROM transactions WHERE chain = 5 GROUP BY DATE(timestamp) ORDER BY DATE(timestamp) DESC LIMIT 30"
    );
}

#[test]
fn only_a_hash_goes_into_a_query() {
    assert_eq!(
        get_transaction_by_id_query(5, "ab01"),
        Some("SELECT * FROM transactions WHERE chain = 5 AND hash = 'ab01'".to_string())
    );
    assert_eq!(
        get_transaction_by_id_query(5, "GENESIS_0a0b"),
        Some("SELECT * FROM transactions WHERE chain = 5 AND hash = 'GENESIS_0a0b'".to_string())
    );
    assert_eq!(get_transaction_by_id_query(5, "ab' OR '1'='1"), None);
    assert_eq!(get_transaction_by_id_query(5, "ab cd"), None);
    assert_eq!(get_transaction_by_id_query(5, "ab\u{e9}"), None);
    assert!(is_hash(""));
    assert!(is_hash("0xAbC_9z"));
    assert!(!is_hash("a-b"));
    assert!(!is_hash("a;b"));
}

#[test]
fn every_route_has_its_path() {
    let routes = configure();
    assert_eq!(routes.len(), 39);
    assert_eq!(routes[0], Route::Blocks);
    assert_eq!(Route::Blocks.path(), "/api/v2/blocks");
    assert_eq!(Route::BlockById.path(), "/api/v2/blocks/{id}");
    assert_eq!(Route::Transactions.path(), "/api/v2/transactions");
    assert_eq!(Route::TransactionById.path(), "/api/v2/transactions/{id}");
    assert_eq!(Route::Stats.path(), "/api/v2/stats");
    assert_eq!(Route::MainPageBlocks.path(), "/api/v2/main-page/blocks");
    assert_eq!(Route::MainPageTransactions.path(), "/api/v2/main-page/transactions");
    assert_eq!(Route::StatsChartsTransactions.path(), "/api/v2/stats/charts/transactions");
    assert_eq!(Route::GetLogs.path(), "/api/get_logs");
    assert_eq!(Route::GetStatus.path(), "/api/get_status");
    assert!(!Route::Blocks.is_stub());
    assert!(!Route::StatsChartsTransactions.is_stub());
    assert!(Route::Balance.is_stub());
    assert!(Route::GetStatus.is_stub());
    let mut paths: Vec<&str> = routes.iter().map(|r| r.path()).collect();
    paths.sort();
    paths.dedup();
    assert_eq!(paths.len(), 39);
    let stubs = routes.iter().filter(|r| r.is_stub()).count();
    assert_eq!(stubs, 31);
    for route in routes.iter() {
        assert!(route.path().starts_with("/api/"));
        assert_eq!(route.is_stub(), !route.path().starts_with("/api/v2/"));
    }
    assert!(!paths.contains(&"/"));
    assert!(!paths.contains(&"/status"));
}
