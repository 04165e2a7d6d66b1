//! What the endpoints of the read surface answer. The caller takes the
//! request, reads the records where the endpoint needs any, and sends
//! what these functions return.

use crate::db::models::block::DatabaseBlock;
use crate::db::models::transaction::DatabaseTransaction;
use crate::db::{pow2_32, InfoForAverageBlock};
use crate::explorer::models::{
    BlockResponse, BlockResponseData, ChartTransactionResponse, ChartTransactionResponseData,
    GetBlockQuery, GetTransactionQuery, IndexingStatusResponse, NextPageParams,
    TransactionResponse, TransactionResponseData,
};
use crate::explorer::models::{
    AccountQuery, BlockQuery, BridgedTokenListQuery, ContractCreationQuery, ContractVerifyQuery,
    LogQuery, MultiAccountQuery, SimpleQuery, SourceCodeQuery, TokenBalanceQuery,
    TokenHoldersQuery, TokenQuery, TokenTxQuery, TransactionHashQuery, TransactionQuery,
    TxListInternalQuery, VerifyStatusQuery,
};
use crate::utils::format::{decimal, format_i64, format_u64, signed_decimal};
use vstd::prelude::*;
use vstd::string::StringExecFns;

verus! {

/// The number in a request parameter that may be absent; 0 where it is.
pub open spec fn number_or_zero(value: Option<i64>) -> int {
    match value {
        Some(v) => v as int,
        None => 0,
    }
}

fn show_number(value: Option<i64>) -> (text: String)
    ensures
        text@ == signed_decimal(number_or_zero(value)),
{
    match value {
        Some(v) => format_i64(v),
        None => format_i64(0),
    }
}

/// The greeting of the indexer. The surface serves it under no path.
pub fn index() -> (body: String)
    ensures
        body@ == "Welcome to the EVM Indexer API!"@,
{
    String::from_str("Welcome to the EVM Indexer API!")
}

/// The word of a running indexer. The surface serves it under no path.
pub fn status() -> (body: String)
    ensures
        body@ == "Status: Running"@,
{
    String::from_str("Status: Running")
}

/// The answer of the stub for the current block number.
pub fn handle_eth_block_number() -> (body: String)
    ensures
        body@ == "Fetching current Ethereum block number"@,
{
    String::from_str("Fetching current Ethereum block number")
}

/// The answer of the stub for the list of contracts.
pub fn handle_listcontracts() -> (body: String)
    ensures
        body@ == "Listing all contracts"@,
{
    String::from_str("Listing all contracts")
}

/// The answer of the stub for the ETH balance of an account.
pub fn handle_eth_get_balance(query: &AccountQuery) -> (body: String)
    ensures
        body@ == "Fetching ETH balance for "@
            + query.address@,
{
    String::from_str("Fetching ETH balance for ").concat(query.address.as_str())
}

/// The answer of the stub for the balance of an account.
pub fn handle_balance(query: &AccountQuery) -> (body: String)
    ensures
        body@ == "Fetching balance for "@
            + query.address@,
{
    String::from_str("Fetching balance for ").concat(query.address.as_str())
}

/// The answer of the stub for the balances of several accounts.
pub fn handle_balancemulti(query: &MultiAccountQuery) -> (body: String)
    ensures
        body@ == "Fetching balances for "@
            + query.address@,
{
    String::from_str("Fetching balances for ").concat(query.address.as_str())
}

/// The answer of the stub for the pending transactions of an account.
pub fn handle_pendingtxlist(query: &TransactionQuery) -> (body: String)
    ensures
        body@ == "Fetching pending transactions for "@
            + query.address@,
{
    String::from_str("Fetching pending transactions for ").concat(query.address.as_str())
}

/// The answer of the stub for the transactions of an account.
pub fn handle_txlist(query: &TransactionQuery) -> (body: String)
    ensures
        body@ == "Fetching transactions for "@
            + query.address@,
{
    String::from_str("Fetching transactions for ").concat(query.address.as_str())
}

/// The answer of the stub for the internal transactions of a transaction.
pub fn handle_txlistinternal(query: &TxListInternalQuery) -> (body: String)
    ensures
        body@ == "Fetching internal transactions for transaction hash "@
            + query.txhash@,
{
    String::from_str("Fetching internal transactions for transaction hash ").concat(query.txhash.as_str())
}

/// The answer of the stub for the token transfers of an account.
pub fn handle_tokentx(query: &TokenTxQuery) -> (body: String)
    ensures
        body@ == "Fetching token transactions for "@
            + query.address@,
{
    String::from_str("Fetching token transactions for ").concat(query.address.as_str())
}

/// The answer of the stub for the balance of an account in a token.
pub fn handle_tokenbalance(query: &TokenBalanceQuery) -> (body: String)
    ensures
        body@ == "Fetching token balance from contract "@
            + query.contractaddress@
            + " for "@
            + query.address@,
{
    String::from_str("Fetching token balance from contract ").concat(query.contractaddress.as_str()).concat(" for ").concat(query.address.as_str())
}

/// The answer of the stub for the reward of a block; block 0 where none is named.
pub fn handle_getblockreward(query: &BlockQuery) -> (body: String)
    ensures
        body@ == "Fetching block reward for block number "@
            + signed_decimal(number_or_zero(query.blockno)),
{
    let blockno = show_number(query.blockno);
    String::from_str("Fetching block reward for block number ").concat(blockno.as_str())
}

/// The answer of the stub for the countdown to a block; block 0 where none is named.
pub fn handle_getblockcountdown(query: &BlockQuery) -> (body: String)
    ensures
        body@ == "Fetching block countdown for block number "@
            + signed_decimal(number_or_zero(query.blockno)),
{
    let blockno = show_number(query.blockno);
    String::from_str("Fetching block countdown for block number ").concat(blockno.as_str())
}

/// The answer of the stub for the block at a time; time 0 and `N/A` where they are not given.
pub fn handle_getblocknobytime(query: &BlockQuery) -> (body: String)
    ensures
        body@ == "Fetching block number by time "@
            + signed_decimal(number_or_zero(query.timestamp))
            + ", closest "@
            + (match query.closest {
            Some(text) => text@,
            None => "N/A"@,
        }),
{
    let timestamp = show_number(query.timestamp);
    let closest = match &query.closest {
        Some(text) => text.as_str(),
        None => "N/A",
    };
    String::from_str("Fetching block number by time ").concat(timestamp.as_str()).concat(", closest ").concat(closest)
}

/// The answer of the stub for the ABI of a contract.
pub fn handle_getabi(query: &SimpleQuery) -> (body: String)
    ensures
        body@ == "Fetching ABI for address "@
            + query.address_hash@,
{
    String::from_str("Fetching ABI for address ").concat(query.address_hash.as_str())
}

/// The answer of the stub for the source code of a contract.
pub fn handle_getsourcecode(query: &SimpleQuery) -> (body: String)
    ensures
        body@ == "Fetching source code for address "@
            + query.address_hash@,
{
    String::from_str("Fetching source code for address ").concat(query.address_hash.as_str())
}

/// The answer of the stub for the creation of contracts.
pub fn handle_getcontractcreation(query: &ContractCreationQuery) -> (body: String)
    ensures
        body@ == "Fetching contract creation info for addresses "@
            + query.contractaddresses@,
{
    String::from_str("Fetching contract creation info for addresses ").concat(query.contractaddresses.as_str())
}

/// The answer of the stub for the verification of a contract.
pub fn handle_verify(query: &ContractVerifyQuery) -> (body: String)
    ensures
        body@ == "Verifying contract at address "@
            + query.address_hash@
            + " with compiler version "@,
{
    String::from_str("Verifying contract at address ").concat(query.address_hash.as_str()).concat(" with compiler version ")
}

/// The answer of the stub for a verification through Sourcify.
pub fn handle_verify_via_sourcify(query: &SimpleQuery) -> (body: String)
    ensures
        body@ == "Verifying contract via Sourcify for address "@
            + query.address_hash@,
{
    String::from_str("Verifying contract via Sourcify for address ").concat(query.address_hash.as_str())
}

/// The answer of the stub for the verification of a Vyper contract.
pub fn handle_verify_vyper_contract(query: &ContractVerifyQuery) -> (body: String)
    ensures
        body@ == "Verifying Vyper contract at address "@
            + query.address_hash@,
{
    String::from_str("Verifying Vyper contract at address ").concat(query.address_hash.as_str())
}

/// The answer of the stub for the verification of source code.
pub fn handle_verifysourcecode(query: &SourceCodeQuery) -> (body: String)
    ensures
        body@ == "Verifying source code for address "@
            + query.address_hash@
            + ", format "@,
{
    String::from_str("Verifying source code for address ").concat(query.address_hash.as_str()).concat(", format ")
}

/// The answer of the stub for the state of a verification.
pub fn handle_checkverifystatus(query: &VerifyStatusQuery) -> (body: String)
    ensures
        body@ == "Checking verification status with GUID "@
            + query.guid@,
{
    String::from_str("Checking verification status with GUID ").concat(query.guid.as_str())
}

/// The answer of the stub for the verification of a proxy contract.
pub fn handle_verifyproxycontract(query: &SimpleQuery) -> (body: String)
    ensures
        body@ == "Verifying proxy contract for address "@
            + query.address_hash@,
{
    String::from_str("Verifying proxy contract for address ").concat(query.address_hash.as_str())
}

/// The answer of the stub for the state of a proxy verification.
pub fn handle_checkproxyverification(query: &VerifyStatusQuery) -> (body: String)
    ensures
        body@ == "Checking proxy verification status with GUID "@
            + query.guid@,
{
    String::from_str("Checking proxy verification status with GUID ").concat(query.guid.as_str())
}

/// The answer of the stub for the logs of an address.
pub fn handle_get_logs(query: &LogQuery) -> (body: String)
    ensures
        body@ == "Fetching logs from block "@
            + signed_decimal(query.from_block as int)
            + " to "@
            + signed_decimal(query.to_block as int)
            + " for address "@
            + query.address@
            + " with topics "@
            + query.topic0@
            + " and"@,
{
    let from_block = format_i64(query.from_block as i64);
    let to_block = format_i64(query.to_block as i64);
    String::from_str("Fetching logs from block ").concat(from_block.as_str()).concat(" to ").concat(to_block.as_str()).concat(" for address ").concat(query.address.as_str()).concat(" with topics ").concat(query.topic0.as_str()).concat(" and")
}

/// The answer of the stub for the supply of a token.
pub fn handle_token_supply(query: &TokenQuery) -> (body: String)
    ensures
        body@ == "Fetching token supply for contract address "@
            + query.contractaddress@,
{
    String::from_str("Fetching token supply for contract address ").concat(query.contractaddress.as_str())
}

/// The answer of the stub for the details of a token.
pub fn handle_get_token(query: &TokenQuery) -> (body: String)
    ensures
        body@ == "Fetching token details for contract address "@
            + query.contractaddress@,
{
    String::from_str("Fetching token details for contract address ").concat(query.contractaddress.as_str())
}

/// The answer of the stub for the holders of a token.
pub fn handle_get_token_holders(query: &TokenHoldersQuery) -> (body: String)
    ensures
        body@ == "Fetching token holders for contract address "@
            + query.contractaddress@
            + " on page "@
            + signed_decimal(query.page as int)
            + " with offset "@
            + signed_decimal(query.offset as int),
{
    let page = format_i64(query.page as i64);
    let offset = format_i64(query.offset as i64);
    String::from_str("Fetching token holders for contract address ").concat(query.contractaddress.as_str()).concat(" on page ").concat(page.as_str()).concat(" with offset ").concat(offset.as_str())
}

/// The answer of the stub for the bridged tokens of a chain.
pub fn handle_bridged_token_list(query: &BridgedTokenListQuery) -> (body: String)
    ensures
        body@ == "Fetching bridged token list for chain ID "@
            + signed_decimal(query.chainid as int)
            + " on page "@
            + signed_decimal(query.page as int)
            + " with offset "@
            + signed_decimal(query.offset as int),
{
    let chainid = format_i64(query.chainid as i64);
    let page = format_i64(query.page as i64);
    let offset = format_i64(query.offset as i64);
    String::from_str("Fetching bridged token list for chain ID ").concat(chainid.as_str()).concat(" on page ").concat(page.as_str()).concat(" with offset ").concat(offset.as_str())
}

/// The answer of the stub for a transaction.
pub fn handle_get_tx_info(query: &TransactionHashQuery) -> (body: String)
    ensures
        body@ == "Fetching transaction info for hash "@
            + query.txhash@,
{
    String::from_str("Fetching transaction info for hash ").concat(query.txhash.as_str())
}

/// The answer of the stub for the receipt status of a transaction.
pub fn handle_get_tx_receipt_status(query: &TransactionHashQuery) -> (body: String)
    ensures
        body@ == "Fetching transaction receipt status for hash "@
            + query.txhash@,
{
    String::from_str("Fetching transaction receipt status for hash ").concat(query.txhash.as_str())
}

/// The answer of the stub for the status of a transaction.
pub fn handle_get_status(query: &TransactionHashQuery) -> (body: String)
    ensures
        body@ == "Fetching transaction status for hash "@
            + query.txhash@,
{
    String::from_str("Fetching transaction status for hash ").concat(query.txhash.as_str())
}

/// How many records a page of a list holds.
pub const PAGE_SIZE: u32 = 50;

/// How many records the main page shows of each kind.
pub const MAIN_PAGE_SIZE: u32 = 6;

/// Which records to read for a page: skip the first `skip_count`, then
/// take at most `limit`.
#[derive(Clone, Copy, Debug, PartialEq, Eq, Structural)]
pub struct PageRequest {
    pub skip_count: u32,
    pub limit: u32,
}

/// The records to read for a page of the block list: as many are skipped
/// as earlier pages have shown.
pub fn blocks_request(query: &GetBlockQuery) -> (request: PageRequest)
    ensures
        request == (PageRequest {
            skip_count: query.items_count.unwrap_or(0),
            limit: PAGE_SIZE,
        }),
{
    PageRequest {
        skip_count: match query.items_count {
            Some(count) => count,
            None => 0,
        },
        limit: PAGE_SIZE,
    }
}

/// The records to read for a page of the transaction list.
pub fn transactions_request(query: &GetTransactionQuery) -> (request: PageRequest)
    ensures
        request == (PageRequest {
            skip_count: query.items_count.unwrap_or(0),
            limit: PAGE_SIZE,
        }),
{
    PageRequest {
        skip_count: match query.items_count {
            Some(count) => count,
            None => 0,
        },
        limit: PAGE_SIZE,
    }
}

/// The records to read for the main page.
pub fn main_page_request() -> (request: PageRequest)
    ensures
        request == (PageRequest { skip_count: 0, limit: MAIN_PAGE_SIZE }),
{
    PageRequest { skip_count: 0, limit: MAIN_PAGE_SIZE }
}

/// Where the page after this one starts: at the block below the last one
/// shown, block 0 where the last one is block 0, and block 1 where
/// nothing is shown; and behind all records shown so far, their count
/// held to 32 bits.
pub open spec fn next_page(last_block: Option<u64>, skip_count: u32, shown: nat) -> NextPageParams {
    NextPageParams {
        block_number: match last_block {
            Some(block) => if block > 0 {
                (block - 1) as u64
            } else {
                0
            },
            None => 1,
        },
        items_count: if skip_count + shown > u32::MAX {
            u32::MAX
        } else {
            (skip_count + shown) as u32
        },
    }
}

/// Where the page after this one starts.
pub fn next_page_params(last_block: Option<u64>, skip_count: u32, shown: usize) -> (next:
    NextPageParams)
    ensures
        next == next_page(last_block, skip_count, shown as nat),
{
    let block_number = match last_block {
        Some(block) => if block > 0 {
            block - 1
        } else {
            0
        },
        None => 1,
    };
    let items_count = if shown > (u32::MAX - skip_count) as usize {
        u32::MAX
    } else {
        skip_count + shown as u32
    };
    NextPageParams { block_number, items_count }
}

/// `items` show `rows`, one for one.
pub open spec fn show_blocks(items: Seq<BlockResponse>, rows: Seq<DatabaseBlock>) -> bool {
    &&& items.len() == rows.len()
    &&& forall|i: int| 0 <= i < items.len() ==> (#[trigger] items[i]).shows(&rows[i])
}

/// `items` show `rows`, one for one.
pub open spec fn show_transactions(
    items: Seq<TransactionResponse>,
    rows: Seq<DatabaseTransaction>,
) -> bool {
    &&& items.len() == rows.len()
    &&& forall|i: int| 0 <= i < items.len() ==> (#[trigger] items[i]).shows(&rows[i])
}

/// The blocks of the main page: each record as the surface shows it.
pub fn handle_main_page_blocks(database_blocks: Vec<DatabaseBlock>) -> (items: Vec<BlockResponse>)
    ensures
        show_blocks(items@, database_blocks@),
{
    let mut rest = database_blocks;
    let mut items: Vec<BlockResponse> = Vec::new();
    while rest.len() > 0
        invariant
            items@.len() + rest@.len() == database_blocks@.len(),
            rest@ == database_blocks@.skip(items@.len() as int),
            forall|i: int|
                0 <= i < items@.len() ==> (#[trigger] items@[i]).shows(&database_blocks@[i]),
        decreases rest@.len(),
    {
        let row = rest.remove(0);
        assert(row == database_blocks@[items@.len() as int]);
        items.push(BlockResponse::from(row));
    }
    items
}

/// The transactions of the main page: each record as the surface shows
/// it.
pub fn handle_main_page_transactions(database_transactions: Vec<DatabaseTransaction>) -> (items:
    Vec<TransactionResponse>)
    ensures
        show_transactions(items@, database_transactions@),
{
    let mut rest = database_transactions;
    let mut items: Vec<TransactionResponse> = Vec::new();
    while rest.len() > 0
        invariant
            items@.len() + rest@.len() == database_transactions@.len(),
            rest@ == database_transactions@.skip(items@.len() as int),
            forall|i: int|
                0 <= i < items@.len() ==> (#[trigger] items@[i]).shows(&database_transactions@[i]),
        decreases rest@.len(),
    {
        let row = rest.remove(0);
        assert(row == database_transactions@[items@.len() as int]);
        items.push(TransactionResponse::from(row));
    }
    items
}

/// The block of the last record, where there is a record.
pub open spec fn last_block_of(rows: Seq<DatabaseBlock>) -> Option<u64> {
    if rows.len() > 0 {
        Some(rows.last().number as u64)
    } else {
        None
    }
}

/// The block of the last transaction, where there is one.
pub open spec fn last_block_of_transactions(rows: Seq<DatabaseTransaction>) -> Option<u64> {
    if rows.len() > 0 {
        Some(rows.last().block_number as u64)
    } else {
        None
    }
}

/// A page of the block list: the records that were read for the request,
/// as the surface shows them, and where the next page starts.
pub fn handle_get_blocks(query: &GetBlockQuery, database_blocks: Vec<DatabaseBlock>) -> (page:
    BlockResponseData)
    ensures
        show_blocks(page.items@, database_blocks@),
        page.next_page_params == next_page(
            last_block_of(database_blocks@),
            query.items_count.unwrap_or(0),
            database_blocks@.len(),
        ),
{
    let request = blocks_request(query);
    let shown = database_blocks.len();
    let last_block = if shown > 0 {
        Some(database_blocks[shown - 1].number as u64)
    } else {
        None
    };
    BlockResponseData {
        items: handle_main_page_blocks(database_blocks),
        next_page_params: next_page_params(last_block, request.skip_count, shown),
    }
}

/// A page of the transaction list: the records that were read for the
/// request, as the surface shows them, and where the next page starts.
pub fn handle_get_transactions(
    query: &GetTransactionQuery,
    database_transactions: Vec<DatabaseTransaction>,
) -> (page: TransactionResponseData)
    ensures
        show_transactions(page.items@, database_transactions@),
        page.next_page_params == next_page(
            last_block_of_transactions(database_transactions@),
            query.items_count.unwrap_or(0),
            database_transactions@.len(),
        ),
{
    let request = transactions_request(query);
    let shown = database_transactions.len();
    let last_block = if shown > 0 {
        Some(database_transactions[shown - 1].block_number as u64)
    } else {
        None
    };
    TransactionResponseData {
        items: handle_main_page_transactions(database_transactions),
        next_page_params: next_page_params(last_block, request.skip_count, shown),
    }
}

/// One block as the surface shows it.
pub fn handle_get_block_by_id(database_block: DatabaseBlock) -> (response: BlockResponse)
    ensures
        response.shows(&database_block),
{
    BlockResponse::from(database_block)
}

/// One transaction as the surface shows it.
pub fn handle_get_transaction_by_id(database_transaction: DatabaseTransaction) -> (response:
    TransactionResponse)
    ensures
        response.shows(&database_transaction),
{
    TransactionResponse::from(database_transaction)
}

/// The summary of a transaction: its hash, handed back.
pub fn handle_get_transaction_summary_for_id(hash: String) -> (body: String)
    ensures
        body@ == hash@,
{
    hash
}

/// The state of the indexing as the surface reports it: finished.
pub fn handle_get_indexing_status() -> (response: IndexingStatusResponse)
    ensures
        response.finished_indexing,
        response.finished_indexing_blocks,
        response.indexed_blocks_ratio@ == "1.00"@,
        response.indexed_internal_transactions_ratio@ == "1.00"@,
{
    IndexingStatusResponse {
        finished_indexing: true,
        finished_indexing_blocks: true,
        indexed_blocks_ratio: String::from_str("1.00"),
        indexed_internal_transactions_ratio: String::from_str("1.00"),
    }
}

/// The transaction counts of the last days, as they were read.
pub fn handle_get_stats_charts_transactions(
    chart_transaction: Vec<ChartTransactionResponse>,
) -> (response: ChartTransactionResponseData)
    ensures
        response.chart_data@ == chart_transaction@,
{
    ChartTransactionResponseData { chart_data: chart_transaction }
}

/// What the statistics take from the chain: the average block time in
/// milliseconds and the number of the newest block as text.
#[derive(Clone, Debug)]
pub struct ChainStats {
    pub average_block_time: u32,
    pub total_blocks: String,
}

/// The statistics of the chain, where an average block time can be
/// taken: the last of the newest blocks is later in number and not
/// earlier in time than the first.
pub fn handle_get_stats(info: &InfoForAverageBlock) -> (stats: Option<ChainStats>)
    ensures
        stats is Some <==> info.has_block_time(),
        stats matches Some(s) ==> s.average_block_time == info.block_time_millis() % pow2_32()
            && s.total_blocks@ == decimal(info.end_number as nat),
{
    match info.average_block_time() {
        Some(millis) => Some(
            ChainStats {
                average_block_time: millis,
                total_blocks: format_u64(info.end_number as u64),
            },
        ),
        None => None,
    }
}

} // verus!
