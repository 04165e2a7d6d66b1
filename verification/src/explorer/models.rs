//! The shapes of the read surface and how records are shown in them.

use crate::db::models::block::DatabaseBlock;
use crate::db::models::transaction::{DatabaseTransaction, TransactionStatus};
use crate::utils::format::{
    decimal, decimal_or_empty, format_u128, format_u64, text_of, text_or_empty,
};
use crate::utils::time::{format_timestamp, timestamp_text};
use crate::utils::u256::U256;
use vstd::prelude::*;
use vstd::string::StringExecFns;

verus! {

/// A 64-bit number that may be absent, as a number.
pub open spec fn nat_of_u64(value: Option<u64>) -> Option<nat> {
    match value {
        Some(v) => Some(v as nat),
        None => None,
    }
}

/// A 128-bit number that may be absent, as a number.
pub open spec fn nat_of_u128(value: Option<u128>) -> Option<nat> {
    match value {
        Some(v) => Some(v as nat),
        None => None,
    }
}

/// A 256-bit number that may be absent, as a number.
pub open spec fn nat_of_u256(value: Option<U256>) -> Option<nat> {
    match value {
        Some(v) => Some(v@),
        None => None,
    }
}

fn show_u64(value: Option<u64>) -> (text: String)
    ensures
        text@ == decimal_or_empty(nat_of_u64(value)),
{
    match value {
        Some(v) => format_u64(v),
        None => String::new(),
    }
}

fn show_u128(value: Option<u128>) -> (text: String)
    ensures
        text@ == decimal_or_empty(nat_of_u128(value)),
{
    match value {
        Some(v) => format_u128(v),
        None => String::new(),
    }
}

fn show_u256(value: Option<U256>) -> (text: String)
    ensures
        text@ == decimal_or_empty(nat_of_u256(value)),
{
    match value {
        Some(v) => v.to_string(),
        None => String::new(),
    }
}

/// Who mined a block.
#[derive(Clone, Debug)]
pub struct Miner {
    pub ens_domain_name: Option<String>,
    pub hash: String,
    pub implementation_name: Option<String>,
}

/// A reward paid for a block.
#[derive(Clone, Debug)]
pub struct Reward {
    pub reward: String,
    pub type_field: String,
}

/// A block as the surface shows it. Quantities are decimal text.
#[derive(Clone, Debug)]
pub struct BlockResponse {
    pub base_fee_per_gas: String,
    pub blob_gas_used: String,
    pub blob_tx_count: u32,
    pub burnt_fees: String,
    pub difficulty: String,
    pub excess_blob_gas: String,
    pub gas_limit: String,
    pub gas_used: String,
    pub hash: String,
    pub height: u64,
    pub miner: Miner,
    pub nonce: String,
    pub parent_hash: String,
    pub priority_fee: u64,
    pub rewards: Vec<Reward>,
    pub size: u64,
    pub timestamp: String,
    pub total_difficulty: String,
    pub tx_count: u32,
    pub tx_fees: String,
    pub type_field: String,
    pub uncles_hashes: Vec<String>,
    pub withdrawals_count: Option<u32>,
}

impl BlockResponse {
    /// `self` is how the surface shows `block`.
    pub open spec fn shows(&self, block: &DatabaseBlock) -> bool {
        &&& self.base_fee_per_gas@ == decimal_or_empty(nat_of_u64(block.base_fee_per_gas))
        &&& self.blob_gas_used@ == decimal(block.gas_used as nat)
        &&& self.blob_tx_count == block.transactions
        &&& self.burnt_fees@ == decimal(block.burned@)
        &&& self.difficulty@ == decimal(block.difficulty@)
        &&& self.excess_blob_gas@ == "0"@
        &&& self.gas_limit@ == decimal(block.gas_limit as nat)
        &&& self.gas_used@ == decimal(block.gas_used as nat)
        &&& self.hash@ == block.hash@
        &&& self.height == block.number
        &&& self.miner.ens_domain_name is None
        &&& self.miner.hash@ == block.miner@
        &&& self.miner.implementation_name is None
        &&& self.nonce@ == block.nonce@
        &&& self.parent_hash@ == block.parent_hash@
        &&& self.priority_fee == 0
        &&& self.rewards@.len() == 0
        &&& self.size == block.size
        &&& self.timestamp@ == timestamp_text(block.timestamp)
        &&& self.total_difficulty@ == decimal_or_empty(nat_of_u256(block.total_difficulty))
        &&& self.tx_count == block.transactions
        &&& self.tx_fees@ == decimal(block.total_fee_reward@)
        &&& self.type_field@ == "block"@
        &&& self.uncles_hashes@ == block.uncles@
        &&& self.withdrawals_count is None
    }

    /// Shows a block record.
    pub fn from(db_block: DatabaseBlock) -> (response: BlockResponse)
        ensures
            response.shows(&db_block),
    {
        BlockResponse {
            base_fee_per_gas: show_u64(db_block.base_fee_per_gas),
            blob_gas_used: format_u64(db_block.gas_used),
            blob_tx_count: db_block.transactions,
            burnt_fees: db_block.burned.to_string(),
            difficulty: db_block.difficulty.to_string(),
            excess_blob_gas: String::from_str("0"),
            gas_limit: format_u64(db_block.gas_limit),
            gas_used: format_u64(db_block.gas_used),
            hash: db_block.hash,
            height: db_block.number as u64,
            miner: Miner { ens_domain_name: None, hash: db_block.miner, implementation_name: None },
            nonce: db_block.nonce,
            parent_hash: db_block.parent_hash,
            priority_fee: 0,
            rewards: Vec::new(),
            size: db_block.size as u64,
            timestamp: format_timestamp(db_block.timestamp),
            total_difficulty: show_u256(db_block.total_difficulty),
            tx_count: db_block.transactions,
            tx_fees: db_block.total_fee_reward.to_string(),
            type_field: String::from_str("block"),
            uncles_hashes: db_block.uncles,
            withdrawals_count: None,
        }
    }
}

/// A fee and the scheme under which it was paid.
#[derive(Clone, Debug)]
pub struct FeeType {
    pub type_field: String,
    pub value: String,
}

/// An account as one end of a transaction.
#[derive(Clone, Debug)]
pub struct TransAccountType {
    pub ens_domain_name: String,
    pub hash: String,
    pub implementation_name: Option<String>,
    pub is_contract: bool,
    pub is_verified: Option<bool>,
    pub metadata: Option<String>,
    pub name: Option<String>,
    pub private_tags: Vec<String>,
    pub public_tags: Vec<String>,
    pub watchlist_names: Vec<String>,
}

impl TransAccountType {
    /// `self` is the account with the address `hash`, of which nothing
    /// else is known.
    pub open spec fn is_plain(&self, hash: Seq<char>) -> bool {
        &&& self.ens_domain_name@.len() == 0
        &&& self.hash@ == hash
        &&& self.implementation_name is None
        &&& !self.is_contract
        &&& self.is_verified is None
        &&& self.metadata is None
        &&& self.name is None
        &&& self.private_tags@.len() == 0
        &&& self.public_tags@.len() == 0
        &&& self.watchlist_names@.len() == 0
    }

    /// The account with the address `hash`, of which nothing else is known.
    pub fn plain(hash: String) -> (account: TransAccountType)
        ensures
            account.is_plain(hash@),
    {
        TransAccountType {
            ens_domain_name: String::new(),
            hash,
            implementation_name: None,
            is_contract: false,
            is_verified: None,
            metadata: None,
            name: None,
            private_tags: Vec::new(),
            public_tags: Vec::new(),
            watchlist_names: Vec::new(),
        }
    }
}

/// How the surface words a transaction's status.
pub open spec fn status_text(status: TransactionStatus) -> Seq<char> {
    match status {
        TransactionStatus::Success => "ok"@,
        TransactionStatus::Failure => "error"@,
        TransactionStatus::Unknown => "Unknown"@,
    }
}

/// A transaction as the surface shows it. Quantities are decimal text.
#[derive(Clone, Debug)]
pub struct TransactionResponse {
    pub actions: Vec<String>,
    pub base_fee_per_gas: String,
    pub block: u64,
    pub confirmation_duration: Vec<u32>,
    pub confirmations: u32,
    pub created_contract: Option<String>,
    pub decode_input: Option<String>,
    pub exchange_rate: String,
    pub fee: FeeType,
    pub from: TransAccountType,
    pub gas_limit: String,
    pub gas_price: String,
    pub gas_used: String,
    pub has_error_in_internal_txs: bool,
    pub hash: String,
    pub max_fee_per_gas: String,
    pub max_priority_fee_per_gas: String,
    pub method: Option<String>,
    pub nonce: u32,
    pub position: u32,
    pub priority_fee: Option<String>,
    pub raw_input: String,
    pub result: String,
    pub revert_reason: Option<String>,
    pub status: String,
    pub timestamp: String,
    pub to: TransAccountType,
    pub token_transfers: Option<String>,
    pub token_transfers_overflow: Option<String>,
    pub tx_burnt_fee: Option<String>,
    pub tx_tag: Option<String>,
    pub tx_types: Vec<String>,
    pub type_field: u32,
    pub value: String,
}

impl TransactionResponse {
    /// `self` is how the surface shows `tx`.
    pub open spec fn shows(&self, tx: &DatabaseTransaction) -> bool {
        &&& self.actions@.len() == 0
        &&& self.base_fee_per_gas@ == decimal_or_empty(nat_of_u64(tx.base_fee_per_gas))
        &&& self.block == tx.block_number
        &&& self.confirmation_duration@.len() == 0
        &&& self.confirmations == 0
        &&& text_of(self.created_contract) == text_of(tx.contract_created)
        &&& text_of(self.decode_input) == Some(tx.input@)
        &&& self.exchange_rate@.len() == 0
        &&& self.fee.type_field@ == "Standard"@
        &&& self.fee.value@ == decimal_or_empty(nat_of_u256(tx.effective_transaction_fee))
        &&& self.from.is_plain(tx.from@)
        &&& self.gas_limit@ == decimal(tx.gas as nat)
        &&& self.gas_price@ == decimal_or_empty(nat_of_u128(tx.gas_price))
        &&& self.gas_used@ == decimal_or_empty(nat_of_u64(tx.gas_used))
        &&& !self.has_error_in_internal_txs
        &&& self.hash@ == tx.hash@
        &&& self.max_fee_per_gas@ == decimal_or_empty(nat_of_u128(tx.max_fee_per_gas))
        &&& self.max_priority_fee_per_gas@ == decimal_or_empty(
            nat_of_u128(tx.max_priority_fee_per_gas),
        )
        &&& text_of(self.method) == Some(tx.method@)
        &&& self.nonce == tx.nonce
        &&& self.position == tx.transaction_index
        &&& self.priority_fee is None
        &&& self.raw_input@ == tx.input@
        &&& self.result@ == "success"@
        &&& self.revert_reason is None
        &&& self.status@ == status_text(tx.status)
        &&& self.timestamp@ == timestamp_text(tx.timestamp)
        &&& self.to.is_plain(text_or_empty(tx.to))
        &&& self.token_transfers is None
        &&& self.token_transfers_overflow is None
        &&& text_of(self.tx_burnt_fee) == match tx.burned {
            Some(burned) => Some(decimal(burned@)),
            None => None,
        }
        &&& self.tx_tag is None
        &&& self.tx_types@.len() == 3
        &&& self.tx_types@[0]@ == "coin_transfer"@
        &&& self.tx_types@[1]@ == "contract_call"@
        &&& self.tx_types@[2]@ == "token_transfer"@
        &&& self.type_field == tx.transaction_type
        &&& self.value@ == decimal(tx.value@)
    }

    /// Shows a transaction record.
    pub fn from(dt: DatabaseTransaction) -> (response: TransactionResponse)
        ensures
            response.shows(&dt),
    {
        let status = match dt.status {
            TransactionStatus::Success => String::from_str("ok"),
            TransactionStatus::Failure => String::from_str("error"),
            TransactionStatus::Unknown => String::from_str("Unknown"),
        };
        let tx_burnt_fee = match dt.burned {
            Some(burned) => Some(burned.to_string()),
            None => None,
        };
        let to = match dt.to {
            Some(address) => address,
            None => String::new(),
        };
        let mut tx_types: Vec<String> = Vec::new();
        tx_types.push(String::from_str("coin_transfer"));
        tx_types.push(String::from_str("contract_call"));
        tx_types.push(String::from_str("token_transfer"));
        TransactionResponse {
            actions: Vec::new(),
            base_fee_per_gas: show_u64(dt.base_fee_per_gas),
            block: dt.block_number as u64,
            confirmation_duration: Vec::new(),
            confirmations: 0,
            created_contract: dt.contract_created,
            decode_input: Some(dt.input.clone()),
            exchange_rate: String::new(),
            fee: FeeType {
                type_field: String::from_str("Standard"),
                value: show_u256(dt.effective_transaction_fee),
            },
            from: TransAccountType::plain(dt.from),
            gas_limit: format_u64(dt.gas),
            gas_price: show_u128(dt.gas_price),
            gas_used: show_u64(dt.gas_used),
            has_error_in_internal_txs: false,
            hash: dt.hash,
            max_fee_per_gas: show_u128(dt.max_fee_per_gas),
            max_priority_fee_per_gas: show_u128(dt.max_priority_fee_per_gas),
            method: Some(dt.method.clone()),
            nonce: dt.nonce,
            position: dt.transaction_index,
            priority_fee: None,
            raw_input: dt.input,
            result: String::from_str("success"),
            revert_reason: None,
            status,
            timestamp: format_timestamp(dt.timestamp),
            to: TransAccountType::plain(to),
            token_transfers: None,
            token_transfers_overflow: None,
            tx_burnt_fee,
            tx_tag: None,
            tx_types,
            type_field: dt.transaction_type as u32,
            value: dt.value.to_string(),
        }
    }
}

/// Where the next page of a list starts.
#[derive(Clone, Copy, Debug, PartialEq, Eq, Structural)]
pub struct NextPageParams {
    pub block_number: u64,
    pub items_count: u32,
}

/// A page of the block list.
#[derive(Clone, Debug)]
pub struct BlockResponseData {
    pub items: Vec<BlockResponse>,
    pub next_page_params: NextPageParams,
}

/// A page of the transaction list.
#[derive(Clone, Debug)]
pub struct TransactionResponseData {
    pub items: Vec<TransactionResponse>,
    pub next_page_params: NextPageParams,
}

/// How many transactions a day saw.
#[derive(Clone, Debug)]
pub struct ChartTransactionResponse {
    pub date: String,
    pub tx_count: u32,
}

/// The transaction counts of the last days.
#[derive(Clone, Debug)]
pub struct ChartTransactionResponseData {
    pub chart_data: Vec<ChartTransactionResponse>,
}

/// The template of a transaction summary.
#[derive(Clone, Debug)]
pub struct SummaryTemplate {
    pub approved: Option<u32>,
}

/// How a transaction summary came about.
#[derive(Clone, Debug)]
pub struct TransactionDebugData {
    pub is_prompt_truncated: bool,
    pub model_classification_type: String,
    pub post_llm_classification_type: String,
    pub summary_template: SummaryTemplate,
    pub transaction_hash: String,
}

/// The summaries of a transaction.
#[derive(Clone, Debug)]
pub struct TransactionSummaryResponse {
    pub debug_data: TransactionDebugData,
    pub summaries: Vec<u32>,
}

/// The answer to a request for a transaction summary.
#[derive(Clone, Debug)]
pub struct TransactionSummaryResponseData {
    pub data: TransactionSummaryResponse,
    pub success: bool,
}

/// How far the indexing has come.
#[derive(Clone, Debug)]
pub struct IndexingStatusResponse {
    pub finished_indexing: bool,
    pub finished_indexing_blocks: bool,
    pub indexed_blocks_ratio: String,
    pub indexed_internal_transactions_ratio: String,
}

/// Which page of the block list is asked for.
#[derive(Clone, Debug)]
pub struct GetBlockQuery {
    pub block_number: Option<u64>,
    pub items_count: Option<u32>,
}

/// Which page of the transaction list is asked for.
#[derive(Clone, Debug)]
pub struct GetTransactionQuery {
    pub hash: Option<String>,
    pub index: Option<u32>,
    pub items_count: Option<u32>,
}

/// A request without parameters.
#[derive(Clone, Debug)]
pub struct EmptyQuery {
}

/// A request about one account.
#[derive(Clone, Debug)]
pub struct AccountQuery {
    pub address: String,
}

/// A request about several accounts, their addresses separated by commas.
#[derive(Clone, Debug)]
pub struct MultiAccountQuery {
    pub address: String,
}

/// A request for the transactions of an account.
#[derive(Clone, Debug)]
pub struct TransactionQuery {
    pub address: String,
    pub startblock: Option<i64>,
    pub endblock: Option<i64>,
    pub page: Option<i32>,
    pub offset: Option<i32>,
    pub sort: Option<String>,
}

/// A request for the internal transactions of a transaction.
#[derive(Clone, Debug)]
pub struct TxListInternalQuery {
    pub txhash: String,
    pub startblock: Option<i64>,
    pub endblock: Option<i64>,
    pub page: Option<i32>,
    pub offset: Option<i32>,
    pub sort: Option<String>,
}

/// A request for the token transfers of an account.
#[derive(Clone, Debug)]
pub struct TokenTxQuery {
    pub address: String,
    pub page: Option<i32>,
    pub offset: Option<i32>,
    pub sort: Option<String>,
}

/// A request for the balance of an account in one token.
#[derive(Clone, Debug)]
pub struct TokenBalanceQuery {
    pub contractaddress: String,
    pub address: String,
}

/// A request about a block, by number or by time.
#[derive(Clone, Debug)]
pub struct BlockQuery {
    pub blockno: Option<i64>,
    pub timestamp: Option<i64>,
    pub closest: Option<String>,
}

/// A request about one contract.
#[derive(Clone, Debug)]
pub struct ContractQuery {
    pub address: String,
}

/// A request to verify the source of a contract.
#[derive(Clone, Debug)]
pub struct ContractVerifyQuery {
    pub address_hash: String,
    pub name: Option<String>,
    pub compiler_version: Option<String>,
    pub optimization: Option<bool>,
    pub contract_source_code: Option<String>,
}

/// A request about the creation of several contracts, their addresses separated by commas.
#[derive(Clone, Debug)]
pub struct ContractCreationQuery {
    pub contractaddresses: String,
}

/// A request that names one address.
#[derive(Clone, Debug)]
pub struct SimpleQuery {
    pub address_hash: String,
}

/// A request to verify source code in a given format.
#[derive(Clone, Debug)]
pub struct SourceCodeQuery {
    pub address_hash: String,
    pub codeformat: Option<String>,
    pub contractaddress: Option<String>,
    pub contractname: Option<String>,
    pub compilerversion: Option<String>,
    pub source_code: Option<String>,
}

/// A request for the state of a verification.
#[derive(Clone, Debug)]
pub struct VerifyStatusQuery {
    pub guid: String,
}

/// A request for the logs of an address in a range of blocks.
#[derive(Clone, Debug)]
pub struct LogQuery {
    pub from_block: i64,
    pub to_block: i64,
    pub address: String,
    pub topic0: String,
    pub topic1: Option<String>,
    pub topic0_1_opr: Option<String>,
}

/// A request about one token.
#[derive(Clone, Debug)]
pub struct TokenQuery {
    pub contractaddress: String,
}

/// A request for a page of the holders of a token.
#[derive(Clone, Debug)]
pub struct TokenHoldersQuery {
    pub contractaddress: String,
    pub page: i32,
    pub offset: i32,
}

/// A request for a page of the bridged tokens of a chain.
#[derive(Clone, Debug)]
pub struct BridgedTokenListQuery {
    pub chainid: i32,
    pub page: i32,
    pub offset: i32,
}

/// A request about one transaction.
#[derive(Clone, Debug)]
pub struct TransactionHashQuery {
    pub txhash: String,
}

} // verus!
