//! The store's tables and the payload that one batch writes into them.

pub mod models;
pub mod queries;
pub mod store;
pub mod tracker;

use crate::db::models::block::DatabaseBlock;
use crate::db::models::contract::DatabaseContract;
use crate::db::models::dex_trade::DatabaseDexTrade;
use crate::db::models::erc1155_transfer::DatabaseERC1155Transfer;
use crate::db::models::erc20_transfer::DatabaseERC20Transfer;
use crate::db::models::erc721_transfer::DatabaseERC721Transfer;
use crate::db::models::log::DatabaseLog;
use crate::db::models::trace::DatabaseTrace;
use crate::db::models::transaction::DatabaseTransaction;
use crate::db::models::withdrawal::DatabaseWithdrawal;
use vstd::prelude::*;

verus! {

/// The ten tables of the persisted schema.
#[derive(Clone, Copy, Debug, PartialEq, Eq, Structural)]
pub enum DatabaseTables {
    Blocks,
    Contracts,
    Logs,
    Traces,
    Transactions,
    Withdrawals,
    Erc20Transfers,
    Erc721Transfers,
    Erc1155Transfers,
    DexTrades,
}

impl DatabaseTables {
    /// The table's name in the store.
    pub open spec fn name(self) -> Seq<char> {
        match self {
            DatabaseTables::Blocks => "blocks"@,
            DatabaseTables::Contracts => "contracts"@,
            DatabaseTables::Logs => "logs"@,
            DatabaseTables::Traces => "traces"@,
            DatabaseTables::Transactions => "transactions"@,
            DatabaseTables::Withdrawals => "withdrawals"@,
            DatabaseTables::Erc20Transfers => "erc20_transfers"@,
            DatabaseTables::Erc721Transfers => "erc721_transfers"@,
            DatabaseTables::Erc1155Transfers => "erc1155_transfers"@,
            DatabaseTables::DexTrades => "dex_trades"@,
        }
    }

    /// Whether rows of this table depend on a block row, and so must be
    /// written before it.
    pub open spec fn is_dependent(self) -> bool {
        self != DatabaseTables::Blocks
    }

    pub fn as_str(&self) -> (name: &'static str)
        ensures
            name@ == self.name(),
    {
        match self {
            DatabaseTables::Blocks => "blocks",
            DatabaseTables::Contracts => "contracts",
            DatabaseTables::Logs => "logs",
            DatabaseTables::Traces => "traces",
            DatabaseTables::Transactions => "transactions",
            DatabaseTables::Withdrawals => "withdrawals",
            DatabaseTables::Erc20Transfers => "erc20_transfers",
            DatabaseTables::Erc721Transfers => "erc721_transfers",
            DatabaseTables::Erc1155Transfers => "erc1155_transfers",
            DatabaseTables::DexTrades => "dex_trades",
        }
    }
}

/// The first and last of the most recent blocks, from which the average
/// block time is taken.
#[derive(Clone, Copy, Debug, PartialEq, Eq, Structural)]
pub struct InfoForAverageBlock {
    pub start_timestamp: u32,
    pub end_timestamp: u32,
    pub start_number: u32,
    pub end_number: u32,
}

impl Default for InfoForAverageBlock {
    fn default() -> (info: Self)
        ensures
            info == (InfoForAverageBlock {
                start_timestamp: 0,
                end_timestamp: 1,
                start_number: 0,
                end_number: 1,
            }),
    {
        Self::new()
    }
}

impl InfoForAverageBlock {
    /// The value that stands in when the store cannot answer: one block
    /// in one second.
    pub fn new() -> (info: Self)
        ensures
            info == (InfoForAverageBlock {
                start_timestamp: 0,
                end_timestamp: 1,
                start_number: 0,
                end_number: 1,
            }),
    {
        Self { start_timestamp: 0, end_timestamp: 1, start_number: 0, end_number: 1 }
    }

    /// The average time between two blocks in milliseconds, rounded down:
    /// the seconds between the first and the last block, times 1000, by
    /// the number of steps between them.
    pub open spec fn block_time_millis(self) -> int {
        (self.end_timestamp - self.start_timestamp) * 1000 / (self.end_number - self.start_number)
    }

    /// Whether an average can be taken: the last block is later in number
    /// and not earlier in time than the first.
    pub open spec fn has_block_time(self) -> bool {
        &&& self.start_number < self.end_number
        &&& self.start_timestamp <= self.end_timestamp
    }

    /// The average block time in milliseconds, where one can be taken; of
    /// an average that does not fit in 32 bits, the low 32 bits.
    pub fn average_block_time(&self) -> (millis: Option<u32>)
        ensures
            millis is Some <==> self.has_block_time(),
            millis matches Some(m) ==> m == self.block_time_millis() % pow2_32(),
    {
        if self.start_number >= self.end_number || self.start_timestamp > self.end_timestamp {
            return None;
        }
        let seconds: u64 = (self.end_timestamp - self.start_timestamp) as u64;
        let steps: u64 = (self.end_number - self.start_number) as u64;
        let millis: u64 = seconds * 1000 / steps;
        Some((millis % 0x1_0000_0000) as u32)
    }
}

/// 2^32.
pub open spec fn pow2_32() -> int {
    0x1_0000_0000
}

/// What one batch writes: one list per table.
pub struct BlockFetchedData {
    pub blocks: Vec<DatabaseBlock>,
    pub contracts: Vec<DatabaseContract>,
    pub logs: Vec<DatabaseLog>,
    pub traces: Vec<DatabaseTrace>,
    pub transactions: Vec<DatabaseTransaction>,
    pub withdrawals: Vec<DatabaseWithdrawal>,
    pub erc20_transfers: Vec<DatabaseERC20Transfer>,
    pub erc721_transfers: Vec<DatabaseERC721Transfer>,
    pub erc1155_transfers: Vec<DatabaseERC1155Transfer>,
    pub dex_trades: Vec<DatabaseDexTrade>,
}

/// The one-element sequence of `table` where it has rows to write, the
/// empty sequence where it has none.
pub open spec fn table_if(rows: nat, table: DatabaseTables) -> Seq<DatabaseTables> {
    if rows > 0 {
        seq![table]
    } else {
        Seq::empty()
    }
}

impl BlockFetchedData {
    /// How many rows the batch holds for a table.
    pub open spec fn rows(&self, table: DatabaseTables) -> nat {
        match table {
            DatabaseTables::Blocks => self.blocks@.len(),
            DatabaseTables::Contracts => self.contracts@.len(),
            DatabaseTables::Logs => self.logs@.len(),
            DatabaseTables::Traces => self.traces@.len(),
            DatabaseTables::Transactions => self.transactions@.len(),
            DatabaseTables::Withdrawals => self.withdrawals@.len(),
            DatabaseTables::Erc20Transfers => self.erc20_transfers@.len(),
            DatabaseTables::Erc721Transfers => self.erc721_transfers@.len(),
            DatabaseTables::Erc1155Transfers => self.erc1155_transfers@.len(),
            DatabaseTables::DexTrades => self.dex_trades@.len(),
        }
    }

    /// The tables that must be written before the block list: every table
    /// but `blocks` for which the batch holds rows, in the order in which
    /// their insertions are started.
    pub open spec fn dependents(&self) -> Seq<DatabaseTables> {
        table_if(self.rows(DatabaseTables::Contracts), DatabaseTables::Contracts)
            + table_if(self.rows(DatabaseTables::Logs), DatabaseTables::Logs)
            + table_if(self.rows(DatabaseTables::Traces), DatabaseTables::Traces)
            + table_if(self.rows(DatabaseTables::Transactions), DatabaseTables::Transactions)
            + table_if(self.rows(DatabaseTables::Withdrawals), DatabaseTables::Withdrawals)
            + table_if(self.rows(DatabaseTables::Erc20Transfers), DatabaseTables::Erc20Transfers)
            + table_if(self.rows(DatabaseTables::Erc721Transfers), DatabaseTables::Erc721Transfers)
            + table_if(self.rows(DatabaseTables::Erc1155Transfers), DatabaseTables::Erc1155Transfers)
            + table_if(self.rows(DatabaseTables::DexTrades), DatabaseTables::DexTrades)
    }

    /// Whether the batch holds any block row.
    pub open spec fn has_blocks(&self) -> bool {
        self.blocks@.len() > 0
    }

    /// A batch without rows.
    pub fn new() -> (data: Self)
        ensures
            data.blocks@.len() == 0,
            data.contracts@.len() == 0,
            data.logs@.len() == 0,
            data.traces@.len() == 0,
            data.transactions@.len() == 0,
            data.withdrawals@.len() == 0,
            data.erc20_transfers@.len() == 0,
            data.erc721_transfers@.len() == 0,
            data.erc1155_transfers@.len() == 0,
            data.dex_trades@.len() == 0,
    {
        BlockFetchedData {
            blocks: Vec::new(),
            contracts: Vec::new(),
            logs: Vec::new(),
            traces: Vec::new(),
            transactions: Vec::new(),
            withdrawals: Vec::new(),
            erc20_transfers: Vec::new(),
            erc721_transfers: Vec::new(),
            erc1155_transfers: Vec::new(),
            dex_trades: Vec::new(),
        }
    }

    /// The number of rows that the batch holds for `table`.
    pub fn row_count(&self, table: DatabaseTables) -> (n: usize)
        ensures
            n == self.rows(table),
    {
        match table {
            DatabaseTables::Blocks => self.blocks.len(),
            DatabaseTables::Contracts => self.contracts.len(),
            DatabaseTables::Logs => self.logs.len(),
            DatabaseTables::Traces => self.traces.len(),
            DatabaseTables::Transactions => self.transactions.len(),
            DatabaseTables::Withdrawals => self.withdrawals.len(),
            DatabaseTables::Erc20Transfers => self.erc20_transfers.len(),
            DatabaseTables::Erc721Transfers => self.erc721_transfers.len(),
            DatabaseTables::Erc1155Transfers => self.erc1155_transfers.len(),
            DatabaseTables::DexTrades => self.dex_trades.len(),
        }
    }

    /// The tables to write in the first phase of a store.
    pub fn dependent_tables(&self) -> (tables: Vec<DatabaseTables>)
        ensures
            tables@ == self.dependents(),
    {
        let order = [
            DatabaseTables::Contracts,
            DatabaseTables::Logs,
            DatabaseTables::Traces,
            DatabaseTables::Transactions,
            DatabaseTables::Withdrawals,
            DatabaseTables::Erc20Transfers,
            DatabaseTables::Erc721Transfers,
            DatabaseTables::Erc1155Transfers,
            DatabaseTables::DexTrades,
        ];
        let mut tables: Vec<DatabaseTables> = Vec::new();
        let mut i: usize = 0;
        while i < 9
            invariant
                i <= 9,
                order@ == write_order(),
                tables@ == self.dependents_among(i as int),
            decreases 9 - i,
        {
            let table = order[i];
            if self.row_count(table) > 0 {
                tables.push(table);
            }
            assert(tables@ == self.dependents_among(i + 1));
            i += 1;
        }
        assert(self.dependents_among(9) == self.dependents()) by {
            reveal_with_fuel(BlockFetchedData::dependents_among, 10);
        }
        tables
    }

    /// The dependents among the first `n` tables of the write order.
    spec fn dependents_among(&self, n: int) -> Seq<DatabaseTables>
        decreases n,
    {
        if n <= 0 {
            Seq::empty()
        } else {
            self.dependents_among(n - 1) + table_if(
                self.rows(write_order()[n - 1]),
                write_order()[n - 1],
            )
        }
    }

    /// A table is among the dependents exactly if it is not the block
    /// table and the batch holds rows for it.
    pub proof fn lemma_dependents_are_the_filled_tables(&self, table: DatabaseTables)
        ensures
            self.dependents().contains(table) <==> table.is_dependent() && self.rows(table) > 0,
    {
        let d = self.dependents();
        if table.is_dependent() && self.rows(table) > 0 {
            let i = choose|i: int| 0 <= i < 9 && write_order()[i] == table;
            let before = self.dependents_among(i);
            assert(self.dependents_among(i + 1) == before + seq![table]);
            assert((before + seq![table])[before.len() as int] == table);
            assert(self.dependents_among(9) == d) by {
                reveal_with_fuel(BlockFetchedData::dependents_among, 10);
            }
            self.lemma_dependents_grow(i + 1, 9, before.len() as int);
        }
        if d.contains(table) {
            let k = choose|k: int| 0 <= k < d.len() && d[k] == table;
            assert(table.is_dependent() && self.rows(table) > 0);
        }
    }

    /// Later tables only add to the dependents.
    proof fn lemma_dependents_grow(&self, m: int, n: int, k: int)
        requires
            0 <= m <= n,
            0 <= k < self.dependents_among(m).len(),
        ensures
            k < self.dependents_among(n).len(),
            self.dependents_among(n)[k] == self.dependents_among(m)[k],
        decreases n - m,
    {
        if m < n {
            self.lemma_dependents_grow(m, n - 1, k);
        }
    }
}

/// The order in which the insertions of the first phase are started.
pub open spec fn write_order() -> Seq<DatabaseTables> {
    seq![
        DatabaseTables::Contracts,
        DatabaseTables::Logs,
        DatabaseTables::Traces,
        DatabaseTables::Transactions,
        DatabaseTables::Withdrawals,
        DatabaseTables::Erc20Transfers,
        DatabaseTables::Erc721Transfers,
        DatabaseTables::Erc1155Transfers,
        DatabaseTables::DexTrades,
    ]
}

} // verus!
