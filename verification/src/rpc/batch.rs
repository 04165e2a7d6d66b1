//! One batch out of the records of several heights.

use crate::db::models::block::DatabaseBlock;
use crate::db::models::contract::DatabaseContract;
use crate::db::models::log::DatabaseLog;
use crate::db::models::trace::DatabaseTrace;
use crate::db::models::transaction::DatabaseTransaction;
use crate::db::models::withdrawal::DatabaseWithdrawal;
use crate::db::BlockFetchedData;
use crate::rpc::assembler::{is_log_row, log_row, FetchedBlock};
use crate::db::models::dex_trade::DatabaseDexTrade;
use crate::db::models::erc1155_transfer::DatabaseERC1155Transfer;
use crate::db::models::erc20_transfer::DatabaseERC20Transfer;
use crate::db::models::erc721_transfer::DatabaseERC721Transfer;
use crate::rpc::decoder::{
    are_dex_trade_rows, are_erc1155_rows, are_erc20_rows, are_erc721_rows, erc721_before,
    event_of, trade_of, EventView,
    have_distinct_keys, is_erc721_row, joins, lemma_indexed_transfer_gives_one_erc721_row,
    topic_address, transfer_topic, DecodedLogs,
};
use crate::utils::u256::{be_value, U256};
use crate::rpc::replay::{
    lemma_replay_writes_the_same_logs, lemma_same_dex_trade_rows, lemma_same_erc1155_rows,
    lemma_same_erc20_rows, lemma_same_erc721_rows,
};
use crate::rpc::Log;
use vstd::prelude::*;

verus! {

/// The heights that were fetched, in their order: a height whose fetch
/// failed is left out.
pub open spec fn fetched_of(results: Seq<Option<FetchedBlock>>) -> Seq<FetchedBlock>
    decreases results.len(),
{
    if results.len() == 0 {
        Seq::empty()
    } else {
        match results.last() {
            Some(f) => fetched_of(results.drop_last()).push(f),
            None => fetched_of(results.drop_last()),
        }
    }
}

/// The block records of the heights, in their order.
pub open spec fn all_blocks(fetched: Seq<FetchedBlock>) -> Seq<DatabaseBlock> {
    Seq::new(fetched.len(), |i: int| fetched[i].block)
}

/// The transaction records of the heights, one height after the other.
pub open spec fn all_transactions(fetched: Seq<FetchedBlock>) -> Seq<DatabaseTransaction>
    decreases fetched.len(),
{
    if fetched.len() == 0 {
        Seq::empty()
    } else {
        all_transactions(fetched.drop_last()) + fetched.last().transactions@
    }
}

/// The logs of the heights, one height after the other.
pub open spec fn all_logs(fetched: Seq<FetchedBlock>) -> Seq<Log>
    decreases fetched.len(),
{
    if fetched.len() == 0 {
        Seq::empty()
    } else {
        all_logs(fetched.drop_last()) + fetched.last().logs@
    }
}

/// The trace records of the heights, one height after the other.
pub open spec fn all_traces(fetched: Seq<FetchedBlock>) -> Seq<DatabaseTrace>
    decreases fetched.len(),
{
    if fetched.len() == 0 {
        Seq::empty()
    } else {
        all_traces(fetched.drop_last()) + fetched.last().traces@
    }
}

/// The contract records of the heights, one height after the other.
pub open spec fn all_contracts(fetched: Seq<FetchedBlock>) -> Seq<DatabaseContract>
    decreases fetched.len(),
{
    if fetched.len() == 0 {
        Seq::empty()
    } else {
        all_contracts(fetched.drop_last()) + fetched.last().contracts@
    }
}

/// The withdrawal records of the heights, one height after the other.
pub open spec fn all_withdrawals(fetched: Seq<FetchedBlock>) -> Seq<DatabaseWithdrawal>
    decreases fetched.len(),
{
    if fetched.len() == 0 {
        Seq::empty()
    } else {
        all_withdrawals(fetched.drop_last()) + fetched.last().withdrawals@
    }
}

/// `rows` are the records of `logs`, one for one.
pub open spec fn are_log_rows(rows: Seq<DatabaseLog>, logs: Seq<Log>) -> bool {
    &&& rows.len() == logs.len()
    &&& forall|k: int| 0 <= k < rows.len() ==> is_log_row(#[trigger] rows[k], logs[k])
}

/// `batch` is what the heights `fetched` give to write: their records,
/// list by list and height after height, and with them the transfers and
/// trades that their logs state.
pub open spec fn is_batch_of(batch: BlockFetchedData, fetched: Seq<FetchedBlock>) -> bool {
    &&& batch.blocks@ == all_blocks(fetched)
    &&& batch.transactions@ == all_transactions(fetched)
    &&& are_log_rows(batch.logs@, all_logs(fetched))
    &&& batch.traces@ == all_traces(fetched)
    &&& batch.contracts@ == all_contracts(fetched)
    &&& batch.withdrawals@ == all_withdrawals(fetched)
    &&& are_erc20_rows(batch.erc20_transfers@, all_logs(fetched))
    &&& are_erc721_rows(batch.erc721_transfers@, all_logs(fetched))
    &&& are_erc1155_rows(batch.erc1155_transfers@, all_logs(fetched))
    &&& are_dex_trade_rows(batch.dex_trades@, all_logs(fetched))
}

/// Gathers what the fetches of one chunk brought into one batch. A
/// height whose fetch failed adds nothing and fails nothing: it stays
/// missing.
pub fn build_batch(results: Vec<Option<FetchedBlock>>) -> (batch: BlockFetchedData)
    ensures
        is_batch_of(batch, fetched_of(results@)),
{
    let mut rest = results;
    let mut blocks: Vec<DatabaseBlock> = Vec::new();
    let mut transactions: Vec<DatabaseTransaction> = Vec::new();
    let mut logs: Vec<DatabaseLog> = Vec::new();
    let mut traces: Vec<DatabaseTrace> = Vec::new();
    let mut contracts: Vec<DatabaseContract> = Vec::new();
    let mut withdrawals: Vec<DatabaseWithdrawal> = Vec::new();
    let mut decoded = DecodedLogs::new();
    let ghost mut done: Seq<Option<FetchedBlock>> = Seq::empty();
    assert(results@.take(0) == done);
    while rest.len() > 0
        invariant
            done.len() + rest@.len() == results@.len(),
            done == results@.take(done.len() as int),
            rest@ == results@.skip(done.len() as int),
            blocks@ == all_blocks(fetched_of(done)),
            transactions@ == all_transactions(fetched_of(done)),
            are_log_rows(logs@, all_logs(fetched_of(done))),
            traces@ == all_traces(fetched_of(done)),
            contracts@ == all_contracts(fetched_of(done)),
            withdrawals@ == all_withdrawals(fetched_of(done)),
            decoded.holds(all_logs(fetched_of(done))),
        decreases rest@.len(),
    {
        let ghost before = fetched_of(done);
        let ghost n = done.len() as int;
        let item = rest.remove(0);
        proof {
            assert(item == results@[n]);
            assert(results@.take(n + 1).drop_last() == results@.take(n));
            assert(results@.take(n + 1).last() == item);
            assert(rest@ == results@.skip(n + 1));
            done = results@.take(n + 1);
        }
        match item {
            Some(fetched) => {
                let FetchedBlock {
                    block,
                    transactions: mut its_transactions,
                    logs: its_logs,
                    traces: mut its_traces,
                    contracts: mut its_contracts,
                    withdrawals: mut its_withdrawals,
                } = fetched;
                proof {
                    assert(fetched_of(done) == before.push(fetched));
                    assert(before.push(fetched).drop_last() == before);
                    assert(before.push(fetched).last() == fetched);
                }
                blocks.push(block);
                assert(blocks@ == all_blocks(fetched_of(done)));
                transactions.append(&mut its_transactions);
                traces.append(&mut its_traces);
                contracts.append(&mut its_contracts);
                withdrawals.append(&mut its_withdrawals);
                let ghost logs_before = all_logs(before);
                let mut j: usize = 0;
                while j < its_logs.len()
                    invariant
                        j <= its_logs@.len(),
                        are_log_rows(logs@, logs_before + its_logs@.take(j as int)),
                        decoded.holds(logs_before + its_logs@.take(j as int)),
                    decreases its_logs@.len() - j,
                {
                    let ghost seen = logs_before + its_logs@.take(j as int);
                    logs.push(log_row(&its_logs[j]));
                    decoded.push_log(&its_logs[j], Ghost(seen));
                    assert(seen.push(its_logs@[j as int]) == logs_before + its_logs@.take(j + 1));
                    j += 1;
                }
                assert(its_logs@.take(its_logs@.len() as int) == its_logs@);
            },
            None => {
                assert(fetched_of(done) == before);
            },
        }
    }
    assert(results@.take(results@.len() as int) == results@);
    let DecodedLogs { erc20_transfers, erc721_transfers, erc1155_transfers, dex_trades } = decoded;
    BlockFetchedData {
        blocks,
        contracts,
        logs,
        traces,
        transactions,
        withdrawals,
        erc20_transfers,
        erc721_transfers,
        erc1155_transfers,
        dex_trades,
    }
}

/// What a batch writes for a `Transfer` log with three indexed arguments.
/// Where the logs of the batch have distinct keys, the log itself is
/// among the log rows; exactly one ERC-721 row carries its transaction
/// hash and index, with the number of the fourth topic as its token; and
/// no ERC-20 row carries them.
pub proof fn lemma_batch_holds_one_erc721_row(
    batch: BlockFetchedData,
    fetched: Seq<FetchedBlock>,
    i: int,
)
    requires
        is_batch_of(batch, fetched),
        have_distinct_keys(all_logs(fetched)),
        0 <= i < all_logs(fetched).len(),
        all_logs(fetched)[i].topics@.len() == 4,
        all_logs(fetched)[i].topics@[0]@ == transfer_topic(),
    ensures
        is_log_row(batch.logs@[i], all_logs(fetched)[i]),
        0 <= erc721_before(all_logs(fetched), i) < batch.erc721_transfers@.len(),
        is_erc721_row(
            batch.erc721_transfers@[erc721_before(all_logs(fetched), i)],
            all_logs(fetched)[i],
            topic_address(all_logs(fetched)[i].topics@[1]),
            topic_address(all_logs(fetched)[i].topics@[2]),
            U256::of(be_value(all_logs(fetched)[i].topics@[3]@)),
        ),
        forall|k: int|
            0 <= k < batch.erc721_transfers@.len() && joins(
                all_logs(fetched)[i],
                (#[trigger] batch.erc721_transfers@[k]).transaction_hash@,
                batch.erc721_transfers@[k].log_index,
            ) ==> k == erc721_before(all_logs(fetched), i),
        forall|k: int|
            0 <= k < batch.erc20_transfers@.len() ==> !joins(
                all_logs(fetched)[i],
                (#[trigger] batch.erc20_transfers@[k]).transaction_hash@,
                batch.erc20_transfers@[k].log_index,
            ),
{
    lemma_indexed_transfer_gives_one_erc721_row(
        batch.erc721_transfers@,
        batch.erc20_transfers@,
        all_logs(fetched),
        i,
    );
}

/// The lists of two runs of heights, one after the other, are the lists
/// of the two runs joined.
pub proof fn lemma_lists_add_up(first: Seq<FetchedBlock>, second: Seq<FetchedBlock>)
    ensures
        all_blocks(first + second) == all_blocks(first) + all_blocks(second),
        all_transactions(first + second) == all_transactions(first) + all_transactions(second),
        all_logs(first + second) == all_logs(first) + all_logs(second),
        all_traces(first + second) == all_traces(first) + all_traces(second),
        all_contracts(first + second) == all_contracts(first) + all_contracts(second),
        all_withdrawals(first + second) == all_withdrawals(first) + all_withdrawals(second),
    decreases second.len(),
{
    assert(all_blocks(first + second) =~= all_blocks(first) + all_blocks(second));
    if second.len() == 0 {
        assert(first + second == first);
        assert(all_transactions(first) + all_transactions(second) =~= all_transactions(first));
        assert(all_logs(first) + all_logs(second) =~= all_logs(first));
        assert(all_traces(first) + all_traces(second) =~= all_traces(first));
        assert(all_contracts(first) + all_contracts(second) =~= all_contracts(first));
        assert(all_withdrawals(first) + all_withdrawals(second) =~= all_withdrawals(first));
    } else {
        let shorter = second.drop_last();
        let last = second.last();
        lemma_lists_add_up(first, shorter);
        assert((first + second).drop_last() == first + shorter);
        assert((first + second).last() == last);
        assert(all_transactions(first + second) =~= all_transactions(first) + all_transactions(
            second,
        ));
        assert(all_logs(first + second) =~= all_logs(first) + all_logs(second));
        assert(all_traces(first + second) =~= all_traces(first) + all_traces(second));
        assert(all_contracts(first + second) =~= all_contracts(first) + all_contracts(second));
        assert(all_withdrawals(first + second) =~= all_withdrawals(first) + all_withdrawals(
            second,
        ));
    }
}

/// The ERC-20 transfers of two lists of logs, one after the other, are those of
/// the two lists joined.
pub proof fn lemma_erc20_rows_add_up(
    rows: Seq<DatabaseERC20Transfer>,
    more: Seq<DatabaseERC20Transfer>,
    logs: Seq<Log>,
    later: Seq<Log>,
)
    requires
        are_erc20_rows(rows, logs),
        are_erc20_rows(more, later),
    ensures
        are_erc20_rows(rows + more, logs + later),
    decreases later.len(),
{
    if later.len() == 0 {
        assert(logs + later == logs);
        assert(rows + more == rows);
    } else {
        assert((logs + later).drop_last() == logs + later.drop_last());
        assert((logs + later).last() == later.last());
        match event_of(later.last()) {
            EventView::Erc20Transfer { from, to, value } => {
                lemma_erc20_rows_add_up(rows, more.drop_last(), logs, later.drop_last());
                assert((rows + more).drop_last() == rows + more.drop_last());
                assert((rows + more).last() == more.last());
            },
            _ => {
                lemma_erc20_rows_add_up(rows, more, logs, later.drop_last());
            },
        }
    }
}

/// The ERC-721 transfers of two lists of logs, one after the other, are those of
/// the two lists joined.
pub proof fn lemma_erc721_rows_add_up(
    rows: Seq<DatabaseERC721Transfer>,
    more: Seq<DatabaseERC721Transfer>,
    logs: Seq<Log>,
    later: Seq<Log>,
)
    requires
        are_erc721_rows(rows, logs),
        are_erc721_rows(more, later),
    ensures
        are_erc721_rows(rows + more, logs + later),
    decreases later.len(),
{
    if later.len() == 0 {
        assert(logs + later == logs);
        assert(rows + more == rows);
    } else {
        assert((logs + later).drop_last() == logs + later.drop_last());
        assert((logs + later).last() == later.last());
        match event_of(later.last()) {
            EventView::Erc721Transfer { from, to, id } => {
                lemma_erc721_rows_add_up(rows, more.drop_last(), logs, later.drop_last());
                assert((rows + more).drop_last() == rows + more.drop_last());
                assert((rows + more).last() == more.last());
            },
            _ => {
                lemma_erc721_rows_add_up(rows, more, logs, later.drop_last());
            },
        }
    }
}

/// The ERC-1155 transfers of two lists of logs, one after the other, are those of
/// the two lists joined.
pub proof fn lemma_erc1155_rows_add_up(
    rows: Seq<DatabaseERC1155Transfer>,
    more: Seq<DatabaseERC1155Transfer>,
    logs: Seq<Log>,
    later: Seq<Log>,
)
    requires
        are_erc1155_rows(rows, logs),
        are_erc1155_rows(more, later),
    ensures
        are_erc1155_rows(rows + more, logs + later),
    decreases later.len(),
{
    if later.len() == 0 {
        assert(logs + later == logs);
        assert(rows + more == rows);
    } else {
        assert((logs + later).drop_last() == logs + later.drop_last());
        assert((logs + later).last() == later.last());
        match event_of(later.last()) {
            EventView::Erc1155Transfer { operator, from, to, ids, values } => {
                let count = ids.len() as int;
                let before = more.len() - count;
                lemma_erc1155_rows_add_up(rows, more.take(before), logs, later.drop_last());
                assert((rows + more).take(rows.len() + before) == rows + more.take(before));
                assert forall|k: int|
                    rows.len() + before <= k < (rows + more).len() implies (rows + more)[k] == more[k
                        - rows.len()] by {}
            },
            _ => {
                lemma_erc1155_rows_add_up(rows, more, logs, later.drop_last());
            },
        }
    }
}

/// The trades of two lists of logs, one after the other, are those of
/// the two lists joined.
pub proof fn lemma_dex_trade_rows_add_up(
    rows: Seq<DatabaseDexTrade>,
    more: Seq<DatabaseDexTrade>,
    logs: Seq<Log>,
    later: Seq<Log>,
)
    requires
        are_dex_trade_rows(rows, logs),
        are_dex_trade_rows(more, later),
    ensures
        are_dex_trade_rows(rows + more, logs + later),
    decreases later.len(),
{
    if later.len() == 0 {
        assert(logs + later == logs);
        assert(rows + more == rows);
    } else {
        assert((logs + later).drop_last() == logs + later.drop_last());
        assert((logs + later).last() == later.last());
        match trade_of(event_of(later.last())) {
            Some((sender, recipient, amounts)) => {
                lemma_dex_trade_rows_add_up(rows, more.drop_last(), logs, later.drop_last());
                assert((rows + more).drop_last() == rows + more.drop_last());
                assert((rows + more).last() == more.last());
            },
            _ => {
                lemma_dex_trade_rows_add_up(rows, more, logs, later.drop_last());
            },
        }
    }
}

/// Small batches write what one large batch writes. The batch of two
/// runs of heights joined holds, list by list, the records of the batch
/// of the first run followed by those of the batch of the second: the
/// very same blocks, transactions, traces, contracts and withdrawals,
/// and log rows and derived rows that are the rows of the same logs. By
/// this, the heights of a pass give the same rows whatever the batch
/// size, down to one block per batch.
pub proof fn lemma_small_batches_hold_the_rows_of_a_large_one(
    whole: BlockFetchedData,
    left: BlockFetchedData,
    right: BlockFetchedData,
    first: Seq<FetchedBlock>,
    second: Seq<FetchedBlock>,
)
    requires
        is_batch_of(whole, first + second),
        is_batch_of(left, first),
        is_batch_of(right, second),
    ensures
        whole.blocks@ == left.blocks@ + right.blocks@,
        whole.transactions@ == left.transactions@ + right.transactions@,
        whole.traces@ == left.traces@ + right.traces@,
        whole.contracts@ == left.contracts@ + right.contracts@,
        whole.withdrawals@ == left.withdrawals@ + right.withdrawals@,
        are_log_rows(left.logs@ + right.logs@, all_logs(first + second)),
        are_erc20_rows(left.erc20_transfers@ + right.erc20_transfers@, all_logs(first + second)),
        are_erc721_rows(
            left.erc721_transfers@ + right.erc721_transfers@,
            all_logs(first + second),
        ),
        are_erc1155_rows(
            left.erc1155_transfers@ + right.erc1155_transfers@,
            all_logs(first + second),
        ),
        are_dex_trade_rows(left.dex_trades@ + right.dex_trades@, all_logs(first + second)),
        whole.logs@.len() == left.logs@.len() + right.logs@.len(),
        forall|k: int|
            0 <= k < whole.logs@.len() ==> (#[trigger] whole.logs@[k]).same(
                &(left.logs@ + right.logs@)[k],
            ),
        whole.erc20_transfers@.len() == left.erc20_transfers@.len() + right.erc20_transfers@.len(),
        forall|k: int|
            0 <= k < whole.erc20_transfers@.len() ==> (#[trigger] whole.erc20_transfers@[k]).same(
                &(left.erc20_transfers@ + right.erc20_transfers@)[k],
            ),
        whole.erc721_transfers@.len() == left.erc721_transfers@.len()
            + right.erc721_transfers@.len(),
        forall|k: int|
            0 <= k < whole.erc721_transfers@.len() ==> (
            #[trigger] whole.erc721_transfers@[k]).same(
                &(left.erc721_transfers@ + right.erc721_transfers@)[k],
            ),
        whole.erc1155_transfers@.len() == left.erc1155_transfers@.len()
            + right.erc1155_transfers@.len(),
        forall|k: int|
            0 <= k < whole.erc1155_transfers@.len() ==> (
            #[trigger] whole.erc1155_transfers@[k]).same(
                &(left.erc1155_transfers@ + right.erc1155_transfers@)[k],
            ),
        whole.dex_trades@.len() == left.dex_trades@.len() + right.dex_trades@.len(),
        forall|k: int|
            0 <= k < whole.dex_trades@.len() ==> (#[trigger] whole.dex_trades@[k]).same(
                &(left.dex_trades@ + right.dex_trades@)[k],
            ),
{
    lemma_lists_add_up(first, second);
    let logs = all_logs(first);
    let later = all_logs(second);
    assert(are_log_rows(left.logs@ + right.logs@, logs + later)) by {
        let rows = left.logs@ + right.logs@;
        assert forall|k: int| 0 <= k < rows.len() implies is_log_row(
            #[trigger] rows[k],
            (logs + later)[k],
        ) by {
            if k < left.logs@.len() {
                assert(rows[k] == left.logs@[k]);
            } else {
                assert(rows[k] == right.logs@[k - left.logs@.len()]);
            }
        }
    }
    lemma_erc20_rows_add_up(left.erc20_transfers@, right.erc20_transfers@, logs, later);
    lemma_erc721_rows_add_up(left.erc721_transfers@, right.erc721_transfers@, logs, later);
    lemma_erc1155_rows_add_up(left.erc1155_transfers@, right.erc1155_transfers@, logs, later);
    lemma_dex_trade_rows_add_up(left.dex_trades@, right.dex_trades@, logs, later);
    let all = all_logs(first + second);
    lemma_replay_writes_the_same_logs(whole.logs@, left.logs@ + right.logs@, all);
    lemma_same_erc20_rows(
        whole.erc20_transfers@,
        left.erc20_transfers@ + right.erc20_transfers@,
        all,
    );
    lemma_same_erc721_rows(
        whole.erc721_transfers@,
        left.erc721_transfers@ + right.erc721_transfers@,
        all,
    );
    lemma_same_erc1155_rows(
        whole.erc1155_transfers@,
        left.erc1155_transfers@ + right.erc1155_transfers@,
        all,
    );
    lemma_same_dex_trade_rows(whole.dex_trades@, left.dex_trades@ + right.dex_trades@, all);
}

} // verus!
