//! Replaying a block gives the same records.
//!
//! What the assembler and the decoder return is fixed by what they are
//! given: two runs over the same answers of a node agree in every column
//! of every record.

use crate::db::models::dex_trade::DatabaseDexTrade;
use crate::db::models::erc1155_transfer::DatabaseERC1155Transfer;
use crate::db::models::erc20_transfer::DatabaseERC20Transfer;
use crate::db::models::erc721_transfer::DatabaseERC721Transfer;
use crate::db::models::log::DatabaseLog;
use crate::db::BlockFetchedData;
use crate::rpc::assembler::{is_fetched_block, FetchedBlock};
use crate::rpc::batch::{
    all_blocks, all_contracts, all_logs, all_traces, all_transactions, all_withdrawals,
    are_log_rows, is_batch_of,
};
use crate::rpc::decoder::{
    are_dex_trade_rows, are_erc1155_rows, are_erc20_rows, are_erc721_rows, event_of, trade_of,
    DecodedLogs, EventView,
};
use crate::rpc::{Log, RpcBlock, RpcReceipt, RpcTrace};
use vstd::prelude::*;

verus! {

/// Two results of assembling the same block from the same receipts and
/// traces hold the same records, in the same order.
pub proof fn lemma_replay_assembles_the_same(
    first: FetchedBlock,
    second: FetchedBlock,
    chain: u32,
    block: RpcBlock,
    receipts: Seq<RpcReceipt>,
    traces: Seq<RpcTrace>,
)
    requires
        is_fetched_block(first, chain, block, receipts, traces),
        is_fetched_block(second, chain, block, receipts, traces),
    ensures
        first.block.same(&second.block),
        first.transactions@.len() == second.transactions@.len(),
        forall|k: int|
            0 <= k < first.transactions@.len() ==> (#[trigger] first.transactions@[k]).same(
                &second.transactions@[k],
            ),
        first.logs@.len() == second.logs@.len(),
        forall|k: int|
            0 <= k < first.logs@.len() ==> (#[trigger] first.logs@[k]).same(&second.logs@[k]),
        first.traces@.len() == second.traces@.len(),
        forall|k: int|
            0 <= k < first.traces@.len() ==> (#[trigger] first.traces@[k]).same(&second.traces@[k]),
        first.contracts@.len() == second.contracts@.len(),
        forall|k: int|
            0 <= k < first.contracts@.len() ==> (#[trigger] first.contracts@[k]).same(
                &second.contracts@[k],
            ),
        first.withdrawals@.len() == second.withdrawals@.len(),
        forall|k: int|
            0 <= k < first.withdrawals@.len() ==> (#[trigger] first.withdrawals@[k]).same(
                &second.withdrawals@[k],
            ),
{
    first.block.total_fee_reward.lemma_of_view();
    second.block.total_fee_reward.lemma_of_view();
    first.block.burned.lemma_of_view();
    second.block.burned.lemma_of_view();
    assert forall|i: int| 0 <= i < first.block.uncles@.len() implies (
    #[trigger] first.block.uncles@[i])@ == second.block.uncles@[i]@ by {
        assert(second.block.uncles@[i]@ == crate::utils::format::hex_of(block.uncles@[i]@));
    }
    assert forall|k: int| 0 <= k < first.transactions@.len() implies (
    #[trigger] first.transactions@[k]).same(&second.transactions@[k]) by {
        let a = first.transactions@[k];
        let b = second.transactions@[k];
        assert(b.chain == chain);
        if a.effective_transaction_fee is Some {
            a.effective_transaction_fee->0.lemma_of_view();
            b.effective_transaction_fee->0.lemma_of_view();
        }
        if a.burned is Some {
            a.burned->0.lemma_of_view();
            b.burned->0.lemma_of_view();
        }
    }
    assert forall|k: int| 0 <= k < first.logs@.len() implies (#[trigger] first.logs@[k]).same(
        &second.logs@[k],
    ) by {
        assert(second.logs@[k].chain == chain);
    }
    assert forall|k: int| 0 <= k < first.traces@.len() implies (#[trigger] first.traces@[k]).same(
        &second.traces@[k],
    ) by {
        assert(second.traces@[k].chain == chain);
    }
    assert forall|k: int| 0 <= k < first.contracts@.len() implies (
    #[trigger] first.contracts@[k]).same(&second.contracts@[k]) by {
        assert(second.contracts@[k].chain == chain);
    }
    assert forall|k: int| 0 <= k < first.withdrawals@.len() implies (
    #[trigger] first.withdrawals@[k]).same(&second.withdrawals@[k]) by {
        assert(second.withdrawals@[k].chain == chain);
    }
}

/// Two lists of records of the same logs agree record by record.
pub proof fn lemma_replay_writes_the_same_logs(
    first: Seq<DatabaseLog>,
    second: Seq<DatabaseLog>,
    logs: Seq<Log>,
)
    requires
        are_log_rows(first, logs),
        are_log_rows(second, logs),
    ensures
        first.len() == second.len(),
        forall|k: int| 0 <= k < first.len() ==> (#[trigger] first[k]).same(&second[k]),
{
    assert forall|k: int| 0 <= k < first.len() implies (#[trigger] first[k]).same(&second[k]) by {
        assert(second[k].chain == logs[k].chain);
    }
}

/// Two lists of ERC-20 transfers of the same logs agree.
pub proof fn lemma_same_erc20_rows(
    first: Seq<DatabaseERC20Transfer>,
    second: Seq<DatabaseERC20Transfer>,
    logs: Seq<Log>,
)
    requires
        are_erc20_rows(first, logs),
        are_erc20_rows(second, logs),
    ensures
        first.len() == second.len(),
        forall|k: int| 0 <= k < first.len() ==> (#[trigger] first[k]).same(&second[k]),
    decreases logs.len(),
{
    if logs.len() > 0 {
        match event_of(logs.last()) {
            EventView::Erc20Transfer { from, to, value } => {
                lemma_same_erc20_rows(first.drop_last(), second.drop_last(), logs.drop_last());
                assert forall|k: int| 0 <= k < first.len() implies (#[trigger] first[k]).same(
                    &second[k],
                ) by {
                    if k < first.len() - 1 {
                        assert(first.drop_last()[k].same(&second.drop_last()[k]));
                    }
                }
            },
            _ => {
                lemma_same_erc20_rows(first, second, logs.drop_last());
            },
        }
    }
}

/// Two lists of ERC-721 transfers of the same logs agree.
pub proof fn lemma_same_erc721_rows(
    first: Seq<DatabaseERC721Transfer>,
    second: Seq<DatabaseERC721Transfer>,
    logs: Seq<Log>,
)
    requires
        are_erc721_rows(first, logs),
        are_erc721_rows(second, logs),
    ensures
        first.len() == second.len(),
        forall|k: int| 0 <= k < first.len() ==> (#[trigger] first[k]).same(&second[k]),
    decreases logs.len(),
{
    if logs.len() > 0 {
        match event_of(logs.last()) {
            EventView::Erc721Transfer { from, to, id } => {
                lemma_same_erc721_rows(first.drop_last(), second.drop_last(), logs.drop_last());
                assert forall|k: int| 0 <= k < first.len() implies (#[trigger] first[k]).same(
                    &second[k],
                ) by {
                    if k < first.len() - 1 {
                        assert(first.drop_last()[k].same(&second.drop_last()[k]));
                    }
                }
            },
            _ => {
                lemma_same_erc721_rows(first, second, logs.drop_last());
            },
        }
    }
}

/// Two lists of ERC-1155 transfers of the same logs agree.
pub proof fn lemma_same_erc1155_rows(
    first: Seq<DatabaseERC1155Transfer>,
    second: Seq<DatabaseERC1155Transfer>,
    logs: Seq<Log>,
)
    requires
        are_erc1155_rows(first, logs),
        are_erc1155_rows(second, logs),
    ensures
        first.len() == second.len(),
        forall|k: int| 0 <= k < first.len() ==> (#[trigger] first[k]).same(&second[k]),
    decreases logs.len(),
{
    if logs.len() > 0 {
        match event_of(logs.last()) {
            EventView::Erc1155Transfer { operator, from, to, ids, values } => {
                let before = first.len() - ids.len();
                let before_second = second.len() - ids.len();
                lemma_same_erc1155_rows(
                    first.take(before),
                    second.take(before_second),
                    logs.drop_last(),
                );
                assert(first.take(before).len() == before);
                assert(second.take(before_second).len() == before_second);
                assert(before == before_second);
                assert forall|k: int| 0 <= k < first.len() implies (#[trigger] first[k]).same(
                    &second[k],
                ) by {
                    if k < before {
                        assert(first.take(before)[k].same(&second.take(before)[k]));
                    } else {
                        assert(first[k].chain == logs.last().chain);
                        assert(second[k].chain == logs.last().chain);
                    }
                }
            },
            _ => {
                lemma_same_erc1155_rows(first, second, logs.drop_last());
            },
        }
    }
}

/// Two lists of trades of the same logs agree.
pub proof fn lemma_same_dex_trade_rows(
    first: Seq<DatabaseDexTrade>,
    second: Seq<DatabaseDexTrade>,
    logs: Seq<Log>,
)
    requires
        are_dex_trade_rows(first, logs),
        are_dex_trade_rows(second, logs),
    ensures
        first.len() == second.len(),
        forall|k: int| 0 <= k < first.len() ==> (#[trigger] first[k]).same(&second[k]),
    decreases logs.len(),
{
    if logs.len() > 0 {
        match trade_of(event_of(logs.last())) {
            Some((sender, recipient, amounts)) => {
                lemma_same_dex_trade_rows(first.drop_last(), second.drop_last(), logs.drop_last());
                assert forall|k: int| 0 <= k < first.len() implies (#[trigger] first[k]).same(
                    &second[k],
                ) by {
                    if k < first.len() - 1 {
                        assert(first.drop_last()[k].same(&second.drop_last()[k]));
                    }
                }
            },
            None => {
                lemma_same_dex_trade_rows(first, second, logs.drop_last());
            },
        }
    }
}

/// Derived records are a function of the logs: two results of decoding
/// the same logs hold the same transfers and trades, in the same order.
pub proof fn lemma_replay_decodes_the_same(first: DecodedLogs, second: DecodedLogs, logs: Seq<Log>)
    requires
        first.holds(logs),
        second.holds(logs),
    ensures
        first.erc20_transfers@.len() == second.erc20_transfers@.len(),
        forall|k: int|
            0 <= k < first.erc20_transfers@.len() ==> (#[trigger] first.erc20_transfers@[k]).same(
                &second.erc20_transfers@[k],
            ),
        first.erc721_transfers@.len() == second.erc721_transfers@.len(),
        forall|k: int|
            0 <= k < first.erc721_transfers@.len() ==> (
            #[trigger] first.erc721_transfers@[k]).same(&second.erc721_transfers@[k]),
        first.erc1155_transfers@.len() == second.erc1155_transfers@.len(),
        forall|k: int|
            0 <= k < first.erc1155_transfers@.len() ==> (
            #[trigger] first.erc1155_transfers@[k]).same(&second.erc1155_transfers@[k]),
        first.dex_trades@.len() == second.dex_trades@.len(),
        forall|k: int|
            0 <= k < first.dex_trades@.len() ==> (#[trigger] first.dex_trades@[k]).same(
                &second.dex_trades@[k],
            ),
{
    lemma_same_erc20_rows(first.erc20_transfers@, second.erc20_transfers@, logs);
    lemma_same_erc721_rows(first.erc721_transfers@, second.erc721_transfers@, logs);
    lemma_same_erc1155_rows(first.erc1155_transfers@, second.erc1155_transfers@, logs);
    lemma_same_dex_trade_rows(first.dex_trades@, second.dex_trades@, logs);
}

/// The two lists hold the same logs, one for one.
pub open spec fn same_logs(first: Seq<Log>, second: Seq<Log>) -> bool {
    &&& first.len() == second.len()
    &&& forall|i: int| 0 <= i < first.len() ==> (#[trigger] first[i]).same(&second[i])
}

/// The records of a list of logs are those of any list of the same logs.
pub proof fn lemma_log_rows_of_same_logs(
    rows: Seq<DatabaseLog>,
    first: Seq<Log>,
    second: Seq<Log>,
)
    requires
        are_log_rows(rows, first),
        same_logs(first, second),
    ensures
        are_log_rows(rows, second),
{
    assert forall|k: int| 0 <= k < rows.len() implies crate::rpc::assembler::is_log_row(
        #[trigger] rows[k],
        second[k],
    ) by {
        assert(first[k].same(&second[k]));
        assert(crate::rpc::assembler::is_log_row(rows[k], first[k]));
    }
}

/// The ERC-20 transfers of a list of logs are those of any list of the same logs.
pub proof fn lemma_erc20_rows_of_same_logs(
    rows: Seq<DatabaseERC20Transfer>,
    first: Seq<Log>,
    second: Seq<Log>,
)
    requires
        are_erc20_rows(rows, first),
        same_logs(first, second),
    ensures
        are_erc20_rows(rows, second),
    decreases first.len(),
{
    if first.len() > 0 {
        assert(first.last().same(&second.last()));
        assert(event_of(first.last()) == event_of(second.last()));
        assert(same_logs(first.drop_last(), second.drop_last())) by {
            assert forall|i: int| 0 <= i < first.drop_last().len() implies (
            #[trigger] first.drop_last()[i]).same(&second.drop_last()[i]) by {
                assert(first[i].same(&second[i]));
            }
        }
        match event_of(first.last()) {
            EventView::Erc20Transfer { from, to, value } => {
                lemma_erc20_rows_of_same_logs(
                    rows.drop_last(),
                    first.drop_last(),
                    second.drop_last(),
                );
            },
            _ => {
                lemma_erc20_rows_of_same_logs(rows, first.drop_last(), second.drop_last());
            },
        }
    }
}

/// The ERC-721 transfers of a list of logs are those of any list of the same logs.
pub proof fn lemma_erc721_rows_of_same_logs(
    rows: Seq<DatabaseERC721Transfer>,
    first: Seq<Log>,
    second: Seq<Log>,
)
    requires
        are_erc721_rows(rows, first),
        same_logs(first, second),
    ensures
        are_erc721_rows(rows, second),
    decreases first.len(),
{
    if first.len() > 0 {
        assert(first.last().same(&second.last()));
        assert(event_of(first.last()) == event_of(second.last()));
        assert(same_logs(first.drop_last(), second.drop_last())) by {
            assert forall|i: int| 0 <= i < first.drop_last().len() implies (
            #[trigger] first.drop_last()[i]).same(&second.drop_last()[i]) by {
                assert(first[i].same(&second[i]));
            }
        }
        match event_of(first.last()) {
            EventView::Erc721Transfer { from, to, id } => {
                lemma_erc721_rows_of_same_logs(
                    rows.drop_last(),
                    first.drop_last(),
                    second.drop_last(),
                );
            },
            _ => {
                lemma_erc721_rows_of_same_logs(rows, first.drop_last(), second.drop_last());
            },
        }
    }
}

/// The ERC-1155 transfers of a list of logs are those of any list of the same logs.
pub proof fn lemma_erc1155_rows_of_same_logs(
    rows: Seq<DatabaseERC1155Transfer>,
    first: Seq<Log>,
    second: Seq<Log>,
)
    requires
        are_erc1155_rows(rows, first),
        same_logs(first, second),
    ensures
        are_erc1155_rows(rows, second),
    decreases first.len(),
{
    if first.len() > 0 {
        assert(first.last().same(&second.last()));
        assert(event_of(first.last()) == event_of(second.last()));
        assert(same_logs(first.drop_last(), second.drop_last())) by {
            assert forall|i: int| 0 <= i < first.drop_last().len() implies (
            #[trigger] first.drop_last()[i]).same(&second.drop_last()[i]) by {
                assert(first[i].same(&second[i]));
            }
        }
        match event_of(first.last()) {
            EventView::Erc1155Transfer { operator, from, to, ids, values } => {
                let before = rows.len() - ids.len();
                lemma_erc1155_rows_of_same_logs(
                    rows.take(before),
                    first.drop_last(),
                    second.drop_last(),
                );
            },
            _ => {
                lemma_erc1155_rows_of_same_logs(rows, first.drop_last(), second.drop_last());
            },
        }
    }
}

/// The trades of a list of logs are those of any list of the same logs.
pub proof fn lemma_dex_trade_rows_of_same_logs(
    rows: Seq<DatabaseDexTrade>,
    first: Seq<Log>,
    second: Seq<Log>,
)
    requires
        are_dex_trade_rows(rows, first),
        same_logs(first, second),
    ensures
        are_dex_trade_rows(rows, second),
    decreases first.len(),
{
    if first.len() > 0 {
        assert(first.last().same(&second.last()));
        assert(event_of(first.last()) == event_of(second.last()));
        assert(same_logs(first.drop_last(), second.drop_last())) by {
            assert forall|i: int| 0 <= i < first.drop_last().len() implies (
            #[trigger] first.drop_last()[i]).same(&second.drop_last()[i]) by {
                assert(first[i].same(&second[i]));
            }
        }
        match trade_of(event_of(first.last())) {
            Some((sender, recipient, amounts)) => {
                lemma_dex_trade_rows_of_same_logs(
                    rows.drop_last(),
                    first.drop_last(),
                    second.drop_last(),
                );
            },
            _ => {
                lemma_dex_trade_rows_of_same_logs(rows, first.drop_last(), second.drop_last());
            },
        }
    }
}

/// Replaying a block writes the same rows. Two batches, each built from
/// an assembly of the same block out of the same receipts and traces,
/// hold the same records in every one of the ten lists, in the same
/// order.
pub proof fn lemma_replay_builds_the_same_batch(
    first: BlockFetchedData,
    second: BlockFetchedData,
    fetched: FetchedBlock,
    again: FetchedBlock,
    chain: u32,
    block: RpcBlock,
    receipts: Seq<RpcReceipt>,
    traces: Seq<RpcTrace>,
)
    requires
        is_fetched_block(fetched, chain, block, receipts, traces),
        is_fetched_block(again, chain, block, receipts, traces),
        is_batch_of(first, seq![fetched]),
        is_batch_of(second, seq![again]),
    ensures
        first.blocks@.len() == 1 && second.blocks@.len() == 1 && first.blocks@[0].same(
            &second.blocks@[0],
        ),
        first.transactions@.len() == second.transactions@.len(),
        forall|k: int|
            0 <= k < first.transactions@.len() ==> (#[trigger] first.transactions@[k]).same(
                &second.transactions@[k],
            ),
        first.logs@.len() == second.logs@.len(),
        forall|k: int|
            0 <= k < first.logs@.len() ==> (#[trigger] first.logs@[k]).same(&second.logs@[k]),
        first.traces@.len() == second.traces@.len(),
        forall|k: int|
            0 <= k < first.traces@.len() ==> (#[trigger] first.traces@[k]).same(&second.traces@[k]),
        first.contracts@.len() == second.contracts@.len(),
        forall|k: int|
            0 <= k < first.contracts@.len() ==> (#[trigger] first.contracts@[k]).same(
                &second.contracts@[k],
            ),
        first.withdrawals@.len() == second.withdrawals@.len(),
        forall|k: int|
            0 <= k < first.withdrawals@.len() ==> (#[trigger] first.withdrawals@[k]).same(
                &second.withdrawals@[k],
            ),
        first.erc20_transfers@.len() == second.erc20_transfers@.len(),
        forall|k: int|
            0 <= k < first.erc20_transfers@.len() ==> (#[trigger] first.erc20_transfers@[k]).same(
                &second.erc20_transfers@[k],
            ),
        first.erc721_transfers@.len() == second.erc721_transfers@.len(),
        forall|k: int|
            0 <= k < first.erc721_transfers@.len() ==> (
            #[trigger] first.erc721_transfers@[k]).same(&second.erc721_transfers@[k]),
        first.erc1155_transfers@.len() == second.erc1155_transfers@.len(),
        forall|k: int|
            0 <= k < first.erc1155_transfers@.len() ==> (
            #[trigger] first.erc1155_transfers@[k]).same(&second.erc1155_transfers@[k]),
        first.dex_trades@.len() == second.dex_trades@.len(),
        forall|k: int|
            0 <= k < first.dex_trades@.len() ==> (#[trigger] first.dex_trades@[k]).same(
                &second.dex_trades@[k],
            ),
{
    lemma_replay_assembles_the_same(fetched, again, chain, block, receipts, traces);
    lemma_batch_of_one(fetched);
    lemma_batch_of_one(again);
    let logs = fetched.logs@;
    assert(same_logs(again.logs@, logs)) by {
        assert forall|i: int| 0 <= i < logs.len() implies (#[trigger] again.logs@[i]).same(
            &logs[i],
        ) by {
            assert(fetched.logs@[i].same(&again.logs@[i]));
        }
    }
    lemma_log_rows_of_same_logs(second.logs@, again.logs@, logs);
    lemma_replay_writes_the_same_logs(first.logs@, second.logs@, logs);
    lemma_erc20_rows_of_same_logs(second.erc20_transfers@, again.logs@, logs);
    lemma_same_erc20_rows(first.erc20_transfers@, second.erc20_transfers@, logs);
    lemma_erc721_rows_of_same_logs(second.erc721_transfers@, again.logs@, logs);
    lemma_same_erc721_rows(first.erc721_transfers@, second.erc721_transfers@, logs);
    lemma_erc1155_rows_of_same_logs(second.erc1155_transfers@, again.logs@, logs);
    lemma_same_erc1155_rows(first.erc1155_transfers@, second.erc1155_transfers@, logs);
    lemma_dex_trade_rows_of_same_logs(second.dex_trades@, again.logs@, logs);
    lemma_same_dex_trade_rows(first.dex_trades@, second.dex_trades@, logs);
}

/// The lists of one height alone are the lists of that height.
pub proof fn lemma_batch_of_one(fetched: FetchedBlock)
    ensures
        all_blocks(seq![fetched]) == seq![fetched.block],
        all_transactions(seq![fetched]) == fetched.transactions@,
        all_logs(seq![fetched]) == fetched.logs@,
        all_traces(seq![fetched]) == fetched.traces@,
        all_contracts(seq![fetched]) == fetched.contracts@,
        all_withdrawals(seq![fetched]) == fetched.withdrawals@,
{
    let one = seq![fetched];
    assert(one.drop_last() == Seq::<FetchedBlock>::empty());
    assert(one.last() == fetched);
    let none = Seq::<FetchedBlock>::empty();
    assert(all_transactions(none).len() == 0);
    assert(all_logs(none).len() == 0);
    assert(all_traces(none).len() == 0);
    assert(all_contracts(none).len() == 0);
    assert(all_withdrawals(none).len() == 0);
    assert(all_blocks(one) =~= seq![fetched.block]);
    assert(all_transactions(one) =~= fetched.transactions@);
    assert(all_logs(one) =~= fetched.logs@);
    assert(all_traces(one) =~= fetched.traces@);
    assert(all_contracts(one) =~= fetched.contracts@);
    assert(all_withdrawals(one) =~= fetched.withdrawals@);
}

} // verus!
