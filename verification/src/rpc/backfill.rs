//! The backfill coordinator.
//!
//! A pass finds the blocks that are missing, cuts them into chunks and
//! takes the chunks one after the other: the blocks of a chunk are
//! fetched, what came is gathered into one batch, the batch is stored,
//! and only then do its blocks count as indexed. A block whose fetch
//! failed fails nothing; it is missing again in the next pass. A store
//! that failed ends the run.
//!
//! The coordinator decides; it neither fetches nor stores. Its caller
//! wakes it, does what it answers, and reports what happened.

use crate::configs::{is_bounded, Config};
use crate::db::tracker::{countable_numbers, indexed_numbers, Tracker};
use crate::db::BlockFetchedData;
use crate::rpc::assembler::FetchedBlock;
use crate::rpc::batch::{build_batch, fetched_of, is_batch_of};
use crate::rpc::sync::{
    chunk, chunk_at, lemma_missing, missing, missing_blocks, target_block, target_of,
};
use vstd::prelude::*;

verus! {

/// Where a coordinator stands.
#[derive(Clone, Copy, Debug, PartialEq, Eq, Structural)]
pub enum SyncPhase {
    /// Between two passes.
    Idle,
    /// The genesis allocations are being written.
    Genesis,
    /// The node is being asked for its tip.
    Tip,
    /// The blocks of a chunk are being fetched.
    Fetching,
    /// The batch of a chunk is being stored.
    Storing,
    /// The run is over.
    Exited,
}

/// What the caller reports.
#[derive(Debug)]
pub enum SyncEvent {
    /// It is time for a pass.
    Wake,
    /// The write of the genesis allocations came back; `true` for success.
    GenesisStored(bool),
    /// The node answered with its tip, or failed to.
    Tip(Option<u32>),
    /// The fetches of the chunk came back, one result for each block that
    /// was asked for and in that order; none where a fetch failed.
    Fetched(Vec<Option<FetchedBlock>>),
    /// The store of the batch came back; `true` for success.
    Stored(bool),
}

/// A `SyncEvent` as contracts see it.
pub enum SyncEventView {
    Wake,
    GenesisStored(bool),
    Tip(Option<u32>),
    Fetched(Seq<Option<FetchedBlock>>),
    Stored(bool),
}

impl View for SyncEvent {
    type V = SyncEventView;

    open spec fn view(&self) -> SyncEventView {
        match self {
            SyncEvent::Wake => SyncEventView::Wake,
            SyncEvent::GenesisStored(ok) => SyncEventView::GenesisStored(*ok),
            SyncEvent::Tip(tip) => SyncEventView::Tip(*tip),
            SyncEvent::Fetched(results) => SyncEventView::Fetched(results@),
            SyncEvent::Stored(ok) => SyncEventView::Stored(*ok),
        }
    }
}

/// What the caller is to do next.
pub enum SyncAction {
    /// Write the genesis allocations and report how the write ended.
    WriteGenesis,
    /// Ask the node for its tip and report it.
    AskTip,
    /// Fetch these blocks, all at once, and report what came.
    Fetch(Vec<u32>),
    /// Store this batch and report how the store ended.
    Store(BlockFetchedData),
    /// Wait for the next pass, then wake the coordinator.
    Sleep,
    /// End the process with this exit code.
    Exit(i32),
    /// The event does not belong here; nothing changes.
    Wait,
}

/// A `SyncAction` as contracts see it.
pub enum SyncActionView {
    WriteGenesis,
    AskTip,
    Fetch(Seq<u32>),
    Store(BlockFetchedData),
    Sleep,
    Exit(i32),
    Wait,
}

impl View for SyncAction {
    type V = SyncActionView;

    open spec fn view(&self) -> SyncActionView {
        match self {
            SyncAction::WriteGenesis => SyncActionView::WriteGenesis,
            SyncAction::AskTip => SyncActionView::AskTip,
            SyncAction::Fetch(blocks) => SyncActionView::Fetch(blocks@),
            SyncAction::Store(batch) => SyncActionView::Store(*batch),
            SyncAction::Sleep => SyncActionView::Sleep,
            SyncAction::Exit(code) => SyncActionView::Exit(*code),
            SyncAction::Wait => SyncActionView::Wait,
        }
    }
}

/// The coordinator of the backfill.
pub struct Backfill {
    phase: SyncPhase,
    missing: Vec<u32>,
    from: usize,
    size: usize,
    pending: Vec<u32>,
}

/// A coordinator as contracts see it.
pub struct BackfillView {
    pub phase: SyncPhase,
    /// The missing blocks of the pass.
    pub missing: Seq<u32>,
    /// Where in `missing` the chunk at hand starts.
    pub from: int,
    /// The batch size of the pass.
    pub size: int,
    /// The blocks that count as indexed once the batch at hand is stored.
    pub pending: Seq<u32>,
}

impl View for Backfill {
    type V = BackfillView;

    closed spec fn view(&self) -> BackfillView {
        BackfillView {
            phase: self.phase,
            missing: self.missing@,
            from: self.from as int,
            size: self.size as int,
            pending: self.pending@,
        }
    }
}

impl BackfillView {
    /// The chunk at hand.
    pub open spec fn chunk(self) -> Seq<u32> {
        chunk_at(self.missing, self.from, self.size)
    }

    /// The state holds together: the missing blocks ascend, the chunk at
    /// hand lies within them, and what is pending was asked for.
    pub open spec fn wf(self) -> bool {
        &&& 0 <= self.from <= self.missing.len()
        &&& forall|i: int, j: int|
            0 <= i < j < self.missing.len() ==> self.missing[i] < self.missing[j]
        &&& (self.phase == SyncPhase::Fetching || self.phase == SyncPhase::Storing) ==> self.from
            < self.missing.len() && self.size > 0
        &&& self.phase == SyncPhase::Storing ==> forall|k: int|
            0 <= k < self.pending.len() ==> self.chunk().contains(#[trigger] self.pending[k])
    }
}

/// The results that count: a result counts if it stands at the place of
/// a block that was asked for and holds that very block. Any other is
/// taken as a failed fetch.
pub open spec fn accepted(results: Seq<Option<FetchedBlock>>, asked: Seq<u32>) -> Seq<
    Option<FetchedBlock>,
> {
    Seq::new(
        results.len(),
        |i: int|
            if i < asked.len() && results[i] is Some && results[i]->0.block.number == asked[i] {
                results[i]
            } else {
                None
            },
    )
}

/// A pass over the blocks up to `last` was planned: the missing blocks
/// are set, and either there is a first chunk to fetch, or nothing is
/// missing, which ends a bounded run with exit code 0 and sends an
/// unbounded one to sleep.
pub open spec fn planned(
    config: Config,
    indexed: Set<u32>,
    last: u32,
    post: BackfillView,
    action: SyncActionView,
) -> bool {
    let blocks = missing(config.start_block, last, indexed);
    &&& post.missing == blocks
    &&& post.from == 0
    &&& post.size == config.batch_size
    &&& post.pending == Seq::<u32>::empty()
    &&& if blocks.len() > 0 {
        post.phase == SyncPhase::Fetching && action == SyncActionView::Fetch(
            chunk_at(blocks, 0, config.batch_size as int),
        )
    } else if is_bounded(config.end_block) {
        post.phase == SyncPhase::Exited && action == SyncActionView::Exit(0)
    } else {
        post.phase == SyncPhase::Idle && action == SyncActionView::Sleep
    }
}

/// A pass began: a bounded one is planned at once, an unbounded one asks
/// the node for its tip first.
pub open spec fn began(
    pre: BackfillView,
    config: Config,
    indexed: Set<u32>,
    post: BackfillView,
    action: SyncActionView,
) -> bool {
    if is_bounded(config.end_block) {
        planned(config, indexed, target_of(config.end_block, 0), post, action)
    } else {
        post == (BackfillView { phase: SyncPhase::Tip, ..pre }) && action == SyncActionView::AskTip
    }
}

/// One step of the coordinator: in the state `pre`, with the blocks
/// `indexed` indexed, `event` is reported; the coordinator goes to
/// `post`, leaves `indexed_after` indexed, and answers `action`.
pub open spec fn sync_step(
    pre: BackfillView,
    config: Config,
    indexed: Set<u32>,
    event: SyncEventView,
    post: BackfillView,
    indexed_after: Set<u32>,
    action: SyncActionView,
) -> bool {
    match (pre.phase, event) {
        (SyncPhase::Idle, SyncEventView::Wake) => {
            &&& indexed_after == indexed
            &&& if config.new_blocks_only {
                post == pre && action == SyncActionView::Sleep
            } else if indexed == Set::<u32>::empty() {
                post == (BackfillView { phase: SyncPhase::Genesis, ..pre }) && action
                    == SyncActionView::WriteGenesis
            } else {
                began(pre, config, indexed, post, action)
            }
        },
        (SyncPhase::Genesis, SyncEventView::GenesisStored(ok)) => {
            &&& indexed_after == indexed
            &&& if ok {
                began(pre, config, indexed, post, action)
            } else {
                post == (BackfillView { phase: SyncPhase::Exited, ..pre }) && action
                    == SyncActionView::Exit(1)
            }
        },
        (SyncPhase::Tip, SyncEventView::Tip(tip)) => {
            &&& indexed_after == indexed
            &&& match tip {
                Some(last) => planned(config, indexed, last, post, action),
                None => post == (BackfillView { phase: SyncPhase::Idle, ..pre }) && action
                    == SyncActionView::Sleep,
            }
        },
        (SyncPhase::Fetching, SyncEventView::Fetched(results)) => {
            &&& indexed_after == indexed
            &&& action matches SyncActionView::Store(batch)
            &&& is_batch_of(batch, fetched_of(accepted(results, pre.chunk())))
            &&& post.phase == SyncPhase::Storing
            &&& post.missing == pre.missing
            &&& post.from == pre.from
            &&& post.size == pre.size
            &&& post.pending.to_set() == indexed_numbers(batch.blocks@)
        },
        (SyncPhase::Storing, SyncEventView::Stored(ok)) => {
            if ok {
                let next = pre.from + pre.chunk().len();
                &&& indexed_after == indexed.union(pre.pending.to_set())
                &&& post.missing == pre.missing
                &&& post.from == next
                &&& post.size == pre.size
                &&& post.pending == Seq::<u32>::empty()
                &&& if next < pre.missing.len() {
                    post.phase == SyncPhase::Fetching && action == SyncActionView::Fetch(
                        chunk_at(pre.missing, next, pre.size),
                    )
                } else {
                    post.phase == SyncPhase::Idle && action == SyncActionView::Sleep
                }
            } else {
                &&& indexed_after == indexed
                &&& post == (BackfillView { phase: SyncPhase::Exited, ..pre })
                &&& action == SyncActionView::Exit(1)
            }
        },
        _ => post == pre && indexed_after == indexed && action == SyncActionView::Wait,
    }
}

/// Every block that counts was asked for.
pub proof fn lemma_accepted_were_asked(results: Seq<Option<FetchedBlock>>, asked: Seq<u32>)
    ensures
        forall|k: int|
            0 <= k < fetched_of(accepted(results, asked)).len() ==> asked.contains(
                (#[trigger] fetched_of(accepted(results, asked))[k]).block.number,
            ),
    decreases results.len(),
{
    if results.len() > 0 {
        let shorter = results.drop_last();
        lemma_accepted_were_asked(shorter, asked);
        assert(accepted(results, asked).drop_last() =~= accepted(shorter, asked));
        let all = fetched_of(accepted(results, asked));
        let before = fetched_of(accepted(shorter, asked));
        assert forall|k: int| 0 <= k < all.len() implies asked.contains(
            (#[trigger] all[k]).block.number,
        ) by {
            if k < before.len() {
                assert(all[k] == before[k]);
            } else {
                let i = results.len() - 1;
                assert(accepted(results, asked).last() == accepted(results, asked)[i]);
                assert(asked[i] == all[k].block.number);
            }
        }
    }
}

/// Keeps the results that count.
pub fn accept(results: Vec<Option<FetchedBlock>>, asked: &Vec<u32>) -> (kept: Vec<
    Option<FetchedBlock>,
>)
    ensures
        kept@ == accepted(results@, asked@),
{
    let mut rest = results;
    let mut kept: Vec<Option<FetchedBlock>> = Vec::new();
    while rest.len() > 0
        invariant
            kept@.len() + rest@.len() == results@.len(),
            rest@ == results@.skip(kept@.len() as int),
            kept@ == accepted(results@, asked@).take(kept@.len() as int),
        decreases rest@.len(),
    {
        let i = kept.len();
        let item = rest.remove(0);
        assert(item == results@[i as int]);
        assert(rest@ == results@.skip(i + 1));
        let keep = match &item {
            Some(fetched) => i < asked.len() && fetched.block.number == asked[i],
            None => false,
        };
        if keep {
            kept.push(item);
        } else {
            kept.push(None);
        }
        assert(kept@ == accepted(results@, asked@).take(i + 1));
    }
    assert(accepted(results@, asked@).take(results@.len() as int) == accepted(results@, asked@));
    kept
}

impl Backfill {
    /// A coordinator between two passes, before its first.
    pub fn new() -> (backfill: Backfill)
        ensures
            backfill@ == (BackfillView {
                phase: SyncPhase::Idle,
                missing: Seq::empty(),
                from: 0,
                size: 0,
                pending: Seq::empty(),
            }),
            backfill@.wf(),
    {
        Backfill {
            phase: SyncPhase::Idle,
            missing: Vec::new(),
            from: 0,
            size: 0,
            pending: Vec::new(),
        }
    }

    /// Where the coordinator stands.
    pub fn phase(&self) -> (phase: SyncPhase)
        ensures
            phase == self@.phase,
    {
        self.phase
    }

    /// How many blocks the pass at hand misses.
    pub fn missing_count(&self) -> (count: usize)
        ensures
            count == self@.missing.len(),
    {
        self.missing.len()
    }

    fn plan(&mut self, config: &Config, tracker: &Tracker, last: u32) -> (action: SyncAction)
        requires
            config.batch_size > 0,
        ensures
            planned(*config, tracker@, last, final(self)@, action@),
            final(self)@.wf(),
    {
        proof {
            lemma_missing(config.start_block, last, tracker@);
        }
        self.missing = missing_blocks(config.start_block, last, tracker);
        self.from = 0;
        self.size = config.batch_size;
        self.pending = Vec::new();
        if self.missing.len() > 0 {
            self.phase = SyncPhase::Fetching;
            SyncAction::Fetch(chunk(&self.missing, 0, self.size))
        } else if config.end_block > 0 {
            self.phase = SyncPhase::Exited;
            SyncAction::Exit(0)
        } else {
            self.phase = SyncPhase::Idle;
            SyncAction::Sleep
        }
    }

    fn begin(&mut self, config: &Config, tracker: &Tracker) -> (action: SyncAction)
        requires
            config.batch_size > 0,
            old(self)@.wf(),
            old(self)@.phase != SyncPhase::Fetching,
            old(self)@.phase != SyncPhase::Storing,
        ensures
            began(old(self)@, *config, tracker@, final(self)@, action@),
            final(self)@.wf(),
    {
        if config.end_block > 0 {
            self.plan(config, tracker, target_block(config.end_block, 0))
        } else {
            self.phase = SyncPhase::Tip;
            SyncAction::AskTip
        }
    }

    /// Takes one event and answers what to do next.
    pub fn step(&mut self, config: &Config, tracker: &mut Tracker, event: SyncEvent) -> (action:
        SyncAction)
        requires
            config.batch_size > 0,
            old(self)@.wf(),
        ensures
            sync_step(
                old(self)@,
                *config,
                old(tracker)@,
                event@,
                final(self)@,
                final(tracker)@,
                action@,
            ),
            final(self)@.wf(),
    {
        match event {
            SyncEvent::Wake => {
                if self.phase != SyncPhase::Idle {
                    SyncAction::Wait
                } else if config.new_blocks_only {
                    SyncAction::Sleep
                } else if tracker.is_empty() {
                    self.phase = SyncPhase::Genesis;
                    SyncAction::WriteGenesis
                } else {
                    self.begin(config, tracker)
                }
            },
            SyncEvent::GenesisStored(ok) => {
                if self.phase != SyncPhase::Genesis {
                    SyncAction::Wait
                } else if ok {
                    self.begin(config, tracker)
                } else {
                    self.phase = SyncPhase::Exited;
                    SyncAction::Exit(1)
                }
            },
            SyncEvent::Tip(tip) => {
                if self.phase != SyncPhase::Tip {
                    SyncAction::Wait
                } else {
                    match tip {
                        Some(last) => self.plan(config, tracker, last),
                        None => {
                            self.phase = SyncPhase::Idle;
                            SyncAction::Sleep
                        },
                    }
                }
            },
            SyncEvent::Fetched(results) => {
                if self.phase != SyncPhase::Fetching {
                    SyncAction::Wait
                } else {
                    let asked = chunk(&self.missing, self.from, self.size);
                    let kept = accept(results, &asked);
                    let batch = build_batch(kept);
                    let pending = countable_numbers(&batch.blocks);
                    proof {
                        lemma_accepted_were_asked(results@, asked@);
                        let fetched = fetched_of(accepted(results@, asked@));
                        assert forall|k: int| 0 <= k < pending@.len() implies asked@.contains(
                            #[trigger] pending@[k],
                        ) by {
                            let n = pending@[k];
                            assert(pending@.to_set().contains(n));
                            assert(indexed_numbers(batch.blocks@).contains(n));
                            let i = choose|i: int|
                                0 <= i < batch.blocks@.len() && (#[trigger] batch.blocks@[i]).number
                                    == n && !batch.blocks@[i].is_uncle;
                            assert(batch.blocks@[i] == fetched[i].block);
                        }
                    }
                    self.pending = pending;
                    self.phase = SyncPhase::Storing;
                    SyncAction::Store(batch)
                }
            },
            SyncEvent::Stored(ok) => {
                if self.phase != SyncPhase::Storing {
                    SyncAction::Wait
                } else if ok {
                    tracker.insert_all(&self.pending);
                    let taken = if self.size <= self.missing.len() - self.from {
                        self.size
                    } else {
                        self.missing.len() - self.from
                    };
                    self.from = self.from + taken;
                    self.pending = Vec::new();
                    if self.from < self.missing.len() {
                        self.phase = SyncPhase::Fetching;
                        SyncAction::Fetch(chunk(&self.missing, self.from, self.size))
                    } else {
                        self.phase = SyncPhase::Idle;
                        SyncAction::Sleep
                    }
                } else {
                    self.phase = SyncPhase::Exited;
                    SyncAction::Exit(1)
                }
            },
        }
    }
}

/// The block before which the pass stops that a step plans, where the
/// step plans one: a bounded pass is planned when the coordinator wakes
/// with blocks indexed, or when the genesis allocations are written; an
/// unbounded one when the node reports its tip.
pub open spec fn plans_pass(
    pre: BackfillView,
    config: Config,
    indexed: Set<u32>,
    event: SyncEventView,
) -> Option<u32> {
    match (pre.phase, event) {
        (SyncPhase::Idle, SyncEventView::Wake) => if !config.new_blocks_only && indexed
            != Set::<u32>::empty() && is_bounded(config.end_block) {
            Some(target_of(config.end_block, 0))
        } else {
            None
        },
        (SyncPhase::Genesis, SyncEventView::GenesisStored(true)) => if is_bounded(
            config.end_block,
        ) {
            Some(target_of(config.end_block, 0))
        } else {
            None
        },
        (SyncPhase::Tip, SyncEventView::Tip(Some(last))) => Some(last),
        _ => None,
    }
}

/// Whenever a step plans a pass and nothing is missing, a bounded run
/// ends with exit code 0, and an unbounded one sleeps until it is woken
/// for the next pass.
pub proof fn lemma_pass_without_missing_blocks(
    pre: BackfillView,
    config: Config,
    indexed: Set<u32>,
    event: SyncEventView,
    post: BackfillView,
    indexed_after: Set<u32>,
    action: SyncActionView,
)
    requires
        sync_step(pre, config, indexed, event, post, indexed_after, action),
        plans_pass(pre, config, indexed, event) matches Some(last) && missing(
            config.start_block,
            last,
            indexed,
        ).len() == 0,
    ensures
        config.end_block > 0 ==> action == SyncActionView::Exit(0) && post.phase
            == SyncPhase::Exited,
        config.end_block <= 0 ==> action == SyncActionView::Sleep && post.phase == SyncPhase::Idle,
        indexed_after == indexed,
{
    let last = plans_pass(pre, config, indexed, event)->0;
    assert(planned(config, indexed, last, post, action));
}

/// A pass that finds nothing missing ends a bounded run with exit code 0
/// and sends an unbounded one to sleep until the next pass; in neither
/// case is anything fetched.
pub proof fn lemma_nothing_missing(
    config: Config,
    indexed: Set<u32>,
    last: u32,
    post: BackfillView,
    action: SyncActionView,
)
    requires
        planned(config, indexed, last, post, action),
        missing(config.start_block, last, indexed).len() == 0,
    ensures
        config.end_block > 0 ==> action == SyncActionView::Exit(0) && post.phase
            == SyncPhase::Exited,
        config.end_block <= 0 ==> action == SyncActionView::Sleep && post.phase == SyncPhase::Idle,
{
}

/// A pass that finds blocks missing fetches the first chunk of them, and
/// every block that it asks for lies in the range of the pass and is not
/// indexed.
pub proof fn lemma_only_missing_blocks_are_fetched(
    config: Config,
    indexed: Set<u32>,
    last: u32,
    post: BackfillView,
    action: SyncActionView,
)
    requires
        planned(config, indexed, last, post, action),
        missing(config.start_block, last, indexed).len() > 0,
        config.batch_size > 0,
    ensures
        action matches SyncActionView::Fetch(blocks) && blocks.len() > 0 && forall|k: int|
            0 <= k < blocks.len() ==> config.start_block <= #[trigger] blocks[k] < last
                && !indexed.contains(blocks[k]),
{
    lemma_missing(config.start_block, last, indexed);
    let all = missing(config.start_block, last, indexed);
    let blocks = chunk_at(all, 0, config.batch_size as int);
    assert forall|k: int| 0 <= k < blocks.len() implies config.start_block <= #[trigger] blocks[k]
        < last && !indexed.contains(blocks[k]) by {
        assert(blocks[k] == all[k]);
        assert(all.contains(all[k]));
    }
}

/// The genesis allocations are written only when nothing is indexed:
/// once a block is indexed, no step asks for them again.
pub proof fn lemma_genesis_only_when_nothing_is_indexed(
    pre: BackfillView,
    config: Config,
    indexed: Set<u32>,
    event: SyncEventView,
    post: BackfillView,
    indexed_after: Set<u32>,
    action: SyncActionView,
)
    requires
        sync_step(pre, config, indexed, event, post, indexed_after, action),
        action == SyncActionView::WriteGenesis,
    ensures
        indexed == Set::<u32>::empty(),
        pre.phase == SyncPhase::Idle,
        event == SyncEventView::Wake,
{
    if pre.phase == SyncPhase::Idle && event == SyncEventView::Wake && !config.new_blocks_only
        && indexed != Set::<u32>::empty() {
        assert(began(pre, config, indexed, post, action));
    }
}

/// No step takes a block out of the indexed set, and only the
/// confirmation of a store adds to it.
pub proof fn lemma_indexed_only_grows(
    pre: BackfillView,
    config: Config,
    indexed: Set<u32>,
    event: SyncEventView,
    post: BackfillView,
    indexed_after: Set<u32>,
    action: SyncActionView,
)
    requires
        sync_step(pre, config, indexed, event, post, indexed_after, action),
    ensures
        indexed.subset_of(indexed_after),
        indexed_after != indexed ==> pre.phase == SyncPhase::Storing && event
            == SyncEventView::Stored(true),
{
}

/// What is stored is indexed before anything else is fetched. When the
/// store of a batch is confirmed, every block of the batch that counts
/// is indexed in the state that the step leaves; the chunk that the step
/// may ask for next holds none of them; and no later pass, whatever its
/// range, finds one of them missing.
pub proof fn lemma_stored_blocks_are_indexed_before_the_next_fetch(
    pre: BackfillView,
    config: Config,
    indexed: Set<u32>,
    post: BackfillView,
    indexed_after: Set<u32>,
    action: SyncActionView,
    start: u32,
    last: u32,
)
    requires
        pre.wf(),
        pre.phase == SyncPhase::Storing,
        sync_step(pre, config, indexed, SyncEventView::Stored(true), post, indexed_after, action),
    ensures
        forall|k: int|
            0 <= k < pre.pending.len() ==> indexed_after.contains(#[trigger] pre.pending[k]),
        action matches SyncActionView::Fetch(blocks) ==> forall|j: int, k: int|
            0 <= j < blocks.len() && 0 <= k < pre.pending.len() ==> #[trigger] blocks[j]
                != #[trigger] pre.pending[k],
        forall|k: int|
            0 <= k < pre.pending.len() ==> !missing(start, last, indexed_after).contains(
                #[trigger] pre.pending[k],
            ),
{
    lemma_missing(start, last, indexed_after);
    assert forall|k: int| 0 <= k < pre.pending.len() implies indexed_after.contains(
        #[trigger] pre.pending[k],
    ) by {
        assert(pre.pending.to_set().contains(pre.pending[k]));
    }
    let next = pre.from + pre.chunk().len();
    if next < pre.missing.len() {
        let blocks = chunk_at(pre.missing, next, pre.size);
        assert forall|j: int, k: int|
            0 <= j < blocks.len() && 0 <= k < pre.pending.len() implies #[trigger] blocks[j]
            != #[trigger] pre.pending[k] by {
            let here = pre.chunk();
            assert(here.contains(pre.pending[k]));
            let i = choose|i: int| 0 <= i < here.len() && here[i] == pre.pending[k];
            assert(here[i] == pre.missing[pre.from + i]);
            assert(blocks[j] == pre.missing[next + j]);
        }
    }
}

/// With a batch size of one, every chunk is one block.
pub proof fn lemma_chunk_of_one(items: Seq<u32>, from: int)
    requires
        0 <= from < items.len(),
    ensures
        chunk_at(items, from, 1) == seq![items[from]],
{
}

} // verus!
