//! The ordering rule of the writer.
//!
//! A batch is stored in two phases. First every list but the block list is
//! inserted, all of them at once. Only when each of these insertions has
//! been confirmed is the block list inserted. The presence of a block row
//! is what marks a block as indexed, so a block row must never exist
//! before the rows that hang on it. A failure in either phase is fatal:
//! nothing more is written, and the caller aborts.
//!
//! The insertions themselves are the caller's work. It tells the machine
//! what happened and does what the machine answers.

use crate::db::BlockFetchedData;
use crate::db::DatabaseTables;
use vstd::prelude::*;

verus! {

/// How far the store of one batch has come.
#[derive(Clone, Copy, Debug, PartialEq, Eq, Structural)]
pub enum StorePhase {
    /// Nothing has been started.
    Ready,
    /// The dependent lists are being inserted.
    Dependents,
    /// The dependent lists are written; the block list is being inserted.
    Blocks,
    /// All lists are written.
    Stored,
    /// An insertion failed.
    Failed,
}

/// What the caller is to do next.
#[derive(Clone, Copy, Debug, PartialEq, Eq, Structural)]
pub enum StoreAction {
    /// Insert the lists of the batch's dependent tables, in parallel, and
    /// report how each insertion ended.
    InsertDependents,
    /// Insert the block list and report how it ended.
    InsertBlocks,
    /// The batch is stored: its blocks count as indexed.
    Finish,
    /// Give up for good; the blocks of the batch do not count as indexed.
    Abort,
    /// The event does not belong to this phase; nothing changes.
    Wait,
}

/// How the insertion into one table ended.
#[derive(Clone, Copy, Debug, PartialEq, Eq, Structural)]
pub struct InsertResult {
    pub table: DatabaseTables,
    pub ok: bool,
}

/// What the caller reports to the machine.
#[derive(Clone, Debug)]
pub enum StoreEvent {
    /// The batch is handed over.
    Begin,
    /// The insertions of the first phase have all come back.
    DependentsDone(Vec<InsertResult>),
    /// The insertion of the block list has come back; `true` for success.
    BlocksDone(bool),
}

/// A `StoreEvent` as contracts see it.
pub enum StoreEventView {
    Begin,
    DependentsDone(Seq<InsertResult>),
    BlocksDone(bool),
}

impl View for StoreEvent {
    type V = StoreEventView;

    open spec fn view(&self) -> StoreEventView {
        match self {
            StoreEvent::Begin => StoreEventView::Begin,
            StoreEvent::DependentsDone(results) => StoreEventView::DependentsDone(results@),
            StoreEvent::BlocksDone(ok) => StoreEventView::BlocksDone(*ok),
        }
    }
}

/// Every reported insertion succeeded, and every table of `tables` is
/// among those reported.
pub open spec fn confirmed(tables: Seq<DatabaseTables>, results: Seq<InsertResult>) -> bool {
    &&& forall|j: int| 0 <= j < results.len() ==> (#[trigger] results[j]).ok
    &&& forall|i: int| 0 <= i < tables.len() ==> reported(results, #[trigger] tables[i])
}

/// `results` holds a report for `table`.
pub open spec fn reported(results: Seq<InsertResult>, table: DatabaseTables) -> bool {
    exists|j: int| 0 <= j < results.len() && (#[trigger] results[j]).table == table
}

/// The phase that follows, and the action that is answered, when `event`
/// arrives in `phase` for a batch with the dependent tables `tables`.
pub open spec fn store_step(
    phase: StorePhase,
    tables: Seq<DatabaseTables>,
    has_blocks: bool,
    event: StoreEventView,
) -> (StorePhase, StoreAction) {
    match (phase, event) {
        (StorePhase::Ready, StoreEventView::Begin) => {
            if tables.len() > 0 {
                (StorePhase::Dependents, StoreAction::InsertDependents)
            } else if has_blocks {
                (StorePhase::Blocks, StoreAction::InsertBlocks)
            } else {
                (StorePhase::Stored, StoreAction::Finish)
            }
        },
        (StorePhase::Dependents, StoreEventView::DependentsDone(results)) => {
            if !confirmed(tables, results) {
                (StorePhase::Failed, StoreAction::Abort)
            } else if has_blocks {
                (StorePhase::Blocks, StoreAction::InsertBlocks)
            } else {
                (StorePhase::Stored, StoreAction::Finish)
            }
        },
        (StorePhase::Blocks, StoreEventView::BlocksDone(ok)) => {
            if ok {
                (StorePhase::Stored, StoreAction::Finish)
            } else {
                (StorePhase::Failed, StoreAction::Abort)
            }
        },
        _ => (phase, StoreAction::Wait),
    }
}

/// The phase reached from `Ready` after the events of `events`, in order.
pub open spec fn phase_after(
    tables: Seq<DatabaseTables>,
    has_blocks: bool,
    events: Seq<StoreEventView>,
) -> StorePhase
    decreases events.len(),
{
    if events.len() == 0 {
        StorePhase::Ready
    } else {
        store_step(
            phase_after(tables, has_blocks, events.drop_last()),
            tables,
            has_blocks,
            events.last(),
        ).0
    }
}

/// The action answered to the event at index `i` of `events`.
pub open spec fn action_at(
    tables: Seq<DatabaseTables>,
    has_blocks: bool,
    events: Seq<StoreEventView>,
    i: int,
) -> StoreAction {
    store_step(phase_after(tables, has_blocks, events.take(i)), tables, has_blocks, events[i]).1
}

/// Whether every result of `results` reports success.
pub fn all_ok(results: &Vec<InsertResult>) -> (ok: bool)
    ensures
        ok == (forall|j: int| 0 <= j < results@.len() ==> (#[trigger] results@[j]).ok),
{
    let mut j: usize = 0;
    while j < results.len()
        invariant
            j <= results@.len(),
            forall|k: int| 0 <= k < j ==> (#[trigger] results@[k]).ok,
        decreases results@.len() - j,
    {
        if !results[j].ok {
            return false;
        }
        j += 1;
    }
    true
}

/// Whether `results` holds a report for `table`.
pub fn reports(results: &Vec<InsertResult>, table: DatabaseTables) -> (found: bool)
    ensures
        found == reported(results@, table),
{
    let mut j: usize = 0;
    while j < results.len()
        invariant
            j <= results@.len(),
            forall|k: int| 0 <= k < j ==> (#[trigger] results@[k]).table != table,
        decreases results@.len() - j,
    {
        if results[j].table == table {
            return true;
        }
        j += 1;
    }
    false
}

/// Whether `results` confirms the insertion into every table of `tables`.
pub fn is_confirmed(tables: &Vec<DatabaseTables>, results: &Vec<InsertResult>) -> (ok: bool)
    ensures
        ok == confirmed(tables@, results@),
{
    if !all_ok(results) {
        return false;
    }
    let mut i: usize = 0;
    while i < tables.len()
        invariant
            i <= tables@.len(),
            forall|k: int| 0 <= k < i ==> reported(results@, #[trigger] tables@[k]),
        decreases tables@.len() - i,
    {
        if !reports(results, tables[i]) {
            return false;
        }
        i += 1;
    }
    true
}

/// The store of one batch: the phase it is in.
#[derive(Clone, Copy, Debug)]
pub struct StoreData {
    pub phase: StorePhase,
}

impl StoreData {
    /// A store that has not begun.
    pub fn new() -> (store: Self)
        ensures
            store.phase == StorePhase::Ready,
    {
        StoreData { phase: StorePhase::Ready }
    }

    /// Whether the batch is written in full, so that its blocks count as
    /// indexed.
    pub fn is_stored(&self) -> (stored: bool)
        ensures
            stored == (self.phase == StorePhase::Stored),
    {
        self.phase == StorePhase::Stored
    }

    /// Takes one event for the batch `data` and answers what to do next.
    pub fn step(&mut self, data: &BlockFetchedData, event: &StoreEvent) -> (action: StoreAction)
        ensures
            (final(self).phase, action) == store_step(
                old(self).phase,
                data.dependents(),
                data.has_blocks(),
                event@,
            ),
    {
        let has_blocks = data.blocks.len() > 0;
        match event {
            StoreEvent::Begin => {
                if self.phase == StorePhase::Ready {
                    let tables = data.dependent_tables();
                    if tables.len() > 0 {
                        self.phase = StorePhase::Dependents;
                        StoreAction::InsertDependents
                    } else if has_blocks {
                        self.phase = StorePhase::Blocks;
                        StoreAction::InsertBlocks
                    } else {
                        self.phase = StorePhase::Stored;
                        StoreAction::Finish
                    }
                } else {
                    StoreAction::Wait
                }
            },
            StoreEvent::DependentsDone(results) => {
                if self.phase == StorePhase::Dependents {
                    let tables = data.dependent_tables();
                    if !is_confirmed(&tables, results) {
                        self.phase = StorePhase::Failed;
                        StoreAction::Abort
                    } else if has_blocks {
                        self.phase = StorePhase::Blocks;
                        StoreAction::InsertBlocks
                    } else {
                        self.phase = StorePhase::Stored;
                        StoreAction::Finish
                    }
                } else {
                    StoreAction::Wait
                }
            },
            StoreEvent::BlocksDone(ok) => {
                if self.phase == StorePhase::Blocks {
                    if *ok {
                        self.phase = StorePhase::Stored;
                        StoreAction::Finish
                    } else {
                        self.phase = StorePhase::Failed;
                        StoreAction::Abort
                    }
                } else {
                    StoreAction::Wait
                }
            },
        }
    }
}


/// How far a phase is along the way; a store never goes back.
pub open spec fn progress(phase: StorePhase) -> int {
    match phase {
        StorePhase::Ready => 0,
        StorePhase::Dependents => 1,
        StorePhase::Blocks => 2,
        StorePhase::Stored => 3,
        StorePhase::Failed => 3,
    }
}

/// The phase after `i + 1` events is one step from the phase after `i`.
proof fn lemma_phase_unfold(
    tables: Seq<DatabaseTables>,
    has_blocks: bool,
    events: Seq<StoreEventView>,
    i: int,
)
    requires
        0 <= i < events.len(),
    ensures
        phase_after(tables, has_blocks, events.take(i + 1)) == store_step(
            phase_after(tables, has_blocks, events.take(i)),
            tables,
            has_blocks,
            events[i],
        ).0,
{
    assert(events.take(i + 1).drop_last() == events.take(i));
    assert(events.take(i + 1).last() == events[i]);
}

/// A store moves forward only, and stays where it ended.
proof fn lemma_phase_monotone(
    tables: Seq<DatabaseTables>,
    has_blocks: bool,
    events: Seq<StoreEventView>,
    i: int,
    j: int,
)
    requires
        0 <= i <= j <= events.len(),
    ensures
        progress(phase_after(tables, has_blocks, events.take(i))) <= progress(
            phase_after(tables, has_blocks, events.take(j)),
        ),
        progress(phase_after(tables, has_blocks, events.take(i))) == 3 ==> phase_after(
            tables,
            has_blocks,
            events.take(j),
        ) == phase_after(tables, has_blocks, events.take(i)),
    decreases j - i,
{
    if i < j {
        lemma_phase_monotone(tables, has_blocks, events, i, j - 1);
        lemma_phase_unfold(tables, has_blocks, events, j - 1);
    }
}

/// A store that waits for its dependents was told to insert them.
proof fn lemma_dependents_were_started(
    tables: Seq<DatabaseTables>,
    has_blocks: bool,
    events: Seq<StoreEventView>,
    i: int,
)
    requires
        0 <= i <= events.len(),
        phase_after(tables, has_blocks, events.take(i)) == StorePhase::Dependents,
    ensures
        tables.len() > 0,
        exists|k: int|
            0 <= k < i && #[trigger] action_at(tables, has_blocks, events, k)
                == StoreAction::InsertDependents,
    decreases i,
{
    if i == 0 {
        assert(events.take(0).len() == 0);
    } else {
        lemma_phase_unfold(tables, has_blocks, events, i - 1);
        if phase_after(tables, has_blocks, events.take(i - 1)) == StorePhase::Dependents {
            lemma_dependents_were_started(tables, has_blocks, events, i - 1);
        } else {
            assert(action_at(tables, has_blocks, events, i - 1) == StoreAction::InsertDependents);
        }
    }
}

/// The block list is written last. Whenever a store answers
/// `InsertBlocks`, the insertion into every dependent table of the batch
/// has been started before and has been confirmed as successful by the
/// very event that is answered; and up to then the store has neither
/// asked for the block list, nor finished, nor failed.
pub proof fn lemma_blocks_written_last(
    tables: Seq<DatabaseTables>,
    has_blocks: bool,
    events: Seq<StoreEventView>,
    i: int,
)
    requires
        0 <= i < events.len(),
        action_at(tables, has_blocks, events, i) == StoreAction::InsertBlocks,
    ensures
        has_blocks,
        tables.len() > 0 ==> {
            &&& events[i] matches StoreEventView::DependentsDone(results)
            &&& confirmed(tables, results)
            &&& exists|k: int|
                0 <= k < i && #[trigger] action_at(tables, has_blocks, events, k)
                    == StoreAction::InsertDependents
        },
        forall|k: int|
            0 <= k < i ==> {
                let earlier = #[trigger] action_at(tables, has_blocks, events, k);
                earlier != StoreAction::InsertBlocks && earlier != StoreAction::Finish && earlier
                    != StoreAction::Abort
            },
{
    let before = phase_after(tables, has_blocks, events.take(i));
    if tables.len() > 0 {
        assert(before == StorePhase::Dependents);
        lemma_dependents_were_started(tables, has_blocks, events, i);
    }
    assert forall|k: int| 0 <= k < i implies {
        let earlier = #[trigger] action_at(tables, has_blocks, events, k);
        earlier != StoreAction::InsertBlocks && earlier != StoreAction::Finish && earlier
            != StoreAction::Abort
    } by {
        lemma_phase_unfold(tables, has_blocks, events, k);
        lemma_phase_monotone(tables, has_blocks, events, k + 1, i);
    }
}

/// A failed insertion is fatal. When the report on the dependent tables
/// does not confirm them all, the store answers `Abort` and ends as
/// failed, whatever is reported afterwards; it never asks for the block
/// list and never finishes.
pub proof fn lemma_failed_dependents_write_no_blocks(
    tables: Seq<DatabaseTables>,
    has_blocks: bool,
    events: Seq<StoreEventView>,
    i: int,
)
    requires
        0 <= i < events.len(),
        phase_after(tables, has_blocks, events.take(i)) == StorePhase::Dependents,
        events[i] matches StoreEventView::DependentsDone(results) && !confirmed(tables, results),
    ensures
        action_at(tables, has_blocks, events, i) == StoreAction::Abort,
        phase_after(tables, has_blocks, events) == StorePhase::Failed,
        forall|k: int|
            0 <= k < events.len() ==> {
                let any = #[trigger] action_at(tables, has_blocks, events, k);
                any != StoreAction::InsertBlocks && any != StoreAction::Finish
            },
{
    lemma_phase_unfold(tables, has_blocks, events, i);
    lemma_phase_monotone(tables, has_blocks, events, i + 1, events.len() as int);
    assert(events.take(events.len() as int) == events);
    assert forall|k: int| 0 <= k < events.len() implies {
        let any = #[trigger] action_at(tables, has_blocks, events, k);
        any != StoreAction::InsertBlocks && any != StoreAction::Finish
    } by {
        lemma_phase_unfold(tables, has_blocks, events, k);
        if k < i {
            lemma_phase_monotone(tables, has_blocks, events, k + 1, i);
        } else if k > i {
            lemma_phase_monotone(tables, has_blocks, events, i + 1, k);
        }
    }
}

/// A store that finished wrote its block list, if it had one, after all
/// else: the answer `Finish` comes either to the confirmation of the
/// block list, or for a batch without blocks.
pub proof fn lemma_finish_means_written(
    tables: Seq<DatabaseTables>,
    has_blocks: bool,
    events: Seq<StoreEventView>,
    i: int,
)
    requires
        0 <= i < events.len(),
        action_at(tables, has_blocks, events, i) == StoreAction::Finish,
    ensures
        has_blocks ==> events[i] == StoreEventView::BlocksDone(true) && phase_after(
            tables,
            has_blocks,
            events.take(i),
        ) == StorePhase::Blocks,
        phase_after(tables, has_blocks, events.take(i + 1)) == StorePhase::Stored,
{
    lemma_phase_unfold(tables, has_blocks, events, i);
}

} // verus!
