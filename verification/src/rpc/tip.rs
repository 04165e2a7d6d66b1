//! The tip follower.
//!
//! It listens for new heads. Each head is taken through the same path as
//! a backfilled block: it is fetched, its records are decoded and
//! stored, and only then does it count as indexed; one block at a time.
//! When the subscription drops, the follower waits a moment and
//! subscribes again. A store that is under way when the subscription
//! drops is seen to its end first: what is stored is indexed, whatever
//! happens to the subscription.

use crate::db::tracker::{countable_numbers, indexed_numbers, Tracker};
use crate::db::BlockFetchedData;
use crate::rpc::assembler::FetchedBlock;
use crate::rpc::batch::{build_batch, fetched_of, is_batch_of};
use vstd::prelude::*;

verus! {

/// Where a follower stands.
#[derive(Clone, Copy, Debug, PartialEq, Eq, Structural)]
pub enum TipPhase {
    /// Not subscribed.
    Down,
    /// Subscribed and waiting for a head.
    Listening,
    /// The block of a head is being fetched.
    Fetching,
    /// The batch of a head is being stored.
    Storing,
    /// The run is over.
    Exited,
}

/// What the caller reports.
#[derive(Debug)]
pub enum TipEvent {
    /// It is time to subscribe.
    Wake,
    /// A head arrived; its number where it could be resolved.
    Head(Option<u32>),
    /// The fetch of the head came back; none where it failed.
    Fetched(Option<FetchedBlock>),
    /// The store of the batch came back; `true` for success.
    Stored(bool),
    /// The subscription dropped.
    Dropped,
}

/// What the caller is to do next.
pub enum TipAction {
    /// Subscribe where that is not done, and report the next head.
    Listen,
    /// Fetch this block and report what came.
    Fetch(u32),
    /// Store this batch and report how the store ended.
    Store(BlockFetchedData),
    /// Wait for the resubscription delay, then wake the follower.
    Resubscribe,
    /// End the process with this exit code.
    Exit(i32),
    /// The event does not belong here; nothing changes.
    Wait,
}

/// The follower of new heads.
pub struct TipFollower {
    phase: TipPhase,
    number: u32,
    pending: Vec<u32>,
    dropped: bool,
}

/// A follower as contracts see it.
pub struct TipFollowerView {
    pub phase: TipPhase,
    /// The block of the head at hand.
    pub number: u32,
    /// The blocks that count as indexed once the batch at hand is stored.
    pub pending: Seq<u32>,
    /// Whether the subscription dropped while the batch at hand was
    /// being stored.
    pub dropped: bool,
}

impl View for TipFollower {
    type V = TipFollowerView;

    closed spec fn view(&self) -> TipFollowerView {
        TipFollowerView {
            phase: self.phase,
            number: self.number,
            pending: self.pending@,
            dropped: self.dropped,
        }
    }
}

/// The fetched block, where it is the one that was asked for.
pub open spec fn accepted_head(result: Option<FetchedBlock>, number: u32) -> Seq<
    Option<FetchedBlock>,
> {
    if result is Some && result->0.block.number == number {
        seq![result]
    } else {
        Seq::empty()
    }
}

/// One step of the follower: in the state `pre`, `event` is reported; the
/// follower goes to `post` and answers `answer`. A head is fetched and
/// what was fetched is stored. A drop of the subscription leads back to
/// subscribing, at once where nothing is being stored, and after the
/// store has come back where one is under way.
pub open spec fn tip_moves(
    pre: TipFollowerView,
    event: TipEvent,
    post: TipFollowerView,
    answer: TipAction,
) -> bool {
    match (pre.phase, event) {
        (TipPhase::Exited, _) => post == pre && answer is Wait,
        (TipPhase::Down, TipEvent::Wake) => {
            &&& post == (TipFollowerView { phase: TipPhase::Listening, ..pre })
            &&& answer is Listen
        },
        (TipPhase::Listening, TipEvent::Head(Some(number))) => {
            &&& post == (TipFollowerView { phase: TipPhase::Fetching, number, ..pre })
            &&& answer == TipAction::Fetch(number)
        },
        (TipPhase::Listening, TipEvent::Head(None)) => {
            &&& post == pre
            &&& answer is Listen
        },
        (TipPhase::Fetching, TipEvent::Fetched(result)) => {
            if accepted_head(result, pre.number).len() == 0 {
                &&& post == (TipFollowerView { phase: TipPhase::Listening, ..pre })
                &&& answer is Listen
            } else {
                &&& post.phase == TipPhase::Storing
                &&& post.number == pre.number
                &&& !post.dropped
                &&& answer matches TipAction::Store(batch)
                &&& is_batch_of(batch, fetched_of(accepted_head(result, pre.number)))
                &&& post.pending.to_set() == indexed_numbers(batch.blocks@)
            }
        },
        (TipPhase::Storing, TipEvent::Stored(ok)) => {
            if !ok {
                &&& post == (TipFollowerView { phase: TipPhase::Exited, ..pre })
                &&& answer == TipAction::Exit(1)
            } else if pre.dropped {
                &&& post == (TipFollowerView {
                    phase: TipPhase::Down,
                    pending: Seq::empty(),
                    dropped: false,
                    ..pre
                })
                &&& answer is Resubscribe
            } else {
                &&& post == (TipFollowerView {
                    phase: TipPhase::Listening,
                    pending: Seq::empty(),
                    ..pre
                })
                &&& answer is Listen
            }
        },
        (TipPhase::Storing, TipEvent::Dropped) => {
            &&& post == (TipFollowerView { dropped: true, ..pre })
            &&& answer is Wait
        },
        (_, TipEvent::Dropped) => {
            &&& post == (TipFollowerView {
                phase: TipPhase::Down,
                pending: Seq::empty(),
                ..pre
            })
            &&& answer is Resubscribe
        },
        _ => post == pre && answer is Wait,
    }
}

/// The blocks that are indexed after a step: those of the batch at hand
/// are added when its store is confirmed, and nothing changes otherwise.
pub open spec fn tip_indexes(pre: TipFollowerView, event: TipEvent, indexed: Set<u32>) -> Set<u32> {
    match (pre.phase, event) {
        (TipPhase::Storing, TipEvent::Stored(true)) => indexed.union(pre.pending.to_set()),
        _ => indexed,
    }
}

/// What is stored is indexed. While a batch is being stored, nothing but
/// the report of its store moves the follower or changes what is
/// pending, a drop of the subscription included; and the report of a
/// successful store indexes every pending block in that very step.
pub proof fn lemma_stored_head_is_indexed(
    pre: TipFollowerView,
    event: TipEvent,
    post: TipFollowerView,
    answer: TipAction,
    indexed: Set<u32>,
)
    requires
        pre.phase == TipPhase::Storing,
        tip_moves(pre, event, post, answer),
    ensures
        event !is Stored ==> post.phase == TipPhase::Storing && post.pending == pre.pending
            && tip_indexes(pre, event, indexed) == indexed,
        event == TipEvent::Stored(true) ==> forall|k: int|
            0 <= k < pre.pending.len() ==> tip_indexes(pre, event, indexed).contains(
                #[trigger] pre.pending[k],
            ),
        indexed.subset_of(tip_indexes(pre, event, indexed)),
{
    if event == TipEvent::Stored(true) {
        assert forall|k: int| 0 <= k < pre.pending.len() implies tip_indexes(
            pre,
            event,
            indexed,
        ).contains(#[trigger] pre.pending[k]) by {
            assert(pre.pending.to_set().contains(pre.pending[k]));
        }
    }
}

impl TipFollower {
    /// A follower that is not subscribed.
    pub fn new() -> (follower: TipFollower)
        ensures
            follower@ == (TipFollowerView {
                phase: TipPhase::Down,
                number: 0,
                pending: Seq::empty(),
                dropped: false,
            }),
    {
        TipFollower { phase: TipPhase::Down, number: 0, pending: Vec::new(), dropped: false }
    }

    /// Where the follower stands.
    pub fn phase(&self) -> (phase: TipPhase)
        ensures
            phase == self@.phase,
    {
        self.phase
    }

    /// Takes one event and answers what to do next.
    pub fn step(&mut self, tracker: &mut Tracker, event: TipEvent) -> (action: TipAction)
        ensures
            tip_moves(old(self)@, event, final(self)@, action),
            final(tracker)@ == tip_indexes(old(self)@, event, old(tracker)@),
    {
        if self.phase == TipPhase::Exited {
            return TipAction::Wait;
        }
        match event {
            TipEvent::Wake => {
                if self.phase == TipPhase::Down {
                    self.phase = TipPhase::Listening;
                    TipAction::Listen
                } else {
                    TipAction::Wait
                }
            },
            TipEvent::Head(head) => {
                if self.phase != TipPhase::Listening {
                    TipAction::Wait
                } else {
                    match head {
                        Some(number) => {
                            self.phase = TipPhase::Fetching;
                            self.number = number;
                            TipAction::Fetch(number)
                        },
                        None => TipAction::Listen,
                    }
                }
            },
            TipEvent::Fetched(result) => {
                if self.phase != TipPhase::Fetching {
                    TipAction::Wait
                } else {
                    let is_head = match &result {
                        Some(fetched) => fetched.block.number == self.number,
                        None => false,
                    };
                    if is_head {
                        let mut results: Vec<Option<FetchedBlock>> = Vec::new();
                        results.push(result);
                        assert(results@ == accepted_head(result, self.number));
                        let batch = build_batch(results);
                        self.pending = countable_numbers(&batch.blocks);
                        self.dropped = false;
                        self.phase = TipPhase::Storing;
                        TipAction::Store(batch)
                    } else {
                        self.phase = TipPhase::Listening;
                        TipAction::Listen
                    }
                }
            },
            TipEvent::Stored(ok) => {
                if self.phase != TipPhase::Storing {
                    TipAction::Wait
                } else if ok {
                    tracker.insert_all(&self.pending);
                    self.pending = Vec::new();
                    if self.dropped {
                        self.dropped = false;
                        self.phase = TipPhase::Down;
                        TipAction::Resubscribe
                    } else {
                        self.phase = TipPhase::Listening;
                        TipAction::Listen
                    }
                } else {
                    self.phase = TipPhase::Exited;
                    TipAction::Exit(1)
                }
            },
            TipEvent::Dropped => {
                if self.phase == TipPhase::Storing {
                    self.dropped = true;
                    TipAction::Wait
                } else {
                    self.pending = Vec::new();
                    self.phase = TipPhase::Down;
                    TipAction::Resubscribe
                }
            },
        }
    }
}

} // verus!
