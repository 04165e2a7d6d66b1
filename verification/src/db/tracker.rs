//! The set of indexed blocks.
//!
//! A block counts as indexed when the store holds its block row and the
//! row is not an uncle. The tracker mirrors that set in memory: it is
//! loaded from the store once and grows with every batch that is stored.
//! Nothing is ever taken out of it.

use crate::db::models::block::DatabaseBlock;
use std::collections::HashSet;
use vstd::prelude::*;
use vstd::std_specs::iter::IteratorSpec;

verus! {

broadcast use vstd::std_specs::hash::group_hash_axioms;

/// The numbers of the blocks of `blocks` that count as indexed once the
/// rows are written: those of the rows that are not uncles.
pub open spec fn indexed_numbers(blocks: Seq<DatabaseBlock>) -> Set<u32> {
    Set::new(
        |n: u32|
            exists|i: int|
                0 <= i < blocks.len() && (#[trigger] blocks[i]).number == n && !blocks[i].is_uncle,
    )
}

/// The numbers of the indexed blocks.
pub struct Tracker {
    indexed: HashSet<u32>,
}

impl View for Tracker {
    type V = Set<u32>;

    closed spec fn view(&self) -> Set<u32> {
        self.indexed@
    }
}

impl Tracker {
    /// A tracker that knows of no block.
    pub fn new() -> (tracker: Tracker)
        ensures
            tracker@ == Set::<u32>::empty(),
    {
        Tracker { indexed: HashSet::new() }
    }

    /// The tracker of the numbers that the store reported at startup. A
    /// store that could not answer reports none.
    pub fn load(numbers: &Vec<u32>) -> (tracker: Tracker)
        ensures
            tracker@ == numbers@.to_set(),
    {
        let mut indexed: HashSet<u32> = HashSet::new();
        let mut i: usize = 0;
        while i < numbers.len()
            invariant
                i <= numbers@.len(),
                indexed@ == numbers@.take(i as int).to_set(),
            decreases numbers@.len() - i,
        {
            indexed.insert(numbers[i]);
            proof {
                numbers@.take(i as int).lemma_push_to_set_commute(numbers@[i as int]);
                assert(numbers@.take(i + 1) == numbers@.take(i as int).push(numbers@[i as int]));
            }
            i += 1;
        }
        assert(numbers@.take(numbers@.len() as int) == numbers@);
        Tracker { indexed }
    }

    /// Whether block `n` is indexed.
    pub fn contains(&self, n: u32) -> (found: bool)
        ensures
            found == self@.contains(n),
    {
        self.indexed.contains(&n)
    }

    /// Marks block `n` as indexed.
    pub fn insert(&mut self, n: u32)
        ensures
            final(self)@ == old(self)@.insert(n),
    {
        self.indexed.insert(n);
    }

    /// Whether no block is indexed.
    pub fn is_empty(&self) -> (empty: bool)
        ensures
            empty == (self@ == Set::<u32>::empty()),
    {
        let empty = self.indexed.is_empty();
        assert(self@.is_empty() <==> self@ =~= Set::<u32>::empty());
        empty
    }

    /// How many blocks are indexed.
    pub fn len(&self) -> (n: usize)
        ensures
            n == self@.len(),
    {
        self.indexed.len()
    }

    /// A copy of the set as it is now.
    pub fn snapshot(&self) -> (copy: Tracker)
        ensures
            copy@ == self@,
    {
        let mut indexed: HashSet<u32> = HashSet::new();
        let ghost all = self.indexed.iter().remaining().unref();
        let ghost mut seen: Seq<u32> = Seq::empty();
        assert(all.take(0) == seen);
        for n in iter: self.indexed.iter()
            invariant
                iter.seq().unref() == all,
                all.to_set() == self.indexed@,
                seen == all.take(iter.index()),
                indexed@ == seen.to_set(),
        {
            let ghost before = seen;
            indexed.insert(*n);
            proof {
                seen = before.push(*n);
                before.lemma_push_to_set_commute(*n);
                assert(all.take(iter.index() + 1) == seen);
            }
        }
        assert(all.take(all.len() as int) == all);
        Tracker { indexed }
    }

    /// Marks every block of `numbers` as indexed.
    pub fn insert_all(&mut self, numbers: &Vec<u32>)
        ensures
            final(self)@ == old(self)@.union(numbers@.to_set()),
    {
        let mut i: usize = 0;
        while i < numbers.len()
            invariant
                i <= numbers@.len(),
                self@ == old(self)@.union(numbers@.take(i as int).to_set()),
            decreases numbers@.len() - i,
        {
            self.insert(numbers[i]);
            proof {
                numbers@.take(i as int).lemma_push_to_set_commute(numbers@[i as int]);
                assert(numbers@.take(i + 1) == numbers@.take(i as int).push(numbers@[i as int]));
            }
            i += 1;
        }
        assert(numbers@.take(numbers@.len() as int) == numbers@);
    }

    /// Marks the blocks of a stored batch as indexed. Uncles are left
    /// out: they are written, but they do not count.
    pub fn record(&mut self, blocks: &Vec<DatabaseBlock>)
        ensures
            final(self)@ == old(self)@.union(indexed_numbers(blocks@)),
    {
        let mut i: usize = 0;
        while i < blocks.len()
            invariant
                i <= blocks@.len(),
                self@ == old(self)@.union(indexed_numbers(blocks@.take(i as int))),
            decreases blocks@.len() - i,
        {
            let ghost before = self@;
            if !blocks[i].is_uncle {
                self.insert(blocks[i].number);
            }
            assert(self@ =~= old(self)@.union(indexed_numbers(blocks@.take(i + 1)))) by {
                let s0 = blocks@.take(i as int);
                let s1 = blocks@.take(i + 1);
                assert forall|n: u32|
                    indexed_numbers(s1).contains(n) <==> (indexed_numbers(s0).contains(n) || (
                    blocks@[i as int].number == n && !blocks@[i as int].is_uncle)) by {
                    if indexed_numbers(s1).contains(n) {
                        let k = choose|k: int|
                            0 <= k < s1.len() && (#[trigger] s1[k]).number == n && !s1[k].is_uncle;
                        if k < i {
                            assert(s0[k].number == n);
                        }
                    }
                    if indexed_numbers(s0).contains(n) {
                        let k = choose|k: int|
                            0 <= k < s0.len() && (#[trigger] s0[k]).number == n && !s0[k].is_uncle;
                        assert(s1[k].number == n);
                    }
                    if blocks@[i as int].number == n && !blocks@[i as int].is_uncle {
                        assert(s1[i as int].number == n);
                    }
                }
            }
            i += 1;
        }
        assert(blocks@.take(blocks@.len() as int) == blocks@);
    }
}

/// Block `n` has a row among the first `upto` of `blocks` that counts.
pub open spec fn counts_among(blocks: Seq<DatabaseBlock>, upto: int, n: u32) -> bool {
    exists|j: int| 0 <= j < upto && (#[trigger] blocks[j]).number == n && !blocks[j].is_uncle
}

/// The numbers of the blocks of `blocks` that count as indexed, in the
/// order of the blocks.
pub fn countable_numbers(blocks: &Vec<DatabaseBlock>) -> (numbers: Vec<u32>)
    ensures
        numbers@.to_set() == indexed_numbers(blocks@),
{
    let mut numbers: Vec<u32> = Vec::new();
    let mut i: usize = 0;
    while i < blocks.len()
        invariant
            i <= blocks@.len(),
            forall|n: u32| numbers@.contains(n) <==> counts_among(blocks@, i as int, n),
        decreases blocks@.len() - i,
    {
        let ghost before = numbers@;
        if !blocks[i].is_uncle {
            numbers.push(blocks[i].number);
        }
        assert forall|n: u32| numbers@.contains(n) <==> counts_among(blocks@, i + 1, n) by {
            if numbers@.contains(n) {
                let k = choose|k: int| 0 <= k < numbers@.len() && numbers@[k] == n;
                if k < before.len() {
                    assert(before[k] == n);
                    assert(before.contains(n));
                    let j = choose|j: int|
                        0 <= j < i && (#[trigger] blocks@[j]).number == n && !blocks@[j].is_uncle;
                    assert(blocks@[j].number == n);
                } else {
                    assert(blocks@[i as int].number == n);
                }
            }
            if counts_among(blocks@, i + 1, n) {
                let j = choose|j: int|
                    0 <= j < i + 1 && (#[trigger] blocks@[j]).number == n && !blocks@[j].is_uncle;
                if j < i {
                    assert(counts_among(blocks@, i as int, n));
                    assert(before.contains(n));
                    let k = choose|k: int| 0 <= k < before.len() && before[k] == n;
                    assert(numbers@[k] == n);
                } else {
                    assert(numbers@[before.len() as int] == n);
                }
            }
        }
        i += 1;
    }
    assert(numbers@.to_set() =~= indexed_numbers(blocks@)) by {
        assert forall|n: u32| numbers@.to_set().contains(n) <==> indexed_numbers(
            blocks@,
        ).contains(n) by {
            assert(counts_among(blocks@, blocks@.len() as int, n) <==> indexed_numbers(
                blocks@,
            ).contains(n));
        }
    }
    numbers
}

/// Uncles do not count. A block whose every row in a stored batch is an
/// uncle is indexed after the batch exactly if it was before.
pub proof fn lemma_uncles_do_not_count(indexed: Set<u32>, blocks: Seq<DatabaseBlock>, n: u32)
    requires
        forall|i: int|
            0 <= i < blocks.len() && (#[trigger] blocks[i]).number == n ==> blocks[i].is_uncle,
    ensures
        indexed.union(indexed_numbers(blocks)).contains(n) == indexed.contains(n),
{
}

/// The tracker only grows: what is indexed stays indexed when a batch is
/// recorded.
pub proof fn lemma_indexed_stays(indexed: Set<u32>, blocks: Seq<DatabaseBlock>, n: u32)
    requires
        indexed.contains(n),
    ensures
        indexed.union(indexed_numbers(blocks)).contains(n),
{
}

} // verus!
