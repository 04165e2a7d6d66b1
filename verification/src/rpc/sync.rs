//! The reconciliation plan: which blocks are missing and in which chunks
//! they are fetched.

use crate::db::tracker::Tracker;
use vstd::prelude::*;

verus! {

/// The block before which a pass stops: the configured end where the
/// backfill is bounded, held to the 32 bits of a block number; the node's
/// tip where it is not.
pub open spec fn target_of(end_block: i64, tip: u32) -> u32 {
    if end_block <= 0 {
        tip
    } else if end_block > u32::MAX {
        u32::MAX
    } else {
        end_block as u32
    }
}

/// The block before which a pass stops.
pub fn target_block(end_block: i64, tip: u32) -> (last: u32)
    ensures
        last == target_of(end_block, tip),
{
    if end_block <= 0 {
        tip
    } else if end_block > u32::MAX as i64 {
        u32::MAX
    } else {
        end_block as u32
    }
}

/// The blocks from `start` up to, not including, `last` that are not in
/// `indexed`, in ascending order.
pub open spec fn missing(start: u32, last: u32, indexed: Set<u32>) -> Seq<u32>
    decreases last,
{
    if last <= start {
        Seq::empty()
    } else {
        let n = (last - 1) as u32;
        if indexed.contains(n) {
            missing(start, n, indexed)
        } else {
            missing(start, n, indexed).push(n)
        }
    }
}

/// A block is missing exactly if it lies in the range and is not
/// indexed; and the missing blocks ascend strictly, so none is listed
/// twice.
pub proof fn lemma_missing(start: u32, last: u32, indexed: Set<u32>)
    ensures
        forall|n: u32|
            missing(start, last, indexed).contains(n) <==> (start <= n < last && !indexed.contains(
                n,
            )),
        forall|i: int, j: int|
            0 <= i < j < missing(start, last, indexed).len() ==> missing(start, last, indexed)[i]
                < missing(start, last, indexed)[j],
        forall|i: int|
            0 <= i < missing(start, last, indexed).len() ==> start <= #[trigger] missing(
                start,
                last,
                indexed,
            )[i] < last,
    decreases last,
{
    if last > start {
        let n = (last - 1) as u32;
        let before = missing(start, n, indexed);
        let all = missing(start, last, indexed);
        lemma_missing(start, n, indexed);
        assert forall|m: u32| all.contains(m) <==> (start <= m < last && !indexed.contains(
            m,
        )) by {
            if all.contains(m) {
                let k = choose|k: int| 0 <= k < all.len() && all[k] == m;
                if k < before.len() {
                    assert(before[k] == m);
                    assert(before.contains(m));
                }
            }
            if start <= m < last && !indexed.contains(m) {
                if m == n {
                    assert(all[before.len() as int] == m);
                } else {
                    assert(before.contains(m));
                    let k = choose|k: int| 0 <= k < before.len() && before[k] == m;
                    assert(all[k] == m);
                }
            }
        }
    }
}

/// The missing blocks of a pass.
pub fn missing_blocks(start: u32, last: u32, tracker: &Tracker) -> (blocks: Vec<u32>)
    ensures
        blocks@ == missing(start, last, tracker@),
{
    let mut blocks: Vec<u32> = Vec::new();
    if last <= start {
        return blocks;
    }
    let mut n: u32 = start;
    assert(missing(start, start, tracker@) == Seq::<u32>::empty());
    while n < last
        invariant
            start <= n <= last,
            blocks@ == missing(start, n, tracker@),
        decreases last - n,
    {
        if !tracker.contains(n) {
            blocks.push(n);
        }
        n += 1;
    }
    blocks
}

/// The chunk that starts at `from`: the next `size` items, or as many as
/// are left.
pub open spec fn chunk_at(items: Seq<u32>, from: int, size: int) -> Seq<u32> {
    if from + size <= items.len() {
        items.subrange(from, from + size)
    } else {
        items.subrange(from, items.len() as int)
    }
}

/// The chunks of `items` from `from` on, each of `size` items but the
/// last, which holds what is left.
pub open spec fn chunks_from(items: Seq<u32>, from: int, size: int) -> Seq<Seq<u32>>
    decreases items.len() - from,
{
    if from < 0 || from >= items.len() || size <= 0 {
        Seq::empty()
    } else if from + size >= items.len() {
        seq![chunk_at(items, from, size)]
    } else {
        seq![chunk_at(items, from, size)] + chunks_from(items, from + size, size)
    }
}

/// The chunks of `items`.
pub open spec fn chunks_of(items: Seq<u32>, size: int) -> Seq<Seq<u32>> {
    chunks_from(items, 0, size)
}

/// All chunks one after the other.
pub open spec fn joined(chunks: Seq<Seq<u32>>) -> Seq<u32>
    decreases chunks.len(),
{
    if chunks.len() == 0 {
        Seq::empty()
    } else {
        chunks.first() + joined(chunks.drop_first())
    }
}

/// Chunking loses nothing and reorders nothing: the chunks from `from`
/// on, one after the other, are the items from `from` on; and no chunk
/// is empty or longer than `size`.
pub proof fn lemma_chunks_cover(items: Seq<u32>, from: int, size: int)
    requires
        0 <= from <= items.len(),
        size > 0,
    ensures
        joined(chunks_from(items, from, size)) == items.skip(from),
        forall|k: int|
            0 <= k < chunks_from(items, from, size).len() ==> 0 < (#[trigger] chunks_from(
                items,
                from,
                size,
            )[k]).len() <= size,
    decreases items.len() - from,
{
    let chunks = chunks_from(items, from, size);
    if from >= items.len() {
        assert(items.skip(from) =~= Seq::<u32>::empty());
    } else {
        let first = chunk_at(items, from, size);
        let next = if from + size <= items.len() {
            from + size
        } else {
            items.len() as int
        };
        let rest = if from + size >= items.len() {
            Seq::<Seq<u32>>::empty()
        } else {
            chunks_from(items, from + size, size)
        };
        assert(chunks.first() == first);
        assert(chunks.drop_first() == rest);
        if from + size < items.len() {
            lemma_chunks_cover(items, from + size, size);
            assert(first + items.skip(from + size) == items.skip(from));
        } else {
            assert(joined(rest) == Seq::<u32>::empty());
            assert(first + Seq::<u32>::empty() == items.skip(from));
        }
        assert forall|k: int| 0 <= k < chunks.len() implies 0 < (#[trigger] chunks[k]).len()
            <= size by {
            if k > 0 {
                assert(chunks[k] == rest[k - 1]);
            }
        }
    }
}

/// With a batch size of one, every block is a chunk of its own.
pub proof fn lemma_chunks_of_one(items: Seq<u32>, from: int)
    requires
        0 <= from <= items.len(),
    ensures
        chunks_from(items, from, 1).len() == items.len() - from,
        forall|k: int|
            0 <= k < items.len() - from ==> #[trigger] chunks_from(items, from, 1)[k] == seq![
                items[from + k],
            ],
    decreases items.len() - from,
{
    if from < items.len() {
        lemma_chunks_of_one(items, from + 1);
        let chunks = chunks_from(items, from, 1);
        let rest = chunks_from(items, from + 1, 1);
        assert(from + 1 >= items.len() ==> rest.len() == 0);
        assert(chunk_at(items, from, 1) == seq![items[from]]);
        assert forall|k: int| 0 <= k < items.len() - from implies #[trigger] chunks[k] == seq![
            items[from + k],
        ] by {
            if k > 0 {
                assert(chunks[k] == rest[k - 1]);
            }
        }
    }
}

/// The chunk of `items` that starts at `from`.
pub fn chunk(items: &Vec<u32>, from: usize, size: usize) -> (part: Vec<u32>)
    requires
        from <= items@.len(),
    ensures
        part@ == chunk_at(items@, from as int, size as int),
{
    let end = if size <= items.len() - from {
        from + size
    } else {
        items.len()
    };
    let mut part: Vec<u32> = Vec::new();
    let mut i: usize = from;
    while i < end
        invariant
            from <= i <= end <= items@.len(),
            part@ == items@.subrange(from as int, i as int),
        decreases end - i,
    {
        part.push(items[i]);
        assert(part@ == items@.subrange(from as int, i + 1));
        i += 1;
    }
    part
}

/// The chunks of `items`, each of `size` items but the last.
pub fn chunks(items: &Vec<u32>, size: usize) -> (parts: Vec<Vec<u32>>)
    requires
        size > 0,
    ensures
        parts@.len() == chunks_of(items@, size as int).len(),
        forall|k: int|
            0 <= k < parts@.len() ==> (#[trigger] parts@[k])@ == chunks_of(items@, size as int)[k],
{
    let mut parts: Vec<Vec<u32>> = Vec::new();
    let mut from: usize = 0;
    let ghost all = chunks_of(items@, size as int);
    while from < items.len()
        invariant
            from <= items@.len(),
            size > 0,
            all == chunks_of(items@, size as int),
            parts@.len() + chunks_from(items@, from as int, size as int).len() == all.len(),
            forall|k: int| 0 <= k < parts@.len() ==> (#[trigger] parts@[k])@ == all[k],
            forall|k: int|
                0 <= k < chunks_from(items@, from as int, size as int).len() ==> all[parts@.len()
                    + k] == #[trigger] chunks_from(items@, from as int, size as int)[k],
        decreases items@.len() - from,
    {
        let ghost here = chunks_from(items@, from as int, size as int);
        let ghost rest = chunks_from(items@, from + size, size as int);
        assert(from + size >= items@.len() ==> rest.len() == 0);
        let part = chunk(items, from, size);
        assert(here[0] == part@);
        assert(all[parts@.len() as int] == here[0]);
        assert forall|k: int| 0 <= k < rest.len() implies all[parts@.len() + 1 + k]
            == #[trigger] rest[k] by {
            assert(here[k + 1] == rest[k]);
        }
        parts.push(part);
        if size <= items.len() - from {
            from = from + size;
        } else {
            from = items.len();
        }
    }
    parts
}

} // verus!
