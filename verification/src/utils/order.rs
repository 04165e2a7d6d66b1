//! Stable ascending order of keyed items.

use vstd::prelude::*;

verus! {

/// Where a new key goes among positions that are already in order: behind
/// the last position whose key is not greater.
pub open spec fn insert_position(keys: Seq<u32>, order: Seq<int>, key: u32) -> int
    decreases order.len(),
{
    if order.len() == 0 {
        0
    } else if keys[order.last()] <= key {
        order.len() as int
    } else {
        insert_position(keys, order.drop_last(), key)
    }
}

/// The positions `0..n` of `keys`, arranged so that their keys ascend;
/// positions with equal keys keep their order.
pub open spec fn stable_order_upto(keys: Seq<u32>, n: int) -> Seq<int>
    decreases n,
{
    if n <= 0 {
        Seq::empty()
    } else {
        let before = stable_order_upto(keys, n - 1);
        before.insert(insert_position(keys, before, keys[n - 1]), n - 1)
    }
}

/// The positions of `keys`, arranged so that their keys ascend; positions
/// with equal keys keep their order.
pub open spec fn stable_order(keys: Seq<u32>) -> Seq<int> {
    stable_order_upto(keys, keys.len() as int)
}

/// `order` names positions of `keys` below `n`, each at most once, with
/// ascending keys, and with equal keys in the order of their positions.
pub open spec fn is_stable_order(keys: Seq<u32>, order: Seq<int>, n: int) -> bool {
    &&& forall|a: int| 0 <= a < order.len() ==> 0 <= #[trigger] order[a] < n
    &&& forall|a: int, b: int|
        0 <= a < b < order.len() ==> {
            &&& keys[#[trigger] order[a]] <= keys[#[trigger] order[b]]
            &&& keys[order[a]] == keys[order[b]] ==> order[a] < order[b]
        }
}

/// The insert position lies within the order; all before it have keys
/// that are not greater, all from it on have greater keys.
pub proof fn lemma_insert_position(keys: Seq<u32>, order: Seq<int>, key: u32)
    requires
        forall|a: int, b: int|
            0 <= a < b < order.len() ==> keys[#[trigger] order[a]] <= keys[#[trigger] order[b]],
    ensures
        0 <= insert_position(keys, order, key) <= order.len(),
        forall|a: int|
            0 <= a < insert_position(keys, order, key) ==> keys[#[trigger] order[a]] <= key,
        forall|a: int|
            insert_position(keys, order, key) <= a < order.len() ==> keys[#[trigger] order[a]]
                > key,
    decreases order.len(),
{
    if order.len() > 0 && keys[order.last()] > key {
        let shorter = order.drop_last();
        assert forall|a: int, b: int| 0 <= a < b < shorter.len() implies keys[#[trigger] shorter[a]]
            <= keys[#[trigger] shorter[b]] by {
            assert(shorter[a] == order[a] && shorter[b] == order[b]);
        }
        lemma_insert_position(keys, shorter, key);
        let p = insert_position(keys, shorter, key);
        assert forall|a: int| 0 <= a < p implies keys[#[trigger] order[a]] <= key by {
            assert(shorter[a] == order[a]);
        }
        assert forall|a: int| p <= a < order.len() implies keys[#[trigger] order[a]] > key by {
            if a < shorter.len() {
                assert(shorter[a] == order[a]);
            }
        }
    } else if order.len() > 0 {
        assert forall|a: int| 0 <= a < order.len() implies keys[#[trigger] order[a]] <= key by {
            if a < order.len() - 1 {
                assert(keys[order[a]] <= keys[order[order.len() - 1]]);
            }
        }
    }
}

/// The stable order of the first `n` positions holds each of them once,
/// has ascending keys, and keeps equal keys in place.
pub proof fn lemma_stable_order(keys: Seq<u32>, n: int)
    requires
        0 <= n <= keys.len(),
    ensures
        stable_order_upto(keys, n).len() == n,
        is_stable_order(keys, stable_order_upto(keys, n), n),
        forall|i: int| 0 <= i < n ==> stable_order_upto(keys, n).contains(i),
    decreases n,
{
    if n > 0 {
        lemma_stable_order(keys, n - 1);
        let before = stable_order_upto(keys, n - 1);
        let key = keys[n - 1];
        lemma_insert_position(keys, before, key);
        let p = insert_position(keys, before, key);
        let after = before.insert(p, n - 1);
        assert(after == stable_order_upto(keys, n));
        assert forall|i: int| 0 <= i < n implies after.contains(i) by {
            if i == n - 1 {
                assert(after[p] == i);
            } else {
                assert(before.contains(i));
                let a = choose|a: int| 0 <= a < before.len() && before[a] == i;
                if a < p {
                    assert(after[a] == i);
                } else {
                    assert(after[a + 1] == i);
                }
            }
        }
        assert forall|a: int, b: int| 0 <= a < b < after.len() implies {
            &&& keys[#[trigger] after[a]] <= keys[#[trigger] after[b]]
            &&& keys[after[a]] == keys[after[b]] ==> after[a] < after[b]
        } by {
            let ia = if a < p {
                a
            } else {
                a - 1
            };
            let ib = if b < p {
                b
            } else {
                b - 1
            };
            if a != p {
                assert(after[a] == before[ia]);
            }
            if b != p {
                assert(after[b] == before[ib]);
            }
        }
    }
}

/// The positions of `keys` in stable ascending order.
pub fn stable_ascending_order(keys: &Vec<u32>) -> (order: Vec<usize>)
    ensures
        order@.len() == keys@.len(),
        order@.map_values(|p: usize| p as int) == stable_order(keys@),
        forall|a: int| 0 <= a < order@.len() ==> #[trigger] order@[a] < keys@.len(),
{
    let mut order: Vec<usize> = Vec::new();
    let mut i: usize = 0;
    while i < keys.len()
        invariant
            i <= keys@.len(),
            order@.len() == i,
            order@.map_values(|p: usize| p as int) == stable_order_upto(keys@, i as int),
            forall|a: int| 0 <= a < order@.len() ==> #[trigger] order@[a] < i,
        decreases keys@.len() - i,
    {
        let key = keys[i];
        let ghost before = order@.map_values(|p: usize| p as int);
        proof {
            lemma_stable_order(keys@, i as int);
        }
        let mut p: usize = order.len();
        assert(before.take(p as int) == before);
        while p > 0 && keys[order[p - 1]] > key
            invariant
                p <= order@.len(),
                order@.len() == i,
                i < keys@.len(),
                key == keys@[i as int],
                before == order@.map_values(|p: usize| p as int),
                forall|a: int| 0 <= a < order@.len() ==> #[trigger] order@[a] < i,
                insert_position(keys@, before, key) == insert_position(
                    keys@,
                    before.take(p as int),
                    key,
                ),
            decreases p,
        {
            assert(before.take(p as int).drop_last() == before.take(p - 1));
            assert(before.take(p as int).last() == order@[p - 1] as int);
            p -= 1;
        }
        proof {
            let prefix = before.take(p as int);
            if p > 0 {
                assert(prefix.last() == order@[p - 1] as int);
            }
            assert(insert_position(keys@, prefix, key) == p);
        }
        order.insert(p, i);
        assert(order@.map_values(|p: usize| p as int) =~= before.insert(p as int, i as int));
        i += 1;
    }
    order
}

} // verus!
