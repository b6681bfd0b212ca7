//! Stable ordering by an integer key, as the pages use to list events by time.

use vstd::prelude::*;

verus! {

/// Entry `a` comes before entry `b`: a smaller key, or the same key and an
/// earlier position.
pub open spec fn comes_before(keys: Seq<i64>, a: int, b: int) -> bool {
    keys[a] < keys[b] || (keys[a] == keys[b] && a < b)
}

/// `order` lists each position of `keys` once, ordered by key and, within a
/// key, by position: the order of a stable sort by key.
pub open spec fn is_stable_order(keys: Seq<i64>, order: Seq<usize>) -> bool {
    &&& order.len() == keys.len()
    &&& forall|i: int| 0 <= i < order.len() ==> #[trigger] order[i] < keys.len()
    &&& forall|i: int, j: int| 0 <= i < j < order.len() ==> comes_before(keys, #[trigger] order[i] as int, #[trigger] order[j] as int)
}

/// The positions of `keys` in the order of a stable sort by key.
pub fn stable_order(keys: &Vec<i64>) -> (order: Vec<usize>)
    ensures
        is_stable_order(keys@, order@),
{
    let mut order: Vec<usize> = Vec::new();
    let mut n: usize = 0;
    while n < keys.len()
        invariant
            n <= keys@.len(),
            order@.len() == n,
            forall|i: int| 0 <= i < order@.len() ==> #[trigger] order@[i] < n,
            forall|i: int, j: int|
                0 <= i < j < order@.len() ==> comes_before(keys@, #[trigger] order@[i] as int, #[trigger] order@[j] as int),
        decreases keys.len() - n,
    {
        let key = keys[n];
        let mut j: usize = 0;
        while j < order.len() && keys[order[j]] <= key
            invariant
                n < keys@.len(),
                key == keys@[n as int],
                j <= order@.len(),
                forall|i: int| 0 <= i < order@.len() ==> #[trigger] order@[i] < n,
                forall|i: int| 0 <= i < j ==> keys@[#[trigger] order@[i] as int] <= key,
            decreases order.len() - j,
        {
            j = j + 1;
        }
        let ghost before = order@;
        order.insert(j, n);
        proof {
            assert forall|i: int, k: int|
                0 <= i < k < order@.len() implies comes_before(keys@, #[trigger] order@[i] as int, #[trigger] order@[k] as int) by {
                if k < j {
                    assert(order@[i] == before[i] && order@[k] == before[k]);
                } else if k == j {
                    assert(order@[i] == before[i]);
                } else if i == j {
                    assert(order@[k] == before[k - 1]);
                    assert(j < before.len());
                    assert(keys@[before[j as int] as int] > key);
                    if k - 1 > j {
                        assert(comes_before(keys@, before[j as int] as int, before[k - 1] as int));
                    }
                } else if i < j {
                    assert(order@[i] == before[i] && order@[k] == before[k - 1]);
                } else {
                    assert(order@[i] == before[i - 1] && order@[k] == before[k - 1]);
                }
            }
        }
        n = n + 1;
    }
    order
}

} // verus!
