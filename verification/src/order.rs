//! The stable ascending order of a sequence of keys.
//!
//! The order of `keys` is the one arrangement of the indices `0..keys.len()`
//! in which keys ascend and equal keys keep the order of their indices.

use vstd::prelude::*;

verus! {

/// Whether index `a` comes before index `b` in the order: by key, and for
/// equal keys by index.
pub open spec fn comes_before(keys: Seq<u64>, a: int, b: int) -> bool {
    keys[a] < keys[b] || (keys[a] == keys[b] && a < b)
}

/// Whether `order` arranges exactly the first `n` indices of `keys`, each
/// once, so that every index comes before the ones that follow it.
pub open spec fn arranges(keys: Seq<u64>, n: int, order: Seq<int>) -> bool {
    &&& order.len() == n
    &&& forall|i: int| 0 <= i < order.len() ==> 0 <= #[trigger] order[i] < n
    &&& forall|i: int, j: int|
        0 <= i < j < order.len() ==> comes_before(keys, #[trigger] order[i], #[trigger] order[j])
    &&& forall|k: int| 0 <= k < n ==> #[trigger] order.contains(k)
}

/// Whether `order` is the stable ascending order of `keys`.
pub open spec fn is_stable_order(keys: Seq<u64>, order: Seq<int>) -> bool {
    arranges(keys, keys.len() as int, order)
}

/// Where index `k` goes into `order`: behind the last index whose key is not
/// greater than the key of `k`.
pub open spec fn insert_at(keys: Seq<u64>, order: Seq<int>, k: int) -> int
    decreases order.len(),
{
    if order.len() == 0 {
        0
    } else if keys[order.last()] <= keys[k] {
        order.len() as int
    } else {
        insert_at(keys, order.drop_last(), k)
    }
}

/// The stable ascending order of the first `n` indices of `keys`.
pub open spec fn stable_order_upto(keys: Seq<u64>, n: nat) -> Seq<int>
    decreases n,
{
    if n == 0 {
        Seq::empty()
    } else {
        let before = stable_order_upto(keys, (n - 1) as nat);
        before.insert(insert_at(keys, before, n - 1), n - 1)
    }
}

/// The stable ascending order of `keys`.
pub open spec fn stable_order(keys: Seq<u64>) -> Seq<int> {
    stable_order_upto(keys, keys.len())
}

/// The indices held by a vector, as integers.
pub open spec fn indices(v: Seq<usize>) -> Seq<int> {
    v.map_values(|i: usize| i as int)
}

/// The place that `insert_at` gives: all indices behind it have a greater
/// key, and the one just before it does not.
pub proof fn lemma_insert_at(keys: Seq<u64>, order: Seq<int>, k: int)
    ensures
        0 <= insert_at(keys, order, k) <= order.len(),
        forall|i: int|
            insert_at(keys, order, k) <= i < order.len() ==> keys[#[trigger] order[i]] > keys[k],
        insert_at(keys, order, k) > 0 ==> keys[order[insert_at(keys, order, k) - 1]] <= keys[k],
    decreases order.len(),
{
    if order.len() != 0 && keys[order.last()] > keys[k] {
        lemma_insert_at(keys, order.drop_last(), k);
        let p = insert_at(keys, order.drop_last(), k);
        assert forall|i: int| p <= i < order.len() implies keys[#[trigger] order[i]] > keys[k] by {
            if i < order.len() - 1 {
                assert(order.drop_last()[i] == order[i]);
            }
        }
        if p > 0 {
            assert(order.drop_last()[p - 1] == order[p - 1]);
        }
    }
}

/// The order defined by insertion arranges the first `n` indices.
pub proof fn lemma_stable_order_upto(keys: Seq<u64>, n: nat)
    requires
        n <= keys.len(),
    ensures
        arranges(keys, n as int, stable_order_upto(keys, n)),
    decreases n,
{
    if n > 0 {
        let k = n - 1;
        let before = stable_order_upto(keys, k as nat);
        lemma_stable_order_upto(keys, k as nat);
        lemma_insert_at(keys, before, k);
        let p = insert_at(keys, before, k);
        let after = before.insert(p, k);
        assert forall|i: int| 0 <= i < p implies comes_before(keys, #[trigger] before[i], k) by {
            if i < p - 1 {
                assert(comes_before(keys, before[i], before[p - 1]));
            }
        }
        assert forall|i: int, j: int| 0 <= i < j < after.len() implies comes_before(
            keys,
            #[trigger] after[i],
            #[trigger] after[j],
        ) by {
            if j < p {
                assert(comes_before(keys, before[i], before[j]));
            } else if j == p {
            } else if i < p {
                assert(comes_before(keys, before[i], before[j - 1]));
            } else if i == p {
                assert(keys[before[j - 1]] > keys[k]);
            } else {
                assert(comes_before(keys, before[i - 1], before[j - 1]));
            }
        }
        assert forall|x: int| 0 <= x < n implies #[trigger] after.contains(x) by {
            if x == k {
                assert(after[p] == k);
            } else {
                assert(before.contains(x));
                let i = choose|i: int| 0 <= i < before.len() && before[i] == x;
                if i < p {
                    assert(after[i] == x);
                } else {
                    assert(after[i + 1] == x);
                }
            }
        }
    }
}

/// The stable order is an arrangement of all indices in which keys ascend
/// and equal keys keep the order of their indices.
pub proof fn lemma_stable_order(keys: Seq<u64>)
    ensures
        is_stable_order(keys, stable_order(keys)),
{
    lemma_stable_order_upto(keys, keys.len());
}

/// Two arrangements of the same keys agree on their first `upto` places.
proof fn lemma_arrangements_agree(keys: Seq<u64>, a: Seq<int>, b: Seq<int>, upto: int)
    requires
        is_stable_order(keys, a),
        is_stable_order(keys, b),
        0 <= upto <= keys.len(),
    ensures
        forall|i: int| 0 <= i < upto ==> a[i] == b[i],
    decreases upto,
{
    if upto > 0 {
        lemma_arrangements_agree(keys, a, b, upto - 1);
        let i = upto - 1;
        let x = a[i];
        let y = b[i];
        if x != y {
            assert(b.contains(x));
            let p = choose|p: int| 0 <= p < b.len() && b[p] == x;
            assert(a.contains(y));
            let q = choose|q: int| 0 <= q < a.len() && a[q] == y;
            if p < i {
                assert(comes_before(keys, a[p], a[i]));
            }
            if q < i {
                assert(comes_before(keys, b[q], b[i]));
            }
            assert(comes_before(keys, b[i], b[p]));
            assert(comes_before(keys, a[i], a[q]));
        }
    }
}

/// Only one arrangement is stable and ascending: the stable order.
pub proof fn lemma_stable_order_unique(keys: Seq<u64>, order: Seq<int>)
    requires
        is_stable_order(keys, order),
    ensures
        order == stable_order(keys),
{
    lemma_stable_order(keys);
    lemma_arrangements_agree(keys, order, stable_order(keys), keys.len() as int);
    assert(order =~= stable_order(keys));
}

/// Keys that never descend are already in order.
pub proof fn lemma_ascending_keys_stay(keys: Seq<u64>)
    requires
        forall|i: int, j: int| 0 <= i < j < keys.len() ==> keys[i] <= keys[j],
    ensures
        stable_order(keys) == Seq::new(keys.len(), |i: int| i),
{
    let id = Seq::new(keys.len(), |i: int| i);
    assert forall|k: int| 0 <= k < keys.len() implies #[trigger] id.contains(k) by {
        assert(id[k] == k);
    }
    lemma_stable_order_unique(keys, id);
}

/// Where index `k` goes into `order`, found by scanning `order` from its end.
fn place_for(keys: &Vec<u64>, order: &Vec<usize>, k: usize) -> (p: usize)
    requires
        k < keys.len(),
        forall|i: int| 0 <= i < order.len() ==> order@[i] < keys.len(),
    ensures
        p as int == insert_at(keys@, indices(order@), k as int),
{
    let mut p: usize = order.len();
    proof {
        assert(indices(order@).take(p as int) =~= indices(order@));
    }
    while p > 0 && keys[order[p - 1]] > keys[k]
        invariant
            p <= order.len(),
            k < keys.len(),
            forall|i: int| 0 <= i < order.len() ==> order@[i] < keys.len(),
            insert_at(keys@, indices(order@), k as int) == insert_at(
                keys@,
                indices(order@).take(p as int),
                k as int,
            ),
        decreases p,
    {
        proof {
            let cur = indices(order@).take(p as int);
            assert(cur.last() == order@[p - 1] as int);
            assert(cur.drop_last() =~= indices(order@).take(p - 1));
        }
        p = p - 1;
    }
    proof {
        let cur = indices(order@).take(p as int);
        if p > 0 {
            assert(cur.last() == order@[p - 1] as int);
        }
    }
    p
}

/// The stable ascending order of `keys`: the indices `0..keys.len()`
/// arranged so that keys ascend and equal keys keep the order of their
/// indices.
pub fn sort_order(keys: &Vec<u64>) -> (order: Vec<usize>)
    ensures
        indices(order@) == stable_order(keys@),
        order.len() == keys.len(),
        forall|i: int| 0 <= i < order.len() ==> order@[i] < keys.len(),
{
    let mut order: Vec<usize> = Vec::new();
    let mut k: usize = 0;
    while k < keys.len()
        invariant
            k <= keys.len(),
            order.len() == k,
            indices(order@) == stable_order_upto(keys@, k as nat),
            forall|i: int| 0 <= i < order.len() ==> order@[i] < k,
        decreases keys.len() - k,
    {
        let p = place_for(keys, &order, k);
        let ghost before = order@;
        proof {
            lemma_insert_at(keys@, indices(before), k as int);
        }
        order.insert(p, k);
        proof {
            assert(indices(order@) =~= indices(before).insert(p as int, k as int));
            assert forall|i: int| 0 <= i < order.len() implies order@[i] < k + 1 by {
                if i < p {
                    assert(order@[i] == before[i]);
                } else if i > p {
                    assert(order@[i] == before[i - 1]);
                }
            }
        }
        k = k + 1;
    }
    proof {
        assert(indices(order@).take(order.len() as int) =~= indices(order@));
    }
    order
}

} // verus!

verus! {

/// The items of `s` in the arrangement `order`.
pub open spec fn arranged<T>(s: Seq<T>, order: Seq<int>) -> Seq<T> {
    Seq::new(order.len(), |i: int| s[order[i]])
}

} // verus!
