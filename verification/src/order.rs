//! Newest-first ordering of dated records.
//!
//! Records are listed newest first; records that carry the same instant keep
//! the order in which they were stored. The order is computed on the
//! instants alone, as a sequence of positions into the stored sequence.

use crate::time::Timestamp;
use vstd::prelude::*;

verus! {

/// How many leading entries of `order` stay ahead of a new record dated `t`:
/// all up to the last one whose record is not older than `t`.
pub open spec fn ahead_count(keys: Seq<Timestamp>, order: Seq<int>, t: Timestamp) -> int
    decreases order.len(),
{
    if order.len() == 0 {
        0
    } else if keys[order.last()].is_before(t) {
        ahead_count(keys, order.drop_last(), t)
    } else {
        order.len() as int
    }
}

/// The positions `0 .. keys.len()` listed newest first: position `i` stands
/// ahead of position `j` when `keys[i]` is later than `keys[j]`, or when the
/// two instants are equal and `i < j`.
pub open spec fn newest_first_order(keys: Seq<Timestamp>) -> Seq<int>
    decreases keys.len(),
{
    if keys.len() == 0 {
        Seq::empty()
    } else {
        let earlier = newest_first_order(keys.drop_last());
        let k = keys.len() - 1;
        earlier.insert(ahead_count(keys, earlier, keys[k]), k)
    }
}

/// `items` rearranged so that the record at position `order[a]` comes `a`-th.
pub open spec fn reorder<A>(items: Seq<A>, order: Seq<int>) -> Seq<A> {
    Seq::new(order.len(), |a: int| items[order[a]])
}

/// Position `i` stands ahead of position `j` in newest-first order.
pub open spec fn stands_ahead(keys: Seq<Timestamp>, i: int, j: int) -> bool {
    keys[j].is_before(keys[i]) || (keys[i] == keys[j] && i < j)
}

/// `order` lists each position of `keys` once, every entry ahead of all the
/// entries behind it.
pub open spec fn is_newest_first(keys: Seq<Timestamp>, order: Seq<int>) -> bool {
    &&& order.len() == keys.len()
    &&& forall|a: int| 0 <= a < order.len() ==> 0 <= #[trigger] order[a] < keys.len()
    &&& forall|a: int, b: int|
        0 <= a < b < order.len() ==> stands_ahead(keys, #[trigger] order[a], #[trigger] order[b])
    &&& forall|i: int| 0 <= i < keys.len() ==> order.contains(i)
}

proof fn lemma_ahead_count(keys: Seq<Timestamp>, order: Seq<int>, t: Timestamp)
    ensures
        0 <= ahead_count(keys, order, t) <= order.len(),
        forall|a: int|
            ahead_count(keys, order, t) <= a < order.len() ==> keys[#[trigger] order[a]].is_before(
                t,
            ),
        ahead_count(keys, order, t) > 0 ==> !keys[order[ahead_count(keys, order, t) - 1]].is_before(
            t,
        ),
    decreases order.len(),
{
    if order.len() > 0 && keys[order.last()].is_before(t) {
        let shorter = order.drop_last();
        lemma_ahead_count(keys, shorter, t);
        assert forall|a: int|
            ahead_count(keys, order, t) <= a < order.len() implies keys[#[trigger] order[a]].is_before(
            t,
        ) by {
            if a < shorter.len() {
                assert(shorter[a] == order[a]);
            }
        }
    }
}

/// The newest-first order lists every position exactly once, later instants
/// first and equal instants in stored order.
pub proof fn lemma_newest_first_order(keys: Seq<Timestamp>)
    ensures
        is_newest_first(keys, newest_first_order(keys)),
    decreases keys.len(),
{
    if keys.len() > 0 {
        let shorter = keys.drop_last();
        let earlier = newest_first_order(shorter);
        let k = keys.len() - 1;
        let p = ahead_count(keys, earlier, keys[k]);
        let order = newest_first_order(keys);
        lemma_newest_first_order(shorter);
        lemma_ahead_count(keys, earlier, keys[k]);
        assert forall|a: int| 0 <= a < earlier.len() implies keys[#[trigger] earlier[a]]
            == shorter[earlier[a]] by {}
        assert forall|a: int, b: int| 0 <= a < b < order.len() implies stands_ahead(
            keys,
            #[trigger] order[a],
            #[trigger] order[b],
        ) by {
            if b == p {
                // entry a comes from `earlier`; it is not older than the new record
                if p > 0 {
                    if a < p - 1 {
                        assert(stands_ahead(shorter, earlier[a], earlier[p - 1]));
                    }
                }
            } else if a == p {
                assert(order[b] == earlier[b - 1]);
            } else {
                let a0 = if a < p { a } else { a - 1 };
                let b0 = if b < p { b } else { b - 1 };
                assert(stands_ahead(shorter, earlier[a0], earlier[b0]));
            }
        }
        assert forall|i: int| 0 <= i < keys.len() implies order.contains(i) by {
            if i == k {
                assert(order[p] == k);
            } else {
                assert(earlier.contains(i));
                let a0 = choose|a0: int| 0 <= a0 < earlier.len() && earlier[a0] == i;
                if a0 < p {
                    assert(order[a0] == i);
                } else {
                    assert(order[a0 + 1] == i);
                }
            }
        }
    }
}

/// The newest-first order rearranges and neither drops nor repeats: the
/// records in that order are the stored records, each as often as it is
/// stored.
pub proof fn lemma_newest_first_is_permutation<A>(items: Seq<A>, keys: Seq<Timestamp>)
    requires
        items.len() == keys.len(),
    ensures
        reorder(items, newest_first_order(keys)).len() == items.len(),
        reorder(items, newest_first_order(keys)).to_multiset() == items.to_multiset(),
    decreases keys.len(),
{
    broadcast use vstd::seq_lib::group_to_multiset_ensures;

    lemma_newest_first_order(keys);
    if keys.len() == 0 {
        assert(reorder(items, newest_first_order(keys)) =~= items);
    } else {
        let shorter = keys.drop_last();
        let earlier = newest_first_order(shorter);
        let k = keys.len() - 1;
        let p = ahead_count(keys, earlier, keys[k]);
        let fewer = items.drop_last();
        lemma_newest_first_order(shorter);
        lemma_ahead_count(keys, earlier, keys[k]);
        lemma_newest_first_is_permutation(fewer, shorter);
        assert(reorder(items, earlier) =~= reorder(fewer, earlier));
        assert(reorder(items, newest_first_order(keys)) =~= reorder(items, earlier).insert(
            p,
            items[k],
        ));
        assert(items =~= fewer.push(items[k]));
        vstd::seq_lib::to_multiset_insert(reorder(items, earlier), p, items[k]);
    }
}

/// Computes the newest-first order of the instants in `keys`.
pub fn newest_first(keys: &Vec<Timestamp>) -> (order: Vec<usize>)
    ensures
        order@.len() == keys@.len(),
        forall|a: int| 0 <= a < order@.len() ==> #[trigger] order@[a] as int == newest_first_order(
            keys@,
        )[a],
        forall|a: int| 0 <= a < order@.len() ==> #[trigger] order@[a] < keys@.len(),
{
    let mut order: Vec<usize> = Vec::new();
    let mut k: usize = 0;
    while k < keys.len()
        invariant
            k <= keys.len(),
            order@.len() == k,
            forall|a: int| 0 <= a < k ==> #[trigger] order@[a] as int == newest_first_order(
                keys@.take(k as int),
            )[a],
            forall|a: int| 0 <= a < k ==> #[trigger] order@[a] < k,
        decreases keys.len() - k,
    {
        let ghost earlier = newest_first_order(keys@.take(k as int));
        let ghost now = keys@.take(k as int + 1);
        proof {
            assert(now.drop_last() =~= keys@.take(k as int));
            lemma_newest_first_order(keys@.take(k as int));
        }
        proof {
            assert(earlier.take(k as int) =~= earlier);
        }
        let mut p: usize = order.len();
        while p > 0 && keys[order[p - 1]].before(&keys[k])
            invariant
                p <= order@.len(),
                order@.len() == k,
                k < keys.len(),
                earlier.len() == k,
                forall|a: int| 0 <= a < k ==> #[trigger] order@[a] as int == earlier[a],
                forall|a: int| 0 <= a < k ==> #[trigger] order@[a] < k,
                now == keys@.take(k as int + 1),
                ahead_count(now, earlier, keys@[k as int]) == ahead_count(
                    now,
                    earlier.take(p as int),
                    keys@[k as int],
                ),
            decreases p,
        {
            proof {
                assert(earlier.take(p as int).drop_last() =~= earlier.take(p as int - 1));
                assert(order@[p as int - 1] as int == earlier[p as int - 1]);
                assert(now[earlier[p as int - 1]] == keys@[order@[p as int - 1] as int]);
            }
            p = p - 1;
        }
        proof {
            assert(earlier.take(order@.len() as int) =~= earlier);
            if p > 0 {
                assert(order@[p as int - 1] as int == earlier[p as int - 1]);
                assert(now[earlier[p as int - 1]] == keys@[order@[p as int - 1] as int]);
                assert(earlier.take(p as int).last() == earlier[p as int - 1]);
            }
            assert(ahead_count(now, earlier, keys@[k as int]) == p);
            assert(now[k as int] == keys@[k as int]);
        }
        let ghost before = order@;
        order.insert(p, k);
        proof {
            let target = newest_first_order(now);
            assert(target == earlier.insert(p as int, k as int));
            assert forall|a: int| 0 <= a < k + 1 implies #[trigger] order@[a] as int
                == target[a] by {
                if a < p {
                    assert(order@[a] == before[a]);
                } else if a > p {
                    assert(order@[a] == before[a - 1]);
                }
            }
        }
        k = k + 1;
    }
    proof {
        assert(keys@.take(keys@.len() as int) =~= keys@);
    }
    order
}

} // verus!
