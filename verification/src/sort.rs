//! Stable ordering of items by an integer key.

use vstd::prelude::*;

verus! {

/// Item `a` comes before item `b`: its key is smaller, or the keys are equal and `a`
/// came first in the input.
pub open spec fn lex_before(keys: Seq<u64>, a: int, b: int) -> bool {
    keys[a] < keys[b] || (keys[a] == keys[b] && a < b)
}

/// `i` occurs somewhere in `order`.
pub open spec fn occurs_in(order: Seq<usize>, i: int) -> bool {
    exists|k: int| 0 <= k < order.len() && order[k] == i
}

/// `order` lists every index of `keys` once, by nondecreasing key, and indices of equal
/// keys in their input order.
pub open spec fn is_stable_order(keys: Seq<u64>, order: Seq<usize>) -> bool {
    &&& order.len() == keys.len()
    &&& forall|k: int| 0 <= k < order.len() ==> #[trigger] order[k] < keys.len()
    &&& forall|k: int, l: int|
        0 <= k < l < order.len() ==> lex_before(keys, #[trigger] order[k] as int, #[trigger] order[l] as int)
    &&& forall|i: int| 0 <= i < keys.len() ==> #[trigger] occurs_in(order, i)
}

/// The indices of `keys` in stable order of their keys (an insertion sort).
pub fn stable_order(keys: &Vec<u64>) -> (order: Vec<usize>)
    ensures
        is_stable_order(keys@, order@),
{
    let n = keys.len();
    let mut order: Vec<usize> = Vec::new();
    let mut i: usize = 0;
    while i < n
        invariant
            n == keys@.len(),
            i <= n,
            order@.len() == i,
            forall|k: int| 0 <= k < order@.len() ==> #[trigger] order@[k] < i,
            forall|k: int, l: int|
                0 <= k < l < order@.len() ==> lex_before(keys@, #[trigger] order@[k] as int, #[trigger] order@[l] as int),
            forall|x: int| 0 <= x < i ==> #[trigger] occurs_in(order@, x),
        decreases n - i,
    {
        let key = keys[i];
        let mut p: usize = 0;
        while p < i && keys[order[p]] <= key
            invariant
                n == keys@.len(),
                i < n,
                key == keys@[i as int],
                p <= i,
                order@.len() == i,
                forall|k: int| 0 <= k < order@.len() ==> #[trigger] order@[k] < i,
                forall|k: int| 0 <= k < p ==> keys@[#[trigger] order@[k] as int] <= key,
            decreases i - p,
        {
            p = p + 1;
        }
        let ghost old_order = order@;
        proof {
            // every element at or after `p` has a larger key than `key`
            assert forall|k: int| p <= k < old_order.len() implies keys@[#[trigger] old_order[k] as int] > key by {
                if k > p {
                    assert(lex_before(keys@, old_order[p as int] as int, old_order[k] as int));
                }
            }
        }
        order.insert(p, i);
        proof {
            assert forall|k: int, l: int| 0 <= k < l < order@.len() implies lex_before(keys@, #[trigger] order@[k] as int, #[trigger] order@[l] as int) by {
                if k < p && l < p {
                    assert(order@[k] == old_order[k] && order@[l] == old_order[l]);
                } else if k < p && l == p {
                    assert(order@[k] == old_order[k]);
                } else if k < p {
                    assert(order@[k] == old_order[k] && order@[l] == old_order[l - 1]);
                } else if k == p {
                    assert(order@[l] == old_order[l - 1]);
                } else {
                    assert(order@[k] == old_order[k - 1] && order@[l] == old_order[l - 1]);
                }
            }
            assert forall|x: int| 0 <= x < i + 1 implies #[trigger] occurs_in(order@, x) by {
                if x == i {
                    assert(order@[p as int] == x);
                } else {
                    assert(occurs_in(old_order, x));
                    let k = choose|k: int| 0 <= k < old_order.len() && old_order[k] == x;
                    if k < p {
                        assert(order@[k] == x);
                    } else {
                        assert(order@[k + 1] == x);
                    }
                }
            }
            assert forall|k: int| 0 <= k < order@.len() implies #[trigger] order@[k] < i + 1 by {
                if k < p {
                    assert(order@[k] == old_order[k]);
                } else if k > p {
                    assert(order@[k] == old_order[k - 1]);
                }
            }
        }
        i = i + 1;
    }
    order
}

} // verus!
