//! The order in which shutdown hooks run: descending priority, and
//! insertion order among equal priorities.

use vstd::prelude::*;

verus! {

/// Whether the item at index `a` runs before the one at index `b`:
/// it has the higher priority, or the same priority and was
/// registered first.
pub open spec fn runs_before(priorities: Seq<i32>, a: int, b: int) -> bool {
    priorities[a] > priorities[b] || (priorities[a] == priorities[b] && a < b)
}

/// `order` lists the indices of the first `n` priorities, each once,
/// sorted by [`runs_before`].
pub open spec fn is_run_order_of_prefix(priorities: Seq<i32>, n: int, order: Seq<int>) -> bool {
    &&& order.len() == n
    &&& forall|i: int| 0 <= i < order.len() ==> 0 <= #[trigger] order[i] < n
    &&& forall|x: int| 0 <= x < n ==> #[trigger] order.contains(x)
    &&& forall|i: int, j: int|
        0 <= i < j < order.len() ==> runs_before(priorities, #[trigger] order[i], #[trigger] order[j])
}

/// `order` is the run order of all of `priorities`: a permutation of
/// their indices, sorted by descending priority, stable among equal
/// priorities.
pub open spec fn is_run_order(priorities: Seq<i32>, order: Seq<int>) -> bool {
    is_run_order_of_prefix(priorities, priorities.len() as int, order)
}

/// `items` arranged in `order`.
pub open spec fn arranged<T>(items: Seq<T>, order: Seq<int>) -> Seq<T> {
    order.map_values(|k: int| items[k])
}

/// Sort `items` by descending `priorities` (one per item), keeping
/// items of equal priority in their given order. Returns the sorted
/// items and, as a ghost, the order of the original indices.
pub(crate) fn sort_by_priority<T>(items: Vec<T>, priorities: &Vec<i32>) -> (r: (Vec<T>, Ghost<Seq<int>>))
    requires
        items.len() == priorities.len(),
    ensures
        is_run_order(priorities@, r.1@),
        r.0@ == arranged(items@, r.1@),
{
    let n = items.len();
    let ghost original = items@;
    let mut rest = items;
    let mut sorted: Vec<T> = Vec::new();
    let mut sorted_keys: Vec<i32> = Vec::new();
    let ghost mut order: Seq<int> = Seq::empty();
    let mut j: usize = 0;
    while j < n
        invariant
            n == priorities.len(),
            n == original.len(),
            j <= n,
            rest@ == original.subrange(j as int, n as int),
            is_run_order_of_prefix(priorities@, j as int, order),
            sorted@ == arranged(original, order),
            sorted_keys@ == arranged(priorities@, order),
        decreases n - j,
    {
        let item = rest.remove(0);
        let key = priorities[j];
        let mut p: usize = 0;
        while p < sorted_keys.len() && sorted_keys[p] >= key
            invariant
                p <= sorted_keys.len(),
                forall|q: int| 0 <= q < p ==> sorted_keys@[q] >= key,
            decreases sorted_keys.len() - p,
        {
            p = p + 1;
        }
        proof {
            let old_order = order;
            let new_order = old_order.insert(p as int, j as int);
            assert forall|i: int, k: int| 0 <= i < k < new_order.len() implies runs_before(
                priorities@,
                #[trigger] new_order[i],
                #[trigger] new_order[k],
            ) by {
                if k < p {
                    assert(new_order[i] == old_order[i] && new_order[k] == old_order[k]);
                } else if k == p {
                    assert(new_order[i] == old_order[i]);
                    assert(sorted_keys@[i] == priorities@[old_order[i]]);
                } else if i < p {
                    assert(new_order[i] == old_order[i] && new_order[k] == old_order[k - 1]);
                    if i < k - 1 {
                    }
                } else if i == p {
                    assert(new_order[k] == old_order[k - 1]);
                    assert(p < sorted_keys@.len());
                    assert(sorted_keys@[p as int] < key);
                    if p < k - 1 {
                        assert(runs_before(priorities@, old_order[p as int], old_order[k - 1]));
                    }
                    assert(sorted_keys@[k - 1] == priorities@[old_order[k - 1]]);
                } else {
                    assert(new_order[i] == old_order[i - 1] && new_order[k] == old_order[k - 1]);
                }
            }
            assert forall|x: int| 0 <= x < j + 1 implies #[trigger] new_order.contains(x) by {
                if x == j {
                    assert(new_order[p as int] == x);
                } else {
                    assert(old_order.contains(x));
                    let w = choose|w: int| 0 <= w < old_order.len() && old_order[w] == x;
                    if w < p {
                        assert(new_order[w] == x);
                    } else {
                        assert(new_order[w + 1] == x);
                    }
                }
            }
            order = new_order;
        }
        sorted.insert(p, item);
        sorted_keys.insert(p, key);
        proof {
            assert(sorted@ =~= arranged(original, order));
            assert(sorted_keys@ =~= arranged(priorities@, order));
            assert(rest@ =~= original.subrange(j + 1, n as int));
        }
        j = j + 1;
    }
    (sorted, Ghost(order))
}

/// The run order of hooks with the given priorities: the indices of
/// `priorities`, highest priority first, equal priorities in index
/// order.
pub fn priority_order(priorities: &Vec<i32>) -> (order: Vec<usize>)
    ensures
        is_run_order(priorities@, order@.map_values(|i: usize| i as int)),
{
    let n = priorities.len();
    let mut indices: Vec<usize> = Vec::new();
    let mut i: usize = 0;
    while i < n
        invariant
            i <= n,
            indices@.len() == i,
            forall|k: int| 0 <= k < i ==> indices@[k] == k,
        decreases n - i,
    {
        indices.push(i);
        i = i + 1;
    }
    let ghost idx = indices@;
    let (sorted, Ghost(order)) = sort_by_priority(indices, priorities);
    proof {
        assert(sorted@.map_values(|i: usize| i as int) =~= order);
    }
    sorted
}

/// The run order is unique: two orders of the same priorities that
/// both satisfy [`is_run_order`] are equal.
pub proof fn law_run_order_unique(priorities: Seq<i32>, a: Seq<int>, b: Seq<int>)
    requires
        is_run_order(priorities, a),
        is_run_order(priorities, b),
    ensures
        a == b,
{
    lemma_sorted_unique(priorities, a, b);
}

proof fn lemma_sorted_unique(priorities: Seq<i32>, a: Seq<int>, b: Seq<int>)
    requires
        a.len() == b.len(),
        forall|i: int, j: int|
            0 <= i < j < a.len() ==> runs_before(priorities, #[trigger] a[i], #[trigger] a[j]),
        forall|i: int, j: int|
            0 <= i < j < b.len() ==> runs_before(priorities, #[trigger] b[i], #[trigger] b[j]),
        forall|x: int| a.contains(x) <==> b.contains(x),
    ensures
        a == b,
    decreases a.len(),
{
    if a.len() > 0 {
        assert(a.contains(a[0]));
        assert(b.contains(b[0]));
        let k = choose|k: int| 0 <= k < b.len() && b[k] == a[0];
        let m = choose|m: int| 0 <= m < a.len() && a[m] == b[0];
        if k > 0 && m > 0 {
            assert(runs_before(priorities, b[0], b[k]));
            assert(runs_before(priorities, a[0], a[m]));
            assert(false);
        }
        assert(a[0] == b[0]);
        let a2 = a.drop_first();
        let b2 = b.drop_first();
        assert forall|x: int| a2.contains(x) implies b2.contains(x) by {
            let i = choose|i: int| 0 <= i < a2.len() && a2[i] == x;
            assert(a[i + 1] == x);
            assert(runs_before(priorities, a[0], a[i + 1]));
            assert(b.contains(x));
            let q = choose|q: int| 0 <= q < b.len() && b[q] == x;
            assert(q != 0);
            assert(b2[q - 1] == x);
        }
        assert forall|x: int| b2.contains(x) implies a2.contains(x) by {
            let i = choose|i: int| 0 <= i < b2.len() && b2[i] == x;
            assert(b[i + 1] == x);
            assert(runs_before(priorities, b[0], b[i + 1]));
            assert(a.contains(x));
            let q = choose|q: int| 0 <= q < a.len() && a[q] == x;
            assert(q != 0);
            assert(a2[q - 1] == x);
        }
        assert forall|i: int, j: int| 0 <= i < j < a2.len() implies runs_before(
            priorities,
            #[trigger] a2[i],
            #[trigger] a2[j],
        ) by {
            assert(a2[i] == a[i + 1] && a2[j] == a[j + 1]);
        }
        assert forall|i: int, j: int| 0 <= i < j < b2.len() implies runs_before(
            priorities,
            #[trigger] b2[i],
            #[trigger] b2[j],
        ) by {
            assert(b2[i] == b[i + 1] && b2[j] == b[j + 1]);
        }
        lemma_sorted_unique(priorities, a2, b2);
        assert(a =~= seq![a[0]] + a2);
        assert(b =~= seq![b[0]] + b2);
    }
}

} // verus!
