//! Ascending order of sample keys, and an in-place heap sort.

use vstd::prelude::*;
use vstd::seq_lib::lemma_sorted_unique;

verus! {

/// Whether no item of `s` is followed by a smaller one.
pub open spec fn is_ascending(s: Seq<i32>) -> bool {
    forall|i: int, j: int| 0 <= i < j < s.len() ==> s[i] <= s[j]
}

/// The items of `s` in ascending order.
pub open spec fn ascending(s: Seq<i32>) -> Seq<i32> {
    s.sort_by(|a: i32, b: i32| a <= b)
}

/// `ascending(s)` is `s` rearranged: it is in ascending order and holds every
/// item exactly as often as `s` does.
pub proof fn lemma_ascending(s: Seq<i32>)
    ensures
        is_ascending(ascending(s)),
        ascending(s).to_multiset() == s.to_multiset(),
        ascending(s).len() == s.len(),
{
    let leq = |a: i32, b: i32| a <= b;
    s.lemma_sort_by_ensures(leq);
    s.to_multiset_ensures();
    ascending(s).to_multiset_ensures();
    assert forall|i: int, j: int| 0 <= i < j < ascending(s).len() implies ascending(s)[i]
        <= ascending(s)[j] by {
        assert(leq(ascending(s)[i], ascending(s)[j]));
    }
}

/// There is only one way to put a sequence in ascending order: any ascending
/// rearrangement of `s` is `ascending(s)`.
pub proof fn lemma_ascending_unique(s: Seq<i32>, t: Seq<i32>)
    requires
        is_ascending(t),
        t.to_multiset() == s.to_multiset(),
    ensures
        t == ascending(s),
{
    let leq = |a: i32, b: i32| a <= b;
    lemma_ascending(s);
    lemma_sorted_unique(t, ascending(s), leq);
}

/// `s` with the items at `i` and `j` exchanged.
pub open spec fn swapped(s: Seq<i32>, i: int, j: int) -> Seq<i32>
    recommends
        0 <= i < s.len(),
        0 <= j < s.len(),
{
    s.update(i, s[j]).update(j, s[i])
}

/// Exchanging two items rearranges a sequence: it holds every item as often
/// as before.
pub proof fn lemma_swap_keeps_items(s: Seq<i32>, i: int, j: int)
    requires
        0 <= i < s.len(),
        0 <= j < s.len(),
    ensures
        swapped(s, i, j).to_multiset() == s.to_multiset(),
{
    broadcast use vstd::multiset::group_multiset_axioms;

    let half = s.update(i, s[j]);
    vstd::seq_lib::to_multiset_update(s, i, s[j]);
    vstd::seq_lib::to_multiset_update(half, j, s[i]);
    vstd::seq_lib::to_multiset_contains(s, s[i]);
}

/// Whether the item at `parent` is no smaller than its children, in the heap
/// laid out in the first `end` items of `s`: the children of the item at `p`
/// stand at `2 * p + 1` and `2 * p + 2`.
spec fn heap_at(s: Seq<i32>, end: int, parent: int) -> bool {
    &&& 2 * parent + 1 < end ==> s[2 * parent + 1] <= s[parent]
    &&& 2 * parent + 2 < end ==> s[2 * parent + 2] <= s[parent]
}

/// Whether every item from `start` up to `end` is no smaller than its
/// children.
spec fn is_heap(s: Seq<i32>, start: int, end: int) -> bool {
    forall|parent: int| start <= parent < end ==> heap_at(s, end, parent)
}

/// The root of a heap is its largest item.
proof fn lemma_heap_root_is_largest(s: Seq<i32>, end: int, i: int)
    requires
        is_heap(s, 0, end),
        0 <= i < end <= s.len(),
    ensures
        s[i] <= s[0],
    decreases i,
{
    if i > 0 {
        let parent = (i - 1) / 2;
        assert(heap_at(s, end, parent));
        lemma_heap_root_is_largest(s, end, parent);
    }
}

/// Exchanges the items at `i` and `j`.
fn exchange(values: &mut Vec<i32>, i: usize, j: usize)
    requires
        i < old(values)@.len(),
        j < old(values)@.len(),
    ensures
        final(values)@ == swapped(old(values)@, i as int, j as int),
        final(values)@.len() == old(values)@.len(),
        final(values)@.to_multiset() == old(values)@.to_multiset(),
{
    let first = values[i];
    let second = values[j];
    values[i] = second;
    values[j] = first;
    proof {
        lemma_swap_keeps_items(old(values)@, i as int, j as int);
    }
}

/// Lets the item at `start` sink to its place in the heap that the items
/// after it form within the first `end` items.
fn sift_down(values: &mut Vec<i32>, start: usize, end: usize, Ghost(bound): Ghost<i32>)
    requires
        start < end <= old(values)@.len(),
        is_heap(old(values)@, start + 1, end as int),
        forall|i: int| 0 <= i < end ==> old(values)@[i] <= bound,
    ensures
        final(values)@.len() == old(values)@.len(),
        final(values)@.to_multiset() == old(values)@.to_multiset(),
        is_heap(final(values)@, start as int, end as int),
        forall|i: int| 0 <= i < end ==> final(values)@[i] <= bound,
        forall|i: int| end <= i < old(values)@.len() ==> final(values)@[i] == old(values)@[i],
{
    let mut root = start;
    loop
        invariant
            start <= root < end <= values@.len(),
            values@.len() == old(values)@.len(),
            values@.to_multiset() == old(values)@.to_multiset(),
            forall|i: int| 0 <= i < end ==> values@[i] <= bound,
            forall|i: int| end <= i < values@.len() ==> values@[i] == old(values)@[i],
            forall|parent: int|
                start <= parent < end && parent != root ==> heap_at(values@, end as int, parent),
            root > start ==> {
                &&& start <= (root - 1) / 2
                &&& 2 * root + 1 < end ==> values@[2 * root + 1] <= values@[(root - 1) / 2]
                &&& 2 * root + 2 < end ==> values@[2 * root + 2] <= values@[(root - 1) / 2]
            },
        ensures
            values@.len() == old(values)@.len(),
            values@.to_multiset() == old(values)@.to_multiset(),
            is_heap(values@, start as int, end as int),
            forall|i: int| 0 <= i < end ==> values@[i] <= bound,
            forall|i: int| end <= i < values@.len() ==> values@[i] == old(values)@[i],
        decreases end - root,
    {
        if root >= end / 2 {
            break ;
        }
        let mut child = 2 * root + 1;
        if child + 1 < end && values[child] < values[child + 1] {
            child += 1;
        }
        if values[root] >= values[child] {
            break ;
        }
        let ghost before = values@;
        exchange(values, root, child);
        proof {
            assert forall|parent: int|
                start <= parent < end && parent != child implies heap_at(
                values@,
                end as int,
                parent,
            ) by {
                if parent != root {
                    assert(heap_at(before, end as int, parent));
                }
            }
            assert(heap_at(before, end as int, child as int));
        }
        root = child;
    }
}

/// Sorts `values` in place, ascending. This is a heap sort: its time grows as
/// `n log n` for `n` values, and it allocates nothing.
pub fn sort_ascending(values: &mut Vec<i32>)
    ensures
        final(values)@ == ascending(old(values)@),
{
    let n = values.len();
    let mut start = n / 2;
    while start > 0
        invariant
            start <= n / 2,
            values@.len() == n,
            values@.to_multiset() == old(values)@.to_multiset(),
            is_heap(values@, start as int, n as int),
        decreases start,
    {
        start -= 1;
        sift_down(values, start, n, Ghost(i32::MAX));
    }
    let mut end = n;
    while end > 1
        invariant
            end <= n,
            values@.len() == n,
            values@.to_multiset() == old(values)@.to_multiset(),
            is_heap(values@, 0, end as int),
            forall|i: int, j: int| end <= i < j < n ==> values@[i] <= values@[j],
            forall|i: int, j: int| 0 <= i < end <= j < n ==> values@[i] <= values@[j],
        decreases end,
    {
        let ghost heap = values@;
        proof {
            assert forall|i: int| 0 <= i < end implies #[trigger] heap[i] <= heap[0] by {
                lemma_heap_root_is_largest(heap, end as int, i);
            }
        }
        end -= 1;
        exchange(values, 0, end);
        proof {
            assert forall|parent: int| 1 <= parent < end implies heap_at(
                values@,
                end as int,
                parent,
            ) by {
                assert(heap_at(heap, end + 1, parent));
            }
        }
        sift_down(values, 0, end, Ghost(heap[0]));
    }
    proof {
        lemma_ascending_unique(old(values)@, values@);
    }
}

} // verus!
