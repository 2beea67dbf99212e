//! A bounded first-in, first-out window of recent samples.

use std::collections::VecDeque;
use vstd::prelude::*;

verus! {

/// What a window holds after `value` is pushed into one that held `items` and
/// has room for `capacity` of them: once the window is full the oldest item
/// leaves, then the new one is appended.
pub open spec fn pushed<T>(items: Seq<T>, capacity: nat, value: T) -> Seq<T> {
    if items.len() > 0 && items.len() >= capacity {
        items.skip(1).push(value)
    } else {
        items.push(value)
    }
}

/// A window after the same `value` has been pushed `count` times.
pub open spec fn pushed_repeatedly<T>(items: Seq<T>, capacity: nat, value: T, count: nat) -> Seq<T>
    decreases count,
{
    if count == 0 {
        items
    } else {
        pushed(pushed_repeatedly(items, capacity, value, (count - 1) as nat), capacity, value)
    }
}

/// `count` times the same `value`.
pub open spec fn repeated<T>(value: T, count: nat) -> Seq<T> {
    Seq::new(count, |i: int| value)
}

/// Whether `items` holds nothing but `value`.
pub open spec fn holds_only<T>(items: Seq<T>, value: T) -> bool {
    forall|i: int| 0 <= i < items.len() ==> items[i] == value
}

/// A push into a window within its capacity leaves it within its capacity. It
/// grows by one while there is room, and keeps its length once full.
pub proof fn lemma_pushed_len<T>(items: Seq<T>, capacity: nat, value: T)
    requires
        capacity > 0,
        items.len() <= capacity,
    ensures
        pushed(items, capacity, value).len() <= capacity,
        pushed(items, capacity, value).len() == if items.len() < capacity {
            items.len() + 1
        } else {
            capacity
        },
        pushed(items, capacity, value).last() == value,
{
}

/// Everything in a window after a push was in it before, or is the pushed
/// value: a window never holds a value that was not handed to it.
pub proof fn lemma_pushed_members<T>(items: Seq<T>, capacity: nat, value: T, i: int)
    requires
        0 <= i < pushed(items, capacity, value).len(),
    ensures
        pushed(items, capacity, value)[i] == value || items.contains(pushed(items, capacity, value)[i]),
{
}

/// Once a value has been pushed at least `capacity` times in a row, the window
/// is full and holds nothing else.
pub proof fn lemma_pushed_repeatedly_fills<T>(items: Seq<T>, capacity: nat, value: T, count: nat)
    requires
        capacity > 0,
        items.len() <= capacity,
        count >= capacity,
    ensures
        pushed_repeatedly(items, capacity, value, count) == repeated(value, capacity),
{
    lemma_pushed_repeatedly_tail(items, capacity, value, count);
}

/// After `count` pushes of one value the window is within its capacity and its
/// newest `count` items (or all of them, if it holds fewer) are that value.
proof fn lemma_pushed_repeatedly_tail<T>(items: Seq<T>, capacity: nat, value: T, count: nat)
    requires
        capacity > 0,
        items.len() <= capacity,
    ensures
        pushed_repeatedly(items, capacity, value, count).len() <= capacity,
        pushed_repeatedly(items, capacity, value, count).len() == if items.len() + count
            < capacity {
            items.len() + count
        } else {
            capacity
        },
        forall|i: int|
            #![trigger pushed_repeatedly(items, capacity, value, count)[i]]
            0 <= i < pushed_repeatedly(items, capacity, value, count).len()
                && pushed_repeatedly(items, capacity, value, count).len() - count <= i
                ==> pushed_repeatedly(items, capacity, value, count)[i] == value,
    decreases count,
{
    if count > 0 {
        lemma_pushed_repeatedly_tail(items, capacity, value, (count - 1) as nat);
    }
}

/// A fixed-capacity FIFO window. Items are kept in insertion order, oldest
/// first; a push into a full window evicts the oldest item.
pub struct BoundedWindow<T> {
    items: VecDeque<T>,
    capacity: usize,
}

impl<T> View for BoundedWindow<T> {
    type V = Seq<T>;

    /// The items in the window, oldest first.
    closed spec fn view(&self) -> Seq<T> {
        self.items@
    }
}

impl<T> BoundedWindow<T> {
    /// The greatest number of items the window holds at a time.
    pub closed spec fn spec_capacity(&self) -> nat {
        self.capacity as nat
    }

    /// The invariant of a window: a positive capacity that the length never
    /// exceeds.
    pub open spec fn wf(&self) -> bool {
        &&& self.spec_capacity() > 0
        &&& self@.len() <= self.spec_capacity()
    }

    /// An empty window with room for `capacity` items.
    pub fn new(capacity: usize) -> (window: Self)
        requires
            capacity > 0,
        ensures
            window.wf(),
            window@ == Seq::<T>::empty(),
            window.spec_capacity() == capacity,
    {
        BoundedWindow { items: VecDeque::with_capacity(capacity), capacity }
    }

    /// Appends `value`, evicting the oldest item first if the window is full.
    pub fn push(&mut self, value: T)
        requires
            old(self).wf(),
        ensures
            final(self).wf(),
            final(self).spec_capacity() == old(self).spec_capacity(),
            final(self)@ == pushed(old(self)@, old(self).spec_capacity(), value),
    {
        if self.items.len() >= self.capacity {
            let _ = self.items.pop_front();
        }
        self.items.push_back(value);
    }

    /// The number of items currently held.
    pub fn len(&self) -> (len: usize)
        requires
            self.wf(),
        ensures
            len == self@.len(),
            len <= self.spec_capacity(),
    {
        self.items.len()
    }

    /// The capacity the window was made with.
    pub fn capacity(&self) -> (capacity: usize)
        ensures
            capacity == self.spec_capacity(),
    {
        self.capacity
    }

    /// Whether the window holds nothing yet.
    pub fn is_empty(&self) -> (empty: bool)
        ensures
            empty == (self@.len() == 0),
    {
        self.items.len() == 0
    }

    /// The item at `index`, counted from the oldest.
    pub fn get(&self, index: usize) -> (item: &T)
        requires
            index < self@.len(),
        ensures
            *item == self@[index as int],
    {
        &self.items[index]
    }
}

} // verus!
