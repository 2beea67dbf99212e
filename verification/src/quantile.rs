//! The quantile denoiser: a representative value per energy stream, taken
//! from a sorted copy of the stream's window.

use crate::sorting::{ascending, is_ascending, lemma_ascending, sort_ascending};
use crate::window::{holds_only, pushed, BoundedWindow};
use vstd::prelude::*;

verus! {

/// Where the quantile stands in a sorted window of `len` items: three quarters
/// of the way in, rounded down.
pub open spec fn quantile_index(len: nat) -> nat {
    (3 * len / 4) as nat
}

/// The representative value of a window: the item that stands at
/// `quantile_index` once the window's items are put in ascending order.
pub open spec fn quantile(s: Seq<i32>) -> i32
    recommends
        s.len() > 0,
{
    ascending(s)[quantile_index(s.len()) as int]
}

/// The quantile index lies inside every non-empty window. While a window
/// fills, the index follows its current length.
pub proof fn lemma_quantile_index_in_range(len: nat)
    requires
        len > 0,
    ensures
        quantile_index(len) < len,
{
}

/// The quantile of a window is one of the window's items, never a value
/// between two of them.
pub proof fn lemma_quantile_is_member(s: Seq<i32>)
    requires
        s.len() > 0,
    ensures
        s.contains(quantile(s)),
{
    lemma_ascending(s);
    ascending(s).to_multiset_ensures();
    s.to_multiset_ensures();
    assert(s.to_multiset().count(quantile(s)) > 0);
}

/// How many items of `s` are at most `q`.
pub open spec fn count_at_most(s: Seq<i32>, q: i32) -> nat {
    s.to_multiset().filter(|x: i32| x <= q).len()
}

/// How many items of `s` are at least `q`.
pub open spec fn count_at_least(s: Seq<i32>, q: i32) -> nat {
    s.to_multiset().filter(|x: i32| x >= q).len()
}

/// Nothing in an empty sequence meets a condition.
proof fn lemma_count_of_nothing(s: Seq<i32>, meets: spec_fn(i32) -> bool)
    requires
        s.len() == 0,
    ensures
        s.to_multiset().filter(meets).len() == 0,
{
    broadcast use vstd::multiset::group_multiset_axioms;

    s.to_multiset_ensures();
    assert(s.to_multiset().filter(meets) =~= vstd::multiset::Multiset::<i32>::empty());
}

/// Appending an item raises the number of items that meet a condition by one
/// if the item meets it, and leaves it as it is otherwise.
proof fn lemma_count_push(s: Seq<i32>, x: i32, meets: spec_fn(i32) -> bool)
    ensures
        s.push(x).to_multiset().filter(meets).len() == s.to_multiset().filter(meets).len() + if meets(
            x,
        ) {
            1nat
        } else {
            0nat
        },
{
    broadcast use vstd::multiset::group_multiset_axioms;

    vstd::seq_lib::to_multiset_build(s, x);
    let before = s.to_multiset();
    if meets(x) {
        assert(before.insert(x).filter(meets) =~= before.filter(meets).insert(x));
    } else {
        assert(before.insert(x).filter(meets) =~= before.filter(meets));
    }
}

/// Among the first `i` items of an ascending sequence, those up to the
/// position `k` are at most the item at `k`, and those from `k` on are at
/// least that item.
proof fn lemma_count_in_prefix(t: Seq<i32>, k: int, i: int)
    requires
        is_ascending(t),
        0 <= k < t.len(),
        0 <= i <= t.len(),
    ensures
        count_at_most(t.take(i), t[k]) >= if i <= k { i } else { k + 1 },
        count_at_least(t.take(i), t[k]) >= if i <= k { 0 } else { i - k },
    decreases i,
{
    if i > 0 {
        lemma_count_in_prefix(t, k, i - 1);
        assert(t.take(i) =~= t.take(i - 1).push(t[i - 1]));
        lemma_count_push(t.take(i - 1), t[i - 1], |x: i32| x <= t[k]);
        lemma_count_push(t.take(i - 1), t[i - 1], |x: i32| x >= t[k]);
    }
}

/// The quantile without the sorting: more than three quarters of a window's
/// items are at most the quantile, counting the quantile itself, and at least
/// a quarter of them are at least the quantile.
pub proof fn lemma_quantile_is_order_statistic(s: Seq<i32>)
    requires
        s.len() > 0,
    ensures
        count_at_most(s, quantile(s)) > quantile_index(s.len()),
        count_at_least(s, quantile(s)) >= s.len() - quantile_index(s.len()),
        4 * count_at_most(s, quantile(s)) > 3 * s.len(),
        4 * count_at_least(s, quantile(s)) >= s.len(),
{
    lemma_ascending(s);
    let sorted = ascending(s);
    lemma_count_in_prefix(sorted, quantile_index(s.len()) as int, s.len() as int);
    assert(sorted.take(s.len() as int) =~= sorted);
}

/// Among the first `i` items of an ascending sequence, only those before the
/// position `k` can be at most a bound below the item at `k`, and only those
/// after `k` can be at least a bound above it.
proof fn lemma_count_against_bound(t: Seq<i32>, k: int, bound: i32, i: int)
    requires
        is_ascending(t),
        0 <= k < t.len(),
        0 <= i <= t.len(),
    ensures
        t[k] > bound ==> count_at_most(t.take(i), bound) <= if i <= k { i } else { k },
        t[k] < bound ==> count_at_least(t.take(i), bound) <= if i <= k + 1 { 0 } else { i - k - 1 },
    decreases i,
{
    if i > 0 {
        lemma_count_against_bound(t, k, bound, i - 1);
        assert(t.take(i) =~= t.take(i - 1).push(t[i - 1]));
        lemma_count_push(t.take(i - 1), t[i - 1], |x: i32| x <= bound);
        lemma_count_push(t.take(i - 1), t[i - 1], |x: i32| x >= bound);
    } else {
        lemma_count_of_nothing(t.take(0), |x: i32| x <= bound);
        lemma_count_of_nothing(t.take(0), |x: i32| x >= bound);
    }
}

/// The quantile follows the many: where more than three quarters of a
/// window's items are at most a bound, so is the quantile, and where at least
/// a quarter of them are at least a bound, so is the quantile. Spikes in
/// fewer than a quarter of the items do not raise it.
pub proof fn lemma_quantile_follows_the_many(s: Seq<i32>, bound: i32)
    requires
        s.len() > 0,
    ensures
        4 * count_at_most(s, bound) > 3 * s.len() ==> quantile(s) <= bound,
        4 * count_at_least(s, bound) >= s.len() ==> quantile(s) >= bound,
{
    lemma_ascending(s);
    let sorted = ascending(s);
    lemma_count_against_bound(sorted, quantile_index(s.len()) as int, bound, s.len() as int);
    assert(sorted.take(s.len() as int) =~= sorted);
}

/// The quantile of a window that holds one value throughout is that value.
pub proof fn lemma_quantile_of_constant(s: Seq<i32>, value: i32)
    requires
        s.len() > 0,
        holds_only(s, value),
    ensures
        quantile(s) == value,
{
    lemma_quantile_is_member(s);
}

/// The index of the quantile in a sorted window of `len` items.
pub fn quantile_position(len: usize) -> (position: usize)
    ensures
        position == quantile_index(len as nat),
        len > 0 ==> position < len,
{
    (len / 4) * 3 + (len % 4) * 3 / 4
}

/// Refills `buffer` with the items of `window`, oldest first.
fn refill(buffer: &mut Vec<i32>, window: &BoundedWindow<i32>)
    requires
        window.wf(),
    ensures
        final(buffer)@ == window@,
{
    buffer.clear();
    let len = window.len();
    let mut i: usize = 0;
    while i < len
        invariant
            i <= len,
            len == window@.len(),
            buffer@ == window@.take(i as int),
        decreases len - i,
    {
        buffer.push(*window.get(i));
        i += 1;
    }
}

/// The quantile of a non-empty window, found in a sorted copy of it that is
/// written to `buffer`.
fn window_quantile(buffer: &mut Vec<i32>, window: &BoundedWindow<i32>) -> (value: i32)
    requires
        window.wf(),
        window@.len() > 0,
    ensures
        value == quantile(window@),
        final(buffer)@ == ascending(window@),
{
    refill(buffer, window);
    sort_ascending(buffer);
    proof {
        lemma_ascending(window@);
    }
    let position = quantile_position(buffer.len());
    buffer[position]
}

/// Denoises the horizontal and the vertical energy stream, each with a window
/// of its own: the representative value of a stream is the quantile of its
/// window. The two windows have one capacity and are filled in step.
pub struct QuantileDenoiser {
    horizontal_measurements: BoundedWindow<i32>,
    vertical_measurements: BoundedWindow<i32>,
    horizontal_measurements_buffer: Vec<i32>,
    vertical_measurements_buffer: Vec<i32>,
}

impl QuantileDenoiser {
    /// The window of the horizontal stream, oldest first.
    pub closed spec fn horizontal(&self) -> Seq<i32> {
        self.horizontal_measurements@
    }

    /// The window of the vertical stream, oldest first.
    pub closed spec fn vertical(&self) -> Seq<i32> {
        self.vertical_measurements@
    }

    /// The capacity of each of the two windows.
    pub closed spec fn window_size(&self) -> nat {
        self.horizontal_measurements.spec_capacity()
    }

    /// The invariant of a denoiser: two windows of one capacity and one
    /// length.
    pub closed spec fn wf(&self) -> bool {
        &&& self.horizontal_measurements.wf()
        &&& self.vertical_measurements.wf()
        &&& self.vertical_measurements.spec_capacity()
            == self.horizontal_measurements.spec_capacity()
        &&& self.vertical_measurements@.len() == self.horizontal_measurements@.len()
    }

    /// What follows from the invariant for the public view of a denoiser.
    pub proof fn lemma_wf(&self)
        requires
            self.wf(),
        ensures
            self.window_size() > 0,
            self.horizontal().len() <= self.window_size(),
            self.vertical().len() == self.horizontal().len(),
    {
    }

    /// A denoiser with two empty windows of capacity `detection_window_size`.
    pub fn new(detection_window_size: usize) -> (denoiser: Self)
        requires
            detection_window_size > 0,
        ensures
            denoiser.wf(),
            denoiser.window_size() == detection_window_size,
            denoiser.horizontal() == Seq::<i32>::empty(),
            denoiser.vertical() == Seq::<i32>::empty(),
    {
        QuantileDenoiser {
            horizontal_measurements: BoundedWindow::new(detection_window_size),
            vertical_measurements: BoundedWindow::new(detection_window_size),
            horizontal_measurements_buffer: Vec::with_capacity(detection_window_size),
            vertical_measurements_buffer: Vec::with_capacity(detection_window_size),
        }
    }

    /// Pushes `x` into the horizontal window and `y` into the vertical one,
    /// and returns the quantile of each window as it then stands.
    pub fn add_measurement(&mut self, x: i32, y: i32) -> (denoised: (i32, i32))
        requires
            old(self).wf(),
        ensures
            final(self).wf(),
            final(self).window_size() == old(self).window_size(),
            final(self).horizontal() == pushed(old(self).horizontal(), old(self).window_size(), x),
            final(self).vertical() == pushed(old(self).vertical(), old(self).window_size(), y),
            denoised.0 == quantile(final(self).horizontal()),
            denoised.1 == quantile(final(self).vertical()),
            final(self).horizontal().contains(denoised.0),
            final(self).vertical().contains(denoised.1),
    {
        self.horizontal_measurements.push(x);
        self.vertical_measurements.push(y);
        self.compute_quantile_detection_accel()
    }

    /// The quantile of each window. The windows are left as they are; only
    /// the scratch buffers are rewritten.
    pub fn compute_quantile_detection_accel(&mut self) -> (denoised: (i32, i32))
        requires
            old(self).wf(),
            old(self).horizontal().len() > 0,
        ensures
            final(self).wf(),
            final(self).window_size() == old(self).window_size(),
            final(self).horizontal() == old(self).horizontal(),
            final(self).vertical() == old(self).vertical(),
            denoised.0 == quantile(old(self).horizontal()),
            denoised.1 == quantile(old(self).vertical()),
            old(self).horizontal().contains(denoised.0),
            old(self).vertical().contains(denoised.1),
    {
        let horizontal = window_quantile(
            &mut self.horizontal_measurements_buffer,
            &self.horizontal_measurements,
        );
        let vertical = window_quantile(
            &mut self.vertical_measurements_buffer,
            &self.vertical_measurements,
        );
        proof {
            lemma_quantile_is_member(self.horizontal());
            lemma_quantile_is_member(self.vertical());
        }
        (horizontal, vertical)
    }
}

} // verus!
