//! Virtual-list windower.
//!
//! A virtualized list materializes only the rows that intersect the
//! viewport. Given the per-item extents along the scroll axis, a scroll
//! offset and the viewport extent, [`ItemExtents::visible_range`] computes
//! the contiguous index range `[first, last)` to draw. The range always
//! fully covers the visible window — over-rendering by a margin is
//! permitted, under-rendering never is.
//!
//! The per-item extents are immutable for the lifetime of one windowing
//! computation; the structure caches their prefix sums so each query is a
//! scan of at most the item count, with no re-summation.

use vstd::prelude::*;

verus! {

/// Sum of the first `n` extents (a prefix sum of the item sizes).
pub open spec fn extent_sum(extents: Seq<u64>, n: int) -> int
    recommends
        0 <= n <= extents.len(),
    decreases n,
{
    if n <= 0 {
        0
    } else {
        extent_sum(extents, n - 1) + extents[n - 1]
    }
}

/// Prefix sums of non-negative sizes grow monotonically.
pub proof fn lemma_extent_sum_monotonic(extents: Seq<u64>, m: int, n: int)
    requires
        0 <= m <= n <= extents.len(),
    ensures
        extent_sum(extents, m) <= extent_sum(extents, n),
    decreases n,
{
    if m < n {
        lemma_extent_sum_monotonic(extents, m, n - 1);
    }
}

/// A contiguous, half-open index range `[first, last)` of rows to
/// materialize.
#[derive(Clone, Copy, Debug, PartialEq, Eq, Structural)]
pub struct VisibleRange {
    pub first: usize,
    pub last: usize,
}

/// The ordered per-item extents of one virtualized list, with their
/// cached prefix sums.
///
/// The sequence is immutable; when the underlying items change, the
/// caller builds a fresh value instead of mutating this one.
pub struct ItemExtents {
    extents: Vec<u64>,
    prefix: Vec<u64>,
}

impl View for ItemExtents {
    type V = Seq<u64>;

    closed spec fn view(&self) -> Seq<u64> {
        self.extents@
    }
}

impl ItemExtents {
    /// The cached prefix sums match the extents.
    pub closed spec fn wf(&self) -> bool {
        &&& self.prefix@.len() == self.extents@.len()
        &&& forall|i: int|
            0 <= i < self.prefix@.len() ==> self.prefix@[i] == extent_sum(self.extents@, i + 1)
    }

    /// Total extent of all items.
    pub open spec fn total(&self) -> int {
        extent_sum(self@, self@.len() as int)
    }

    /// Start of the visible window, clamped into the item span.
    pub open spec fn window_lo(&self, scroll_offset: u64) -> int {
        if scroll_offset <= self.total() {
            scroll_offset as int
        } else {
            self.total()
        }
    }

    /// End of the visible window, clamped into the item span.
    pub open spec fn window_hi(&self, scroll_offset: u64, viewport_extent: u64) -> int {
        if scroll_offset + viewport_extent <= self.total() {
            scroll_offset + viewport_extent
        } else {
            self.total()
        }
    }

    /// Builds the extent table for `extents`, caching the prefix sums.
    /// The total extent must fit the size type.
    pub fn new(extents: Vec<u64>) -> (items: ItemExtents)
        requires
            extent_sum(extents@, extents@.len() as int) <= u64::MAX,
        ensures
            items.wf(),
            items@ == extents@,
    {
        let n = extents.len();
        let mut prefix: Vec<u64> = Vec::new();
        let mut acc: u64 = 0;
        let mut i: usize = 0;
        while i < n
            invariant
                n == extents@.len(),
                i <= n,
                extent_sum(extents@, n as int) <= u64::MAX,
                acc == extent_sum(extents@, i as int),
                prefix@.len() == i,
                forall|k: int| 0 <= k < i ==> prefix@[k] == extent_sum(extents@, k + 1),
            decreases n - i,
        {
            proof {
                lemma_extent_sum_monotonic(extents@, i + 1, n as int);
            }
            acc = acc + extents[i];
            prefix.push(acc);
            i += 1;
        }
        ItemExtents { extents, prefix }
    }

    /// An extent table of `count` items of one uniform `extent`.
    pub fn uniform(count: usize, extent: u64) -> (items: ItemExtents)
        requires
            count * extent <= u64::MAX,
        ensures
            items.wf(),
            items@.len() == count,
            forall|i: int| 0 <= i < count ==> items@[i] == extent,
    {
        let mut extents: Vec<u64> = Vec::new();
        let mut i: usize = 0;
        while i < count
            invariant
                i <= count,
                count * extent <= u64::MAX,
                extents@.len() == i,
                forall|k: int| 0 <= k < i ==> extents@[k] == extent,
            decreases count - i,
        {
            extents.push(extent);
            i += 1;
        }
        proof {
            lemma_uniform_extent_sum(extents@, extent, count as int);
        }
        ItemExtents::new(extents)
    }

    /// Number of items.
    pub fn len(&self) -> (n: usize)
        ensures
            n == self@.len(),
    {
        self.extents.len()
    }

    /// Total extent of all items.
    pub fn total_extent(&self) -> (t: u64)
        requires
            self.wf(),
        ensures
            t == self.total(),
    {
        let n = self.prefix.len();
        if n == 0 {
            0
        } else {
            self.prefix[n - 1]
        }
    }

    /// The contiguous index range `[first, last)` of the items that
    /// intersect the window starting at `scroll_offset` and extending for
    /// `viewport_extent`.
    ///
    /// The range is within bounds, covers the clamped window completely
    /// (no under-rendering), and is tight: `first` is the item containing
    /// the window start — or the last item when the offset has scrolled
    /// past the end, which clamps rather than fails — and `last` is the
    /// smallest cut at or past the window end.
    pub fn visible_range(&self, scroll_offset: u64, viewport_extent: u64) -> (range: VisibleRange)
        requires
            self.wf(),
            viewport_extent > 0,
        ensures
            range.first <= range.last <= self@.len(),
            self@.len() == 0 ==> range.first == 0 && range.last == 0,
            self@.len() > 0 ==> range.first < range.last,
            // full coverage of the clamped window
            extent_sum(self@, range.first as int) <= self.window_lo(scroll_offset),
            extent_sum(self@, range.last as int) >= self.window_hi(scroll_offset, viewport_extent),
            // tightness of the start
            scroll_offset < self.total() ==> extent_sum(self@, range.first + 1) > scroll_offset,
            self@.len() > 0 && scroll_offset >= self.total() ==> range.first == self@.len() - 1,
            // tightness of the end
            forall|j: int|
                range.first + 1 <= j < range.last ==> extent_sum(self@, j) < scroll_offset
                    + viewport_extent,
    {
        let n = self.prefix.len();
        if n == 0 {
            return VisibleRange { first: 0, last: 0 };
        }
        let mut first: usize = 0;
        while first < n - 1 && self.prefix[first] <= scroll_offset
            invariant
                self.wf(),
                n == self.prefix@.len(),
                first <= n - 1,
                forall|k: int| 1 <= k <= first ==> #[trigger] extent_sum(self@, k) <= scroll_offset,
            decreases n - first,
        {
            first += 1;
        }
        proof {
            if first > 0 {
                assert(extent_sum(self@, first as int) <= scroll_offset);
            }
            if scroll_offset >= self.total() {
                lemma_extent_sum_monotonic(self@, first + 1, n as int);
                assert(first == n - 1);
            }
            lemma_extent_sum_monotonic(self@, 0, first as int);
        }
        let hi: u128 = scroll_offset as u128 + viewport_extent as u128;
        let mut cut: usize = first;
        while cut < n - 1 && (self.prefix[cut] as u128) < hi
            invariant
                self.wf(),
                n == self.prefix@.len(),
                first <= cut <= n - 1,
                hi == scroll_offset + viewport_extent,
                forall|k: int|
                    first + 1 <= k <= cut ==> #[trigger] extent_sum(self@, k) < scroll_offset
                        + viewport_extent,
            decreases n - cut,
        {
            cut += 1;
        }
        proof {
            if (self.prefix@[cut as int] as u128) < hi {
                assert(cut == n - 1);
            }
            lemma_extent_sum_monotonic(self@, cut + 1, n as int);
        }
        VisibleRange { first, last: cut + 1 }
    }

    /// Like [`ItemExtents::visible_range`], extended by one extra item on
    /// each end where one exists, to absorb sub-pixel scroll jitter. The
    /// window stays fully covered; the over-render is at most one item per
    /// side.
    pub fn visible_range_with_margin(&self, scroll_offset: u64, viewport_extent: u64) -> (range:
        VisibleRange)
        requires
            self.wf(),
            viewport_extent > 0,
        ensures
            range.first <= range.last <= self@.len(),
            extent_sum(self@, range.first as int) <= self.window_lo(scroll_offset),
            extent_sum(self@, range.last as int) >= self.window_hi(scroll_offset, viewport_extent),
            self@.len() == 0 ==> range.first == 0 && range.last == 0,
    {
        let base = self.visible_range(scroll_offset, viewport_extent);
        let first = if base.first > 0 {
            base.first - 1
        } else {
            0
        };
        let n = self.extents.len();
        let last = if base.last < n {
            base.last + 1
        } else {
            base.last
        };
        proof {
            lemma_extent_sum_monotonic(self@, first as int, base.first as int);
            lemma_extent_sum_monotonic(self@, base.last as int, last as int);
        }
        VisibleRange { first, last }
    }
}

/// No gaps: every point of a window whose ends the materialized range
/// covers lies inside one of the materialized items. Applied to the
/// result of [`ItemExtents::visible_range`] with the clamped window
/// bounds, it says the union of the extents of the indices in
/// `[first, last)` fully covers the visible window.
pub proof fn lemma_no_gaps(extents: Seq<u64>, first: int, last: int, lo: int, hi: int, p: int)
    requires
        0 <= first <= last <= extents.len(),
        extent_sum(extents, first) <= lo,
        extent_sum(extents, last) >= hi,
        lo <= p < hi,
    ensures
        exists|i: int|
            first <= i < last && #[trigger] extent_sum(extents, i) <= p < extent_sum(
                extents,
                i + 1,
            ),
    decreases last - first,
{
    if p < extent_sum(extents, first + 1) {
        assert(first < last);
        assert(extent_sum(extents, first) <= p < extent_sum(extents, first + 1));
    } else {
        lemma_no_gaps(extents, first + 1, last, extent_sum(extents, first + 1), hi, p);
    }
}

/// The sum of `n` uniform extents is `n` times the extent.
proof fn lemma_uniform_extent_sum(extents: Seq<u64>, extent: u64, n: int)
    requires
        0 <= n <= extents.len(),
        forall|k: int| 0 <= k < extents.len() ==> extents[k] == extent,
    ensures
        extent_sum(extents, n) == n * extent,
    decreases n,
{
    if n > 0 {
        lemma_uniform_extent_sum(extents, extent, n - 1);
        assert(extents[n - 1] == extent);
        assert(extent_sum(extents, n) == extent_sum(extents, n - 1) + extent);
        assert(n * extent == (n - 1) * extent + extent) by (nonlinear_arith);
    } else {
        assert(n == 0);
        assert(0 * extent == 0);
    }
}

} // verus!
