//! Histogram support for approximating the CDF of a random variable.
//!
//! A `Histogram` counts samples against a fixed, strictly increasing grid:
//! bucket `j` holds the samples lying in `(grid[j-1], grid[j]]` (the first
//! bucket reaches down from `grid[0]`, the overflow bucket catches
//! everything above the last grid point, NaNs included).  `total_below(i)`
//! is then the number of samples at or below `grid[i]`, so dividing it by
//! the sample count gives the empirical CDF on the grid.  The adaptive
//! approximation draws batches, compares two empirical CDFs pointwise in
//! floating point, and asks [`approx_step`] whether to accept the batch
//! size, compare again, or double it.

use vstd::prelude::*;

use crate::numeric::Real;

verus! {

/// Failure of `Histogram::new`.
#[derive(Clone, Copy, Debug, PartialEq, Eq, Structural)]
pub enum HistogramError {
    /// The grid was empty, held a NaN, or was not strictly increasing.
    BadGrid,
}

/// One decision of the adaptive CDF approximation: accept the batch size,
/// run another comparison at the same size, or double it.
#[derive(Clone, Copy, Debug, PartialEq, Eq, Structural)]
pub enum HistoDecision {
    /// All comparisons stayed within the error bound: the accumulated
    /// histogram stands.
    Accept,
    /// The comparison passed but more repetitions remain at this size.
    Retry,
    /// A comparison failed (or the last one was not strictly within the
    /// bound): draw afresh with `samples` per batch.
    Double {
        /// The doubled per-batch sample count.
        samples: usize,
    },
}

/// The grid is usable: non-empty, free of NaNs and strictly increasing.
pub open spec fn grid_ok(grid: Seq<Real>) -> bool {
    &&& grid.len() > 0
    &&& forall|i: int| 0 <= i < grid.len() ==> !(#[trigger] grid[i]).spec_is_nan()
    &&& forall|i: int| 0 <= i < grid.len() - 1 ==> (#[trigger] grid[i]).spec_lt(grid[i + 1])
}

/// The bucket a value falls into: the least `j` with `value <= grid[j]`,
/// or `grid.len()` for the overflow bucket.
pub open spec fn spec_bucket(grid: Seq<Real>, value: Real) -> int
    decreases grid.len(),
{
    if grid.len() == 0 {
        0
    } else if value.spec_le(grid[0]) {
        0
    } else {
        1 + spec_bucket(grid.drop_first(), value)
    }
}

/// The sum of the first `k` bucket counts.
pub open spec fn psum(s: Seq<u64>, k: int) -> int
    decreases k,
{
    if k <= 0 {
        0
    } else {
        psum(s, k - 1) + s[k - 1]
    }
}

/// The bucket index lies between 0 and the grid length.
pub proof fn lemma_bucket_range(grid: Seq<Real>, value: Real)
    ensures
        0 <= spec_bucket(grid, value) <= grid.len(),
    decreases grid.len(),
{
    if grid.len() > 0 && !value.spec_le(grid[0]) {
        lemma_bucket_range(grid.drop_first(), value);
    }
}

/// The bucket is the first grid index at or above the value: where the
/// scan passed `i` smaller bounds and stopped, the bucket is `i`.
proof fn lemma_bucket_is_first(grid: Seq<Real>, value: Real, i: int)
    requires
        0 <= i <= grid.len(),
        forall|k: int| 0 <= k < i ==> !value.spec_le(#[trigger] grid[k]),
        i < grid.len() ==> value.spec_le(grid[i]),
    ensures
        spec_bucket(grid, value) == i,
    decreases grid.len(),
{
    if grid.len() == 0 {
    } else if i == 0 {
    } else {
        assert(!value.spec_le(grid[0]));
        let rest = grid.drop_first();
        assert(forall|k: int| 0 <= k < i - 1 ==> !value.spec_le(#[trigger] rest[k]));
        lemma_bucket_is_first(rest, value, i - 1);
    }
}

/// Prefix sums only read the entries below their bound.
proof fn lemma_psum_congruent(s: Seq<u64>, t: Seq<u64>, k: int)
    requires
        forall|m: int| 0 <= m < k ==> s[m] == t[m],
    ensures
        psum(s, k) == psum(t, k),
    decreases k,
{
    if k > 0 {
        lemma_psum_congruent(s, t, k - 1);
    }
}

/// Prefix sums of unsigned counts grow with their bound.
pub proof fn lemma_psum_monotone(s: Seq<u64>, i: int, j: int)
    requires
        0 <= i <= j,
        j <= s.len(),
    ensures
        psum(s, i) <= psum(s, j),
    decreases j,
{
    if i < j {
        lemma_psum_monotone(s, i, j - 1);
    }
}

/// Every entry is at most the sum over the whole sequence.
proof fn lemma_entry_le_psum(s: Seq<u64>, j: int)
    requires
        0 <= j < s.len(),
    ensures
        s[j] <= psum(s, s.len() as int),
{
    lemma_psum_monotone(s, 0, j);
    lemma_psum_monotone(s, j + 1, s.len() as int);
}

/// Raising one entry raises exactly the prefix sums that read it.
proof fn lemma_psum_update(s: Seq<u64>, j: int, v: u64, k: int)
    requires
        0 <= j < s.len(),
        0 <= k <= s.len(),
    ensures
        psum(s.update(j, v), k) == (if k <= j {
            psum(s, k)
        } else {
            psum(s, k) + v - s[j]
        }),
    decreases k,
{
    if k > 0 {
        lemma_psum_update(s, j, v, k - 1);
    }
}

/// A pointwise sum of counts has the sum of the prefix sums.
proof fn lemma_psum_add(c: Seq<u64>, a: Seq<u64>, b: Seq<u64>, k: int)
    requires
        forall|m: int| 0 <= m < k ==> c[m] == a[m] + b[m],
    ensures
        psum(c, k) == psum(a, k) + psum(b, k),
    decreases k,
{
    if k > 0 {
        lemma_psum_add(c, a, b, k - 1);
    }
}

/// Cumulative counts of samples against a fixed grid.
pub struct Histogram {
    grid: Vec<Real>,
    counts: Vec<u64>,
    inserted: u64,
}

impl Histogram {
    /// The grid the histogram counts against.
    pub closed spec fn spec_grid(self) -> Seq<Real> {
        self.grid@
    }

    /// The bucket counts; one more bucket than grid points.
    pub closed spec fn spec_counts(self) -> Seq<u64> {
        self.counts@
    }

    /// How many samples have been inserted.
    pub closed spec fn spec_count(self) -> u64 {
        self.inserted
    }

    /// The histogram is well formed: a usable grid, one bucket count per
    /// grid interval plus the overflow bucket, and counts summing to the
    /// number of insertions.
    pub closed spec fn wf(self) -> bool {
        &&& grid_ok(self.grid@)
        &&& self.counts@.len() == self.grid@.len() + 1
        &&& psum(self.counts@, self.counts@.len() as int) == self.inserted as int
    }

    /// Builds an empty histogram over `grid`.
    ///
    /// Fails exactly when the grid is malformed: empty, holding a NaN, or
    /// not strictly increasing.
    pub fn new(grid: Vec<Real>) -> (r: Result<Histogram, HistogramError>)
        ensures
            r is Ok <==> grid_ok(grid@),
            r matches Ok(h) ==> {
                &&& h.wf()
                &&& h.spec_grid() == grid@
                &&& h.spec_count() == 0
                &&& forall|i: int| 0 <= i < h.spec_counts().len() ==> h.spec_counts()[i] == 0
            },
    {
        if grid.len() == 0 {
            return Err(HistogramError::BadGrid);
        }
        let n = grid.len();
        let mut i: usize = 0;
        while i < n
            invariant
                0 < n == grid.len(),
                i <= n,
                forall|k: int| 0 <= k < i ==> !(#[trigger] grid@[k]).spec_is_nan(),
                forall|k: int|
                    0 <= k < i && k < n - 1 ==> (#[trigger] grid@[k]).spec_lt(grid@[k + 1]),
            decreases n - i,
        {
            if grid[i].is_nan() {
                return Err(HistogramError::BadGrid);
            }
            if i + 1 < n {
                if !grid[i].lt(grid[i + 1]) {
                    return Err(HistogramError::BadGrid);
                }
            }
            i = i + 1;
        }
        let mut counts: Vec<u64> = Vec::new();
        counts.push(0);
        proof {
            assert(psum(counts@, 0) == 0);
            assert(psum(counts@, 1) == 0);
        }
        let mut j: usize = 0;
        while j < n
            invariant
                j + 1 == counts@.len(),
                j <= n,
                forall|k: int| 0 <= k < j + 1 ==> counts@[k] == 0,
                psum(counts@, j + 1) == 0,
            decreases n - j,
        {
            let ghost before = counts@;
            counts.push(0);
            proof {
                lemma_psum_congruent(counts@, before, j + 1);
            }
            j = j + 1;
        }
        Ok(Histogram { grid, counts, inserted: 0 })
    }

    /// The number of grid points.
    pub fn grid_len(&self) -> (r: usize)
        ensures
            r == self.spec_grid().len(),
    {
        self.grid.len()
    }

    /// The grid point at `i`.
    pub fn grid_value(&self, i: usize) -> (r: Real)
        requires
            i < self.spec_grid().len(),
        ensures
            r == self.spec_grid()[i as int],
    {
        self.grid[i]
    }

    /// How many samples have been inserted.
    pub fn count(&self) -> (r: u64)
        ensures
            r == self.spec_count(),
    {
        self.inserted
    }

    /// Counts one sample: the bucket of the first grid point at or above
    /// the value gains one (the overflow bucket where no grid point
    /// qualifies, in particular for a NaN sample).
    pub fn insert(&mut self, value: Real)
        requires
            old(self).wf(),
            old(self).spec_count() < u64::MAX,
        ensures
            final(self).wf(),
            final(self).spec_grid() == old(self).spec_grid(),
            final(self).spec_count() == old(self).spec_count() + 1,
            final(self).spec_counts() == old(self).spec_counts().update(
                spec_bucket(old(self).spec_grid(), value),
                (old(self).spec_counts()[spec_bucket(old(self).spec_grid(), value)] + 1) as u64,
            ),
    {
        let n = self.grid.len();
        let mut i: usize = 0;
        while i < n && !value.le(self.grid[i])
            invariant
                n == self.grid@.len(),
                i <= n,
                forall|k: int| 0 <= k < i ==> !value.spec_le(#[trigger] self.grid@[k]),
            decreases n - i,
        {
            i = i + 1;
        }
        proof {
            lemma_bucket_is_first(self.grid@, value, i as int);
            lemma_entry_le_psum(self.counts@, i as int);
        }
        let ghost before = self.counts@;
        let bumped = self.counts[i] + 1;
        self.counts[i] = bumped;
        self.inserted = self.inserted + 1;
        proof {
            lemma_psum_update(before, i as int, bumped, before.len() as int);
        }
    }

    /// The number of inserted samples at or below `grid[i]`: the sum of the
    /// first `i + 1` bucket counts.
    pub fn total_below(&self, i: usize) -> (r: u64)
        requires
            self.wf(),
            i < self.spec_grid().len(),
        ensures
            r as int == psum(self.spec_counts(), i + 1),
            r <= self.spec_count(),
    {
        let n = self.grid.len();
        let mut acc: u64 = 0;
        let mut j: usize = 0;
        while j < i + 1
            invariant
                self.wf(),
                i < n == self.spec_grid().len(),
                j <= i + 1,
                acc as int == psum(self.counts@, j as int),
                acc <= self.inserted,
            decreases i + 1 - j,
        {
            proof {
                lemma_psum_monotone(self.counts@, j as int + 1, self.counts@.len() as int);
            }
            acc = acc + self.counts[j];
            j = j + 1;
        }
        proof {
            lemma_psum_monotone(self.counts@, i + 1, self.counts@.len() as int);
        }
        acc
    }

    /// Absorbs another histogram over the same grid: bucket counts and
    /// sample counts add.
    pub fn merge(&mut self, other: &Histogram)
        requires
            old(self).wf(),
            other.wf(),
            other.spec_grid() == old(self).spec_grid(),
            old(self).spec_count() + other.spec_count() <= u64::MAX,
        ensures
            final(self).wf(),
            final(self).spec_grid() == old(self).spec_grid(),
            final(self).spec_count() == old(self).spec_count() + other.spec_count(),
            final(self).spec_counts().len() == old(self).spec_counts().len(),
            forall|k: int|
                0 <= k < final(self).spec_counts().len() ==> final(self).spec_counts()[k]
                    == old(self).spec_counts()[k] + other.spec_counts()[k],
    {
        let ghost mine = self.counts@;
        let n = self.counts.len();
        let mut j: usize = 0;
        while j < n
            invariant
                n == self.counts@.len() == mine.len() == other.counts@.len(),
                j <= n,
                psum(mine, n as int) == old(self).inserted as int,
                psum(other.counts@, n as int) == other.inserted as int,
                old(self).inserted + other.inserted <= u64::MAX,
                forall|k: int| 0 <= k < j ==> self.counts@[k] == mine[k] + other.counts@[k],
                forall|k: int| j <= k < n ==> self.counts@[k] == mine[k],
                self.grid@ == old(self).grid@,
                self.inserted == old(self).inserted,
            decreases n - j,
        {
            proof {
                lemma_entry_le_psum(mine, j as int);
                lemma_entry_le_psum(other.counts@, j as int);
                lemma_psum_monotone(mine, 0, n as int);
                lemma_psum_monotone(other.counts@, 0, n as int);
            }
            let merged = self.counts[j] + other.counts[j];
            self.counts[j] = merged;
            j = j + 1;
        }
        self.inserted = self.inserted + other.inserted;
        proof {
            lemma_psum_add(self.counts@, mine, other.counts@, n as int);
        }
    }
}

/// The decision [`approx_step`] makes.
pub open spec fn spec_approx_step(
    reps_left: usize,
    empirical_error: Real,
    error: Real,
    samples: usize,
) -> HistoDecision {
    if empirical_error.spec_gt(error) {
        HistoDecision::Double { samples: (samples * 2) as usize }
    } else if reps_left > 1 {
        HistoDecision::Retry
    } else if empirical_error.spec_lt(error) {
        HistoDecision::Accept
    } else {
        HistoDecision::Double { samples: (samples * 2) as usize }
    }
}

/// One decision of the adaptive CDF approximation, taken after a comparison
/// of two empirical CDFs with `reps_left` comparisons (this one included)
/// budgeted at the current size.
///
/// A comparison error above the bound abandons the batch size at once;
/// otherwise remaining repetitions are played out; after the last one the
/// size is accepted only if its error lay strictly within the bound (an
/// error exactly at the bound, or a NaN error, doubles — a NaN fails both
/// comparisons).
pub fn approx_step(reps_left: usize, empirical_error: Real, error: Real, samples: usize) -> (r:
    HistoDecision)
    requires
        samples <= usize::MAX / 2,
    ensures
        r == spec_approx_step(reps_left, empirical_error, error, samples),
{
    if empirical_error.gt(error) {
        HistoDecision::Double { samples: samples * 2 }
    } else if reps_left > 1 {
        HistoDecision::Retry
    } else if empirical_error.lt(error) {
        HistoDecision::Accept
    } else {
        HistoDecision::Double { samples: samples * 2 }
    }
}

/// The adaptive CDF approximation accepts a batch size only when the last
/// comparison of two independent empirical CDFs stayed strictly within the
/// error bound.
pub proof fn lemma_histogram_accept_within_error(
    reps_left: usize,
    empirical_error: Real,
    error: Real,
    samples: usize,
)
    requires
        spec_approx_step(reps_left, empirical_error, error, samples) is Accept,
    ensures
        empirical_error.spec_lt(error),
{
}

/// The empirical CDF a histogram reports is monotone: cumulative counts
/// never fall from one grid point to the next, and never pass the number
/// of samples inserted.
pub proof fn lemma_total_below_monotone(h: Histogram, i: int, j: int)
    requires
        h.wf(),
        0 <= i <= j < h.spec_grid().len(),
    ensures
        psum(h.spec_counts(), i + 1) <= psum(h.spec_counts(), j + 1),
        psum(h.spec_counts(), j + 1) <= h.spec_count() as int,
{
    lemma_psum_monotone(h.spec_counts(), i + 1, j + 1);
    lemma_psum_monotone(h.spec_counts(), j + 1, h.spec_counts().len() as int);
}

} // verus!
