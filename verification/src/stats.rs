//! The per-space cyclomatic statistic and its merge engine.
//!
//! A `Stats` value accumulates the complexity of one *space* (a lexical
//! program unit: file, function, class, closure) while that space is open,
//! and the sum/count/min/max summary of every space already finalized into
//! it. Merging two finalized summaries is commutative and associative, which
//! is what makes the file-level result independent of traversal order.

use vstd::prelude::*;

verus! {

use vstd::math::max;
use vstd::math::min;

/// The mathematical value of a [`Stats`] accumulator.
///
/// * `local`: complexity contributed by decision points directly inside the
///   accumulator's own space (baseline 1: the one linear path).
/// * `sum`: total of the local complexities of every finalized space merged
///   in so far.
/// * `count`: number of finalized spaces represented (the accumulator's own
///   space included, hence always at least 1 for reachable values).
/// * `max` / `min`: extrema of the local complexities of the finalized
///   spaces merged in so far; `max` starts at 0 and `min` at the sentinel
///   `u64::MAX`, the identities of the two fold operations.
pub struct StatsView {
    pub local: int,
    pub sum: int,
    pub count: int,
    pub max: int,
    pub min: int,
}

impl StatsView {
    /// The value every space starts from: one implicit linear path, no
    /// finalized space seen yet.
    pub open spec fn initial() -> StatsView {
        StatsView { local: 1, sum: 0, count: 1, max: 0, min: u64::MAX as int }
    }

    /// The merge engine: the summary of the union of the spaces summarized
    /// by `self` and `other`. The still-open `local` complexity is not part
    /// of a merge; the merged value keeps `self`'s.
    pub open spec fn merged(self, other: StatsView) -> StatsView {
        StatsView {
            local: self.local,
            sum: self.sum + other.sum,
            count: self.count + other.count,
            max: max(self.max, other.max),
            min: min(self.min, other.min),
        }
    }

    /// Finalizing a space: its own local complexity enters the extrema and
    /// the sum, the first and only time it does so.
    pub open spec fn finalized(self) -> StatsView {
        StatsView {
            local: self.local,
            sum: self.sum + self.local,
            count: self.count,
            max: max(self.max, self.local),
            min: min(self.min, self.local),
        }
    }

    /// One decision point attributed to the accumulator's own space.
    pub open spec fn incremented(self) -> StatsView {
        StatsView { local: self.local + 1, ..self }
    }
}

/// The cyclomatic-complexity statistic of one space.
///
/// All complexities are whole numbers: a space's local complexity is one
/// plus the number of decision points attributed to it, so the accumulator
/// stores exact unsigned integers; the exact rational average is exposed by
/// [`Stats::cyclomatic_average`] as a numerator/denominator pair.
#[derive(Debug, Clone, Copy)]
pub struct Stats {
    pub cyclomatic_sum: u64,
    pub cyclomatic: u64,
    pub n: u64,
    pub cyclomatic_max: u64,
    pub cyclomatic_min: u64,
}

impl View for Stats {
    type V = StatsView;

    open spec fn view(&self) -> StatsView {
        StatsView {
            local: self.cyclomatic as int,
            sum: self.cyclomatic_sum as int,
            count: self.n as int,
            max: self.cyclomatic_max as int,
            min: self.cyclomatic_min as int,
        }
    }
}

impl Default for Stats {
    /// A fresh space: local complexity 1, counting itself, extrema still at
    /// their fold identities (0 for `max`, the `u64::MAX` sentinel for
    /// `min`).
    fn default() -> (s: Stats)
        ensures
            s@ == StatsView::initial(),
    {
        Stats { cyclomatic_sum: 0, cyclomatic: 1, n: 1, cyclomatic_max: 0, cyclomatic_min: u64::MAX }
    }
}

impl Stats {
    /// Merges a second finalized `Cyclomatic` statistic into this one.
    pub fn merge(&mut self, other: &Stats)
        requires
            old(self)@.sum + other@.sum <= u64::MAX,
            old(self)@.count + other@.count <= u64::MAX,
        ensures
            final(self)@ == old(self)@.merged(other@),
    {
        self.cyclomatic_max = if self.cyclomatic_max >= other.cyclomatic_max {
            self.cyclomatic_max
        } else {
            other.cyclomatic_max
        };
        self.cyclomatic_min = if self.cyclomatic_min <= other.cyclomatic_min {
            self.cyclomatic_min
        } else {
            other.cyclomatic_min
        };
        self.cyclomatic_sum = self.cyclomatic_sum + other.cyclomatic_sum;
        self.n = self.n + other.n;
    }

    /// Records one decision point against this space's local complexity.
    pub(crate) fn increment(&mut self)
        requires
            old(self)@.local < u64::MAX,
        ensures
            final(self)@ == old(self)@.incremented(),
    {
        self.cyclomatic = self.cyclomatic + 1;
    }

    /// Returns the local `Cyclomatic` complexity of this space.
    pub fn cyclomatic(&self) -> (r: u64)
        ensures
            r == self@.local,
    {
        self.cyclomatic
    }

    /// Returns the sum of the local complexities of the finalized spaces.
    pub fn cyclomatic_sum(&self) -> (r: u64)
        ensures
            r == self@.sum,
    {
        self.cyclomatic_sum
    }

    /// Returns the number of finalized spaces represented.
    pub fn cyclomatic_count(&self) -> (r: u64)
        ensures
            r == self@.count,
    {
        self.n
    }

    /// Returns the `Cyclomatic` average as the exact rational
    /// `sum / count`: the numerator is the sum of the local complexities,
    /// the denominator the number of spaces, so the identity
    /// `average == sum / count` holds by construction for every
    /// accumulator.
    pub fn cyclomatic_average(&self) -> (r: (u64, u64))
        ensures
            r.0 == self@.sum,
            r.1 == self@.count,
    {
        (self.cyclomatic_sum, self.n)
    }

    /// Returns the largest local complexity among the finalized spaces.
    pub fn cyclomatic_max(&self) -> (r: u64)
        ensures
            r == self@.max,
    {
        self.cyclomatic_max
    }

    /// Returns the smallest local complexity among the finalized spaces
    /// (the `u64::MAX` sentinel while no space has been finalized).
    pub fn cyclomatic_min(&self) -> (r: u64)
        ensures
            r == self@.min,
    {
        self.cyclomatic_min
    }

    /// Adds this space's own local complexity into the running sum.
    pub(crate) fn compute_sum(&mut self)
        requires
            old(self)@.sum + old(self)@.local <= u64::MAX,
        ensures
            final(self)@ == (StatsView { sum: old(self)@.sum + old(self)@.local, ..old(self)@ }),
    {
        self.cyclomatic_sum = self.cyclomatic_sum + self.cyclomatic;
    }

    /// Finalizes this space: folds its own local complexity into the
    /// extrema, then into the sum.
    pub(crate) fn compute_minmax(&mut self)
        requires
            old(self)@.sum + old(self)@.local <= u64::MAX,
        ensures
            final(self)@ == old(self)@.finalized(),
    {
        self.cyclomatic_max = if self.cyclomatic_max >= self.cyclomatic {
            self.cyclomatic_max
        } else {
            self.cyclomatic
        };
        self.cyclomatic_min = if self.cyclomatic_min <= self.cyclomatic {
            self.cyclomatic_min
        } else {
            self.cyclomatic
        };
        self.compute_sum();
    }
}

/// Law: merging finalized statistics is commutative on the four aggregate
/// fields (`sum`, `count`, `max`, `min`). The still-open `local` field is
/// not part of a merge.
pub proof fn lemma_merge_commutative(a: StatsView, b: StatsView)
    ensures
        a.merged(b).sum == b.merged(a).sum,
        a.merged(b).count == b.merged(a).count,
        a.merged(b).max == b.merged(a).max,
        a.merged(b).min == b.merged(a).min,
{
}

/// Law: merging finalized statistics is associative.
pub proof fn lemma_merge_associative(a: StatsView, b: StatsView, c: StatsView)
    ensures
        a.merged(b).merged(c) == a.merged(b.merged(c)),
{
}

} // verus!
