//! The decision classifier interface.
//!
//! Each supported language implements [`Cyclomatic`] for a marker type over
//! its own node-kind vocabulary. The classifier decides, from a node's kind
//! and at most its chain of ancestor kinds, whether the node is a decision
//! point of the innermost enclosing space, and whether it opens a space of
//! its own.

use vstd::prelude::*;

verus! {

use crate::stats::Stats;

/// The per-language `Cyclomatic` classifier.
///
/// `K` is the language's node-kind vocabulary. The two spec functions are
/// the language's rule; the two executable functions implement it exactly.
pub trait Cyclomatic<K> {
    /// Whether a node of kind `k`, under the ancestor kinds `ancestors`
    /// (outermost first, innermost last), is a decision point: it
    /// contributes +1 to the local complexity of its innermost enclosing
    /// space.
    spec fn spec_decision(k: K, ancestors: Seq<K>) -> bool;

    /// Whether a node of kind `k` introduces a new space (function, class
    /// or type, closure).
    spec fn spec_space(k: K) -> bool;

    /// Reports whether `k` opens a new space.
    fn is_space(k: &K) -> (r: bool)
        ensures
            r == Self::spec_space(*k),
    ;

    /// Classifies one node against the statistics of its innermost
    /// enclosing open space: a decision point increments that space's
    /// local complexity by exactly 1; any other node leaves it unchanged.
    /// No other field is touched.
    fn compute(k: &K, ancestors: &Vec<K>, stats: &mut Stats)
        requires
            old(stats)@.local < u64::MAX,
        ensures
            final(stats)@ == (if Self::spec_decision(*k, ancestors@) {
                old(stats)@.incremented()
            } else {
                old(stats)@
            }),
    ;
}

} // verus!
