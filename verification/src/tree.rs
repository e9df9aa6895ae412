//! The syntax-tree model consumed by the metric engine.
//!
//! Parsing is an external concern: a parser hands the engine an immutable
//! tree of nodes, each carrying a language-specific kind tag. The engine
//! reads nothing of a node but its kind and its children, so that is all a
//! node holds here.

use vstd::prelude::*;

verus! {

/// One node of a parsed syntax tree.
///
/// `K` is the node-kind vocabulary of one language; the vocabularies of
/// different grammars are deliberately kept as distinct types.
pub struct SyntaxNode<K> {
    pub kind: K,
    pub children: Vec<SyntaxNode<K>>,
}

/// Number of nodes in the subtree rooted at `n` (including `n` itself).
pub open spec fn size<K>(n: SyntaxNode<K>) -> nat
    decreases n,
{
    1 + size_seq(n.children@)
}

/// Number of nodes in a forest of sibling subtrees.
pub open spec fn size_seq<K>(s: Seq<SyntaxNode<K>>) -> nat
    decreases s,
{
    if s.len() == 0 {
        0
    } else {
        size(s[0]) + size_seq(s.drop_first())
    }
}

/// Walks upward through a chain of ancestor kinds (outermost first,
/// innermost last) and reports whether a kind satisfying `found` occurs
/// strictly closer to the start node than any kind satisfying `stop`.
///
/// This is the generic ancestor primitive behind context-sensitive
/// classification rules such as the Python loop-`else`.
pub open spec fn found_before_stop<K>(
    ancestors: Seq<K>,
    found: spec_fn(K) -> bool,
    stop: spec_fn(K) -> bool,
) -> bool
    decreases ancestors.len(),
{
    if ancestors.len() == 0 {
        false
    } else if found(ancestors.last()) {
        true
    } else if stop(ancestors.last()) {
        false
    } else {
        found_before_stop(ancestors.drop_last(), found, stop)
    }
}

} // verus!
