//! The space-tree builder.
//!
//! [`metrics`] walks one parsed file depth-first, opens a space for every
//! space-introducing construct, routes each node to the language's decision
//! classifier for the innermost open space, finalizes spaces in post-order
//! and merges each finalized space into its parent, and returns the
//! file-level (unit-space) aggregate.
//!
//! The specification is split in two layers. Recursive spec functions
//! ([`attributed`], [`local_of`], [`space_locals`]) say which decision
//! points belong to which space and what every space's local complexity is;
//! [`visit_effect`] states the effect of a whole subtree on an accumulator
//! in closed form over those functions. [`lemma_metrics_closed_form`] and
//! [`lemma_order_independence`] then show that the file-level aggregate is
//! exactly a fold of the per-space local complexities, so it cannot depend
//! on the order in which spaces are traversed or merged.

use vstd::prelude::*;

verus! {

use vstd::math::max;
use vstd::math::min;
use crate::classify::Cyclomatic;
use crate::stats::Stats;
use crate::stats::StatsView;
use crate::tree::SyntaxNode;
use crate::tree::size;
use crate::tree::size_seq;

/// Number of decision points in the subtree of `n` that are attributed to
/// the innermost space enclosing `n`. If `n` opens a space of its own,
/// nothing below it reaches the enclosing space: every decision point
/// inside belongs to `n`'s space or to one nested deeper.
pub open spec fn attributed<C: Cyclomatic<K>, K>(n: SyntaxNode<K>, anc: Seq<K>) -> nat
    decreases n,
{
    if C::spec_space(n.kind) {
        0
    } else {
        (if C::spec_decision(n.kind, anc) {
            1nat
        } else {
            0nat
        }) + attributed_seq::<C, K>(n.children@, anc.push(n.kind))
    }
}

/// [`attributed`] summed over a forest of sibling subtrees.
pub open spec fn attributed_seq<C: Cyclomatic<K>, K>(s: Seq<SyntaxNode<K>>, anc: Seq<K>) -> nat
    decreases s,
{
    if s.len() == 0 {
        0
    } else {
        attributed::<C, K>(s[0], anc) + attributed_seq::<C, K>(s.drop_first(), anc)
    }
}

/// The local complexity of the space opened by a space-introducing node
/// `n`: the baseline 1 (one linear path), plus `n`'s own decision point if
/// its kind is also a decision kind, plus every decision point below `n`
/// attributed to this space rather than to a deeper one.
pub open spec fn local_of<C: Cyclomatic<K>, K>(n: SyntaxNode<K>, anc: Seq<K>) -> nat {
    1 + (if C::spec_decision(n.kind, anc) {
        1nat
    } else {
        0nat
    }) + attributed_seq::<C, K>(n.children@, anc.push(n.kind))
}

/// The local complexities of every space opened inside the subtree of `n`
/// (`n`'s own space included if `n` opens one), in the order the builder
/// finalizes them: children first, then `n` itself.
pub open spec fn space_locals<C: Cyclomatic<K>, K>(n: SyntaxNode<K>, anc: Seq<K>) -> Seq<int>
    decreases n,
{
    if C::spec_space(n.kind) {
        space_locals_seq::<C, K>(n.children@, anc.push(n.kind)) + seq![local_of::<C, K>(n, anc) as int]
    } else {
        space_locals_seq::<C, K>(n.children@, anc.push(n.kind))
    }
}

/// [`space_locals`] concatenated over a forest of sibling subtrees.
pub open spec fn space_locals_seq<C: Cyclomatic<K>, K>(s: Seq<SyntaxNode<K>>, anc: Seq<K>) -> Seq<int>
    decreases s,
{
    if s.len() == 0 {
        Seq::empty()
    } else {
        space_locals::<C, K>(s[0], anc) + space_locals_seq::<C, K>(s.drop_first(), anc)
    }
}

/// Sum of a sequence of local complexities.
pub open spec fn sum_of(s: Seq<int>) -> int
    decreases s.len(),
{
    if s.len() == 0 {
        0
    } else {
        s[0] + sum_of(s.drop_first())
    }
}

/// Maximum of `m` and every element of `s`.
pub open spec fn fold_max(m: int, s: Seq<int>) -> int
    decreases s.len(),
{
    if s.len() == 0 {
        m
    } else {
        fold_max(max(m, s[0]), s.drop_first())
    }
}

/// Minimum of `m` and every element of `s`.
pub open spec fn fold_min(m: int, s: Seq<int>) -> int
    decreases s.len(),
{
    if s.len() == 0 {
        m
    } else {
        fold_min(min(m, s[0]), s.drop_first())
    }
}

/// The effect of visiting the whole subtree of `n` on the accumulator of
/// the innermost enclosing open space: the decision points attributed
/// outward raise its local complexity, and every space finalized inside is
/// folded into its aggregate fields.
pub open spec fn visit_effect<C: Cyclomatic<K>, K>(
    v: StatsView,
    n: SyntaxNode<K>,
    anc: Seq<K>,
) -> StatsView {
    StatsView {
        local: v.local + attributed::<C, K>(n, anc),
        sum: v.sum + sum_of(space_locals::<C, K>(n, anc)),
        count: v.count + space_locals::<C, K>(n, anc).len(),
        max: fold_max(v.max, space_locals::<C, K>(n, anc)),
        min: fold_min(v.min, space_locals::<C, K>(n, anc)),
    }
}

/// The file-level aggregate for one parsed file: the synthetic unit space
/// starts from the default accumulator, absorbs the whole tree, and is
/// finalized last.
pub open spec fn spec_metrics<C: Cyclomatic<K>, K>(root: SyntaxNode<K>) -> StatsView {
    visit_effect::<C, K>(StatsView::initial(), root, Seq::empty()).finalized()
}

/// The local complexities of every space of a file: the spaces of the
/// tree in finalization order, then the file's own unit space.
pub open spec fn all_locals<C: Cyclomatic<K>, K>(root: SyntaxNode<K>) -> Seq<int> {
    space_locals::<C, K>(root, Seq::empty()) + seq![
        1 + attributed::<C, K>(root, Seq::empty()) as int
    ]
}

proof fn lemma_sum_singleton(x: int)
    ensures
        sum_of(seq![x]) == x,
{
    assert(seq![x].drop_first() =~= Seq::<int>::empty());
    assert(sum_of(Seq::<int>::empty()) == 0);
}

proof fn lemma_fold_max_singleton(m: int, x: int)
    ensures
        fold_max(m, seq![x]) == max(m, x),
{
    assert(seq![x].drop_first() =~= Seq::<int>::empty());
    assert(fold_max(max(m, x), Seq::<int>::empty()) == max(m, x));
}

proof fn lemma_fold_min_singleton(m: int, x: int)
    ensures
        fold_min(m, seq![x]) == min(m, x),
{
    assert(seq![x].drop_first() =~= Seq::<int>::empty());
    assert(fold_min(min(m, x), Seq::<int>::empty()) == min(m, x));
}

proof fn lemma_sum_concat(a: Seq<int>, b: Seq<int>)
    ensures
        sum_of(a + b) == sum_of(a) + sum_of(b),
    decreases a.len(),
{
    if a.len() == 0 {
        assert(a + b =~= b);
    } else {
        assert((a + b).drop_first() =~= a.drop_first() + b);
        lemma_sum_concat(a.drop_first(), b);
    }
}

proof fn lemma_fold_max_concat(m: int, a: Seq<int>, b: Seq<int>)
    ensures
        fold_max(m, a + b) == fold_max(fold_max(m, a), b),
    decreases a.len(),
{
    if a.len() == 0 {
        assert(a + b =~= b);
    } else {
        assert((a + b).drop_first() =~= a.drop_first() + b);
        lemma_fold_max_concat(max(m, a[0]), a.drop_first(), b);
    }
}

proof fn lemma_fold_min_concat(m: int, a: Seq<int>, b: Seq<int>)
    ensures
        fold_min(m, a + b) == fold_min(fold_min(m, a), b),
    decreases a.len(),
{
    if a.len() == 0 {
        assert(a + b =~= b);
    } else {
        assert((a + b).drop_first() =~= a.drop_first() + b);
        lemma_fold_min_concat(min(m, a[0]), a.drop_first(), b);
    }
}

proof fn lemma_fold_max_join(m1: int, m2: int, s: Seq<int>)
    ensures
        fold_max(max(m1, m2), s) == max(m1, fold_max(m2, s)),
    decreases s.len(),
{
    if s.len() > 0 {
        assert(max(max(m1, m2), s[0]) == max(m1, max(m2, s[0])));
        lemma_fold_max_join(m1, max(m2, s[0]), s.drop_first());
    }
}

proof fn lemma_fold_min_join(m1: int, m2: int, s: Seq<int>)
    ensures
        fold_min(min(m1, m2), s) == min(m1, fold_min(m2, s)),
    decreases s.len(),
{
    if s.len() > 0 {
        assert(min(min(m1, m2), s[0]) == min(m1, min(m2, s[0])));
        lemma_fold_min_join(m1, min(m2, s[0]), s.drop_first());
    }
}

proof fn lemma_size_seq_push<K>(s: Seq<SyntaxNode<K>>, x: SyntaxNode<K>)
    ensures
        size_seq(s.push(x)) == size_seq(s) + size(x),
    decreases s.len(),
{
    if s.len() == 0 {
        assert(s.push(x).drop_first() =~= Seq::<SyntaxNode<K>>::empty());
        assert(s.push(x)[0] == x);
        assert(size_seq(Seq::<SyntaxNode<K>>::empty()) == 0);
    } else {
        assert(s.push(x).drop_first() =~= s.drop_first().push(x));
        assert(s.push(x)[0] == s[0]);
        lemma_size_seq_push(s.drop_first(), x);
    }
}

proof fn lemma_attributed_seq_push<C: Cyclomatic<K>, K>(
    s: Seq<SyntaxNode<K>>,
    x: SyntaxNode<K>,
    anc: Seq<K>,
)
    ensures
        attributed_seq::<C, K>(s.push(x), anc) == attributed_seq::<C, K>(s, anc) + attributed::<
            C,
            K,
        >(x, anc),
    decreases s.len(),
{
    if s.len() == 0 {
        assert(s.push(x).drop_first() =~= Seq::<SyntaxNode<K>>::empty());
        assert(s.push(x)[0] == x);
        assert(attributed_seq::<C, K>(Seq::empty(), anc) == 0);
    } else {
        assert(s.push(x).drop_first() =~= s.drop_first().push(x));
        assert(s.push(x)[0] == s[0]);
        lemma_attributed_seq_push::<C, K>(s.drop_first(), x, anc);
    }
}

proof fn lemma_space_locals_seq_push<C: Cyclomatic<K>, K>(
    s: Seq<SyntaxNode<K>>,
    x: SyntaxNode<K>,
    anc: Seq<K>,
)
    ensures
        space_locals_seq::<C, K>(s.push(x), anc) == space_locals_seq::<C, K>(s, anc)
            + space_locals::<C, K>(x, anc),
    decreases s.len(),
{
    if s.len() == 0 {
        assert(s.push(x).drop_first() =~= Seq::<SyntaxNode<K>>::empty());
        assert(s.push(x)[0] == x);
        assert(space_locals_seq::<C, K>(Seq::empty(), anc) =~= Seq::<int>::empty());
        assert(space_locals_seq::<C, K>(s, anc) + space_locals::<C, K>(x, anc) =~= space_locals::<
            C,
            K,
        >(x, anc) + space_locals_seq::<C, K>(Seq::empty(), anc));
    } else {
        assert(s.push(x).drop_first() =~= s.drop_first().push(x));
        assert(s.push(x)[0] == s[0]);
        lemma_space_locals_seq_push::<C, K>(s.drop_first(), x, anc);
        assert((space_locals::<C, K>(s[0], anc) + space_locals_seq::<C, K>(s.drop_first(), anc))
            + space_locals::<C, K>(x, anc) =~= space_locals::<C, K>(s[0], anc)
            + (space_locals_seq::<C, K>(s.drop_first(), anc) + space_locals::<C, K>(x, anc)));
    }
}

proof fn lemma_size_seq_prefix_le<K>(s: Seq<SyntaxNode<K>>, j: int)
    requires
        0 <= j <= s.len(),
    ensures
        size_seq(s.subrange(0, j)) <= size_seq(s),
    decreases s.len() - j,
{
    if j == s.len() {
        assert(s.subrange(0, j) =~= s);
    } else {
        assert(s.subrange(0, j + 1) =~= s.subrange(0, j).push(s[j]));
        lemma_size_seq_push(s.subrange(0, j), s[j]);
        lemma_size_seq_prefix_le(s, j + 1);
    }
}

/// The combined bound that keeps the accumulator within `u64`: decision
/// points and finalized spaces together cannot outnumber two per node.
proof fn lemma_subtree_bounds<C: Cyclomatic<K>, K>(n: SyntaxNode<K>, anc: Seq<K>)
    ensures
        attributed::<C, K>(n, anc) + sum_of(space_locals::<C, K>(n, anc)) + space_locals::<C, K>(
            n,
            anc,
        ).len() <= 3 * size(n),
        0 <= sum_of(space_locals::<C, K>(n, anc)),
    decreases size(n), 0int,
{
    lemma_subtree_bounds_seq::<C, K>(n.children@, anc.push(n.kind));
    if C::spec_space(n.kind) {
        let ls = space_locals_seq::<C, K>(n.children@, anc.push(n.kind));
        let l = local_of::<C, K>(n, anc) as int;
        lemma_sum_concat(ls, seq![l]);
        lemma_sum_singleton(l);
    }
}

proof fn lemma_subtree_bounds_seq<C: Cyclomatic<K>, K>(s: Seq<SyntaxNode<K>>, anc: Seq<K>)
    ensures
        attributed_seq::<C, K>(s, anc) + sum_of(space_locals_seq::<C, K>(s, anc))
            + space_locals_seq::<C, K>(s, anc).len() <= 3 * size_seq(s),
        0 <= sum_of(space_locals_seq::<C, K>(s, anc)),
    decreases size_seq(s), 1int,
{
    if s.len() > 0 {
        lemma_subtree_bounds::<C, K>(s[0], anc);
        lemma_subtree_bounds_seq::<C, K>(s.drop_first(), anc);
        lemma_sum_concat(
            space_locals::<C, K>(s[0], anc),
            space_locals_seq::<C, K>(s.drop_first(), anc),
        );
    }
}

/// Visits the forest of sibling subtrees `children`, attributing decision
/// points to the space accumulated in `stats` and folding every space
/// finalized inside into `stats`'s aggregate fields.
fn visit_seq<C: Cyclomatic<K>, K: Copy>(
    children: &Vec<SyntaxNode<K>>,
    path: &mut Vec<K>,
    stats: &mut Stats,
)
    requires
        old(stats)@.local + 3 * size_seq(children@) <= u64::MAX,
        old(stats)@.sum + 3 * size_seq(children@) <= u64::MAX,
        old(stats)@.count + 3 * size_seq(children@) <= u64::MAX,
    ensures
        final(path)@ == old(path)@,
        final(stats)@.local == old(stats)@.local + attributed_seq::<C, K>(
            children@,
            old(path)@,
        ),
        final(stats)@.sum == old(stats)@.sum + sum_of(
            space_locals_seq::<C, K>(children@, old(path)@),
        ),
        final(stats)@.count == old(stats)@.count + space_locals_seq::<C, K>(
            children@,
            old(path)@,
        ).len(),
        final(stats)@.max == fold_max(
            old(stats)@.max,
            space_locals_seq::<C, K>(children@, old(path)@),
        ),
        final(stats)@.min == fold_min(
            old(stats)@.min,
            space_locals_seq::<C, K>(children@, old(path)@),
        ),
    decreases size_seq(children@), 1int,
{
    let ghost anc = path@;
    let ghost v0 = stats@;
    let mut i: usize = 0;
    while i < children.len()
        invariant
            0 <= i <= children@.len(),
            path@ == anc,
            v0.local + 3 * size_seq(children@) <= u64::MAX,
            v0.sum + 3 * size_seq(children@) <= u64::MAX,
            v0.count + 3 * size_seq(children@) <= u64::MAX,
            stats@.local == v0.local + attributed_seq::<C, K>(
                children@.subrange(0, i as int),
                anc,
            ),
            stats@.sum == v0.sum + sum_of(
                space_locals_seq::<C, K>(children@.subrange(0, i as int), anc),
            ),
            stats@.count == v0.count + space_locals_seq::<C, K>(
                children@.subrange(0, i as int),
                anc,
            ).len(),
            stats@.max == fold_max(
                v0.max,
                space_locals_seq::<C, K>(children@.subrange(0, i as int), anc),
            ),
            stats@.min == fold_min(
                v0.min,
                space_locals_seq::<C, K>(children@.subrange(0, i as int), anc),
            ),
        decreases children@.len() - i,
    {
        let ghost prefix = children@.subrange(0, i as int);
        proof {
            assert(children@.subrange(0, i as int + 1) =~= prefix.push(children@[i as int]));
            lemma_size_seq_push(prefix, children@[i as int]);
            lemma_size_seq_prefix_le(children@, i as int + 1);
            lemma_subtree_bounds_seq::<C, K>(prefix, anc);
        }
        visit::<C, K>(&children[i], path, stats);
        proof {
            lemma_attributed_seq_push::<C, K>(prefix, children@[i as int], anc);
            lemma_space_locals_seq_push::<C, K>(prefix, children@[i as int], anc);
            lemma_sum_concat(
                space_locals_seq::<C, K>(prefix, anc),
                space_locals::<C, K>(children@[i as int], anc),
            );
            lemma_fold_max_concat(
                v0.max,
                space_locals_seq::<C, K>(prefix, anc),
                space_locals::<C, K>(children@[i as int], anc),
            );
            lemma_fold_min_concat(
                v0.min,
                space_locals_seq::<C, K>(prefix, anc),
                space_locals::<C, K>(children@[i as int], anc),
            );
        }
        i = i + 1;
    }
    proof {
        assert(children@.subrange(0, children@.len() as int) =~= children@);
    }
}

/// Visits one node: opens a space if the node introduces one, classifies
/// the node for the innermost open space, descends into the children, and
/// finalizes and merges the opened space in post-order.
fn visit<C: Cyclomatic<K>, K: Copy>(n: &SyntaxNode<K>, path: &mut Vec<K>, stats: &mut Stats)
    requires
        old(stats)@.local + 3 * size(*n) <= u64::MAX,
        old(stats)@.sum + 3 * size(*n) <= u64::MAX,
        old(stats)@.count + 3 * size(*n) <= u64::MAX,
    ensures
        final(path)@ == old(path)@,
        final(stats)@ == visit_effect::<C, K>(old(stats)@, *n, old(path)@),
    decreases size(*n), 0int,
{
    let ghost anc = path@;
    let ghost child_anc = anc.push(n.kind);
    let ghost ls = space_locals_seq::<C, K>(n.children@, child_anc);
    if C::is_space(&n.kind) {
        let mut inner = Stats::default();
        proof {
            lemma_subtree_bounds_seq::<C, K>(n.children@, child_anc);
        }
        C::compute(&n.kind, path, &mut inner);
        path.push(n.kind);
        visit_seq::<C, K>(&n.children, path, &mut inner);
        let _closed = path.pop();
        proof {
            assert(inner@.local == local_of::<C, K>(*n, anc));
        }
        inner.compute_minmax();
        stats.merge(&inner);
        proof {
            let l = local_of::<C, K>(*n, anc) as int;
            assert(space_locals::<C, K>(*n, anc) == ls + seq![l]);
            lemma_sum_concat(ls, seq![l]);
            lemma_sum_singleton(l);
            lemma_fold_max_concat(old(stats)@.max, ls, seq![l]);
            lemma_fold_max_singleton(fold_max(old(stats)@.max, ls), l);
            lemma_fold_max_join(old(stats)@.max, 0, ls);
            assert(max(old(stats)@.max, 0) == old(stats)@.max);
            lemma_fold_min_concat(old(stats)@.min, ls, seq![l]);
            lemma_fold_min_singleton(fold_min(old(stats)@.min, ls), l);
            lemma_fold_min_join(old(stats)@.min, u64::MAX as int, ls);
            assert(min(old(stats)@.min, u64::MAX as int) == old(stats)@.min);
        }
    } else {
        C::compute(&n.kind, path, stats);
        path.push(n.kind);
        proof {
            lemma_subtree_bounds_seq::<C, K>(n.children@, child_anc);
        }
        visit_seq::<C, K>(&n.children, path, stats);
        let _closed = path.pop();
    }
}

/// Computes the `Cyclomatic` metric of one parsed file.
///
/// The returned accumulator is the finalized unit space: `sum`, `count`,
/// `max` and `min` summarize the local complexity of every space of the
/// file, the unit space itself included, and the exact average is
/// `sum / count`.
pub fn metrics<C: Cyclomatic<K>, K: Copy>(root: &SyntaxNode<K>) -> (r: Stats)
    requires
        3 * size(*root) + 2 <= u64::MAX,
    ensures
        r@ == spec_metrics::<C, K>(*root),
{
    let mut unit = Stats::default();
    let mut path: Vec<K> = Vec::new();
    proof {
        lemma_subtree_bounds::<C, K>(*root, Seq::empty());
    }
    visit::<C, K>(root, &mut path, &mut unit);
    unit.compute_minmax();
    unit
}

proof fn lemma_sum_remove(s: Seq<int>, j: int)
    requires
        0 <= j < s.len(),
    ensures
        sum_of(s) == s[j] + sum_of(s.remove(j)),
    decreases j,
{
    if j == 0 {
        assert(s.remove(0) =~= s.drop_first());
    } else {
        assert(s.remove(j).drop_first() =~= s.drop_first().remove(j - 1));
        assert(s.remove(j)[0] == s[0]);
        lemma_sum_remove(s.drop_first(), j - 1);
    }
}

proof fn lemma_fold_max_remove(m: int, s: Seq<int>, j: int)
    requires
        0 <= j < s.len(),
    ensures
        fold_max(m, s) == fold_max(max(m, s[j]), s.remove(j)),
    decreases j,
{
    if j == 0 {
        assert(s.remove(0) =~= s.drop_first());
    } else {
        assert(s.remove(j).drop_first() =~= s.drop_first().remove(j - 1));
        assert(s.remove(j)[0] == s[0]);
        assert(max(max(m, s[0]), s[j]) == max(max(m, s[j]), s[0]));
        lemma_fold_max_remove(max(m, s[0]), s.drop_first(), j - 1);
    }
}

proof fn lemma_fold_min_remove(m: int, s: Seq<int>, j: int)
    requires
        0 <= j < s.len(),
    ensures
        fold_min(m, s) == fold_min(min(m, s[j]), s.remove(j)),
    decreases j,
{
    if j == 0 {
        assert(s.remove(0) =~= s.drop_first());
    } else {
        assert(s.remove(j).drop_first() =~= s.drop_first().remove(j - 1));
        assert(s.remove(j)[0] == s[0]);
        assert(min(min(m, s[0]), s[j]) == min(min(m, s[j]), s[0]));
        lemma_fold_min_remove(min(m, s[0]), s.drop_first(), j - 1);
    }
}

proof fn lemma_sum_permutation(a: Seq<int>, b: Seq<int>)
    requires
        a.to_multiset() == b.to_multiset(),
    ensures
        sum_of(a) == sum_of(b),
    decreases a.len(),
{
    broadcast use vstd::seq_lib::group_to_multiset_ensures;

    if a.len() == 0 {
        assert(a.to_multiset().len() == a.len());
        assert(b.to_multiset().len() == b.len());
    } else {
        let x = a[0];
        assert(a.to_multiset().count(x) > 0);
        assert(b.contains(x));
        let j = choose|j: int| 0 <= j < b.len() && b[j] == x;
        assert(a.remove(0) =~= a.drop_first());
        assert(a.drop_first().to_multiset() == b.remove(j).to_multiset());
        lemma_sum_permutation(a.drop_first(), b.remove(j));
        lemma_sum_remove(b, j);
    }
}

proof fn lemma_fold_max_permutation(m: int, a: Seq<int>, b: Seq<int>)
    requires
        a.to_multiset() == b.to_multiset(),
    ensures
        fold_max(m, a) == fold_max(m, b),
    decreases a.len(),
{
    broadcast use vstd::seq_lib::group_to_multiset_ensures;

    if a.len() == 0 {
        assert(a.to_multiset().len() == a.len());
        assert(b.to_multiset().len() == b.len());
    } else {
        let x = a[0];
        assert(a.to_multiset().count(x) > 0);
        assert(b.contains(x));
        let j = choose|j: int| 0 <= j < b.len() && b[j] == x;
        assert(a.remove(0) =~= a.drop_first());
        assert(a.drop_first().to_multiset() == b.remove(j).to_multiset());
        lemma_fold_max_permutation(max(m, x), a.drop_first(), b.remove(j));
        lemma_fold_max_remove(m, b, j);
    }
}

proof fn lemma_fold_min_permutation(m: int, a: Seq<int>, b: Seq<int>)
    requires
        a.to_multiset() == b.to_multiset(),
    ensures
        fold_min(m, a) == fold_min(m, b),
    decreases a.len(),
{
    broadcast use vstd::seq_lib::group_to_multiset_ensures;

    if a.len() == 0 {
        assert(a.to_multiset().len() == a.len());
        assert(b.to_multiset().len() == b.len());
    } else {
        let x = a[0];
        assert(a.to_multiset().count(x) > 0);
        assert(b.contains(x));
        let j = choose|j: int| 0 <= j < b.len() && b[j] == x;
        assert(a.remove(0) =~= a.drop_first());
        assert(a.drop_first().to_multiset() == b.remove(j).to_multiset());
        lemma_fold_min_permutation(min(m, x), a.drop_first(), b.remove(j));
        lemma_fold_min_remove(m, b, j);
    }
}

proof fn lemma_fold_max_ge_base(m: int, s: Seq<int>)
    ensures
        fold_max(m, s) >= m,
    decreases s.len(),
{
    if s.len() > 0 {
        lemma_fold_max_ge_base(max(m, s[0]), s.drop_first());
    }
}

proof fn lemma_fold_min_le_base(m: int, s: Seq<int>)
    ensures
        fold_min(m, s) <= m,
    decreases s.len(),
{
    if s.len() > 0 {
        lemma_fold_min_le_base(min(m, s[0]), s.drop_first());
    }
}

proof fn lemma_fold_max_ge_element(m: int, s: Seq<int>, i: int)
    requires
        0 <= i < s.len(),
    ensures
        fold_max(m, s) >= s[i],
    decreases i,
{
    if i == 0 {
        lemma_fold_max_ge_base(max(m, s[0]), s.drop_first());
    } else {
        lemma_fold_max_ge_element(max(m, s[0]), s.drop_first(), i - 1);
    }
}

proof fn lemma_fold_min_le_element(m: int, s: Seq<int>, i: int)
    requires
        0 <= i < s.len(),
    ensures
        fold_min(m, s) <= s[i],
    decreases i,
{
    if i == 0 {
        lemma_fold_min_le_base(min(m, s[0]), s.drop_first());
    } else {
        lemma_fold_min_le_element(min(m, s[0]), s.drop_first(), i - 1);
    }
}

proof fn lemma_fold_min_lower(b: int, m: int, s: Seq<int>)
    requires
        m >= b,
        forall|i: int| 0 <= i < s.len() ==> s[i] >= b,
    ensures
        fold_min(m, s) >= b,
    decreases s.len(),
{
    if s.len() > 0 {
        assert(s[0] >= b);
        assert(forall|i: int| 0 <= i < s.drop_first().len() ==> s.drop_first()[i] == s[i + 1]);
        lemma_fold_min_lower(b, min(m, s[0]), s.drop_first());
    }
}

proof fn lemma_locals_at_least_one<C: Cyclomatic<K>, K>(n: SyntaxNode<K>, anc: Seq<K>)
    ensures
        forall|i: int|
            0 <= i < space_locals::<C, K>(n, anc).len() ==> #[trigger] space_locals::<C, K>(
                n,
                anc,
            )[i] >= 1,
    decreases size(n), 0int,
{
    let lsc = space_locals_seq::<C, K>(n.children@, anc.push(n.kind));
    lemma_locals_seq_at_least_one::<C, K>(n.children@, anc.push(n.kind));
    assert forall|i: int| 0 <= i < space_locals::<C, K>(n, anc).len() implies #[trigger] space_locals::<
        C,
        K,
    >(n, anc)[i] >= 1 by {
        if C::spec_space(n.kind) {
            if i < lsc.len() {
                assert(space_locals::<C, K>(n, anc)[i] == lsc[i]);
            } else {
                assert(space_locals::<C, K>(n, anc)[i] == local_of::<C, K>(n, anc) as int);
            }
        } else {
            assert(space_locals::<C, K>(n, anc)[i] == lsc[i]);
        }
    }
}

proof fn lemma_locals_seq_at_least_one<C: Cyclomatic<K>, K>(s: Seq<SyntaxNode<K>>, anc: Seq<K>)
    ensures
        forall|i: int|
            0 <= i < space_locals_seq::<C, K>(s, anc).len() ==> #[trigger] space_locals_seq::<
                C,
                K,
            >(s, anc)[i] >= 1,
    decreases size_seq(s), 1int,
{
    if s.len() > 0 {
        let a = space_locals::<C, K>(s[0], anc);
        let b = space_locals_seq::<C, K>(s.drop_first(), anc);
        lemma_locals_at_least_one::<C, K>(s[0], anc);
        lemma_locals_seq_at_least_one::<C, K>(s.drop_first(), anc);
        assert forall|i: int|
            0 <= i < space_locals_seq::<C, K>(s, anc).len() implies #[trigger] space_locals_seq::<
            C,
            K,
        >(s, anc)[i] >= 1 by {
            if i < a.len() {
                assert(space_locals_seq::<C, K>(s, anc)[i] == a[i]);
            } else {
                assert(space_locals_seq::<C, K>(s, anc)[i] == b[i - a.len()]);
            }
        }
    }
}

/// Law: the file-level aggregate is a well-formed summary. It represents
/// at least one space (the unit space always finalizes), so the average
/// `sum / count` is well defined; its minimum no longer holds the
/// sentinel but a real local complexity, at least the baseline 1 and no
/// larger than its maximum.
pub proof fn lemma_metrics_well_formed<C: Cyclomatic<K>, K>(root: SyntaxNode<K>)
    ensures
        spec_metrics::<C, K>(root).count >= 1,
        1 <= spec_metrics::<C, K>(root).min,
        spec_metrics::<C, K>(root).min <= spec_metrics::<C, K>(root).max,
{
    lemma_metrics_closed_form::<C, K>(root);
    let all = all_locals::<C, K>(root);
    let last = all.len() - 1;
    lemma_fold_min_le_element(u64::MAX as int, all, last);
    lemma_fold_max_ge_element(0, all, last);
    assert(fold_min(u64::MAX as int, all) <= fold_max(0, all));
    lemma_locals_at_least_one::<C, K>(root, Seq::empty());
    let ls = space_locals::<C, K>(root, Seq::empty());
    assert(forall|i: int| 0 <= i < all.len() ==> all[i] >= 1) by {
        assert(forall|i: int| 0 <= i < ls.len() ==> all[i] == #[trigger] ls[i]);
        assert(all[ls.len() as int] >= 1);
    }
    lemma_fold_min_lower(1, u64::MAX as int, all);
}

/// Law (order independence): two files whose spaces carry the same
/// collection of local complexities — wherever those spaces sit in either
/// tree, and in whatever order a traversal respecting parent/child
/// nesting finalizes them — get identical file-level `sum`, `count`,
/// `max` and `min` (and hence the same average `sum / count`).
pub proof fn lemma_order_independence<C: Cyclomatic<K>, K>(a: SyntaxNode<K>, b: SyntaxNode<K>)
    requires
        all_locals::<C, K>(a).to_multiset() == all_locals::<C, K>(b).to_multiset(),
    ensures
        spec_metrics::<C, K>(a).sum == spec_metrics::<C, K>(b).sum,
        spec_metrics::<C, K>(a).count == spec_metrics::<C, K>(b).count,
        spec_metrics::<C, K>(a).max == spec_metrics::<C, K>(b).max,
        spec_metrics::<C, K>(a).min == spec_metrics::<C, K>(b).min,
{
    broadcast use vstd::seq_lib::group_to_multiset_ensures;

    lemma_metrics_closed_form::<C, K>(a);
    lemma_metrics_closed_form::<C, K>(b);
    assert(all_locals::<C, K>(a).to_multiset().len() == all_locals::<C, K>(a).len());
    assert(all_locals::<C, K>(b).to_multiset().len() == all_locals::<C, K>(b).len());
    lemma_sum_permutation(all_locals::<C, K>(a), all_locals::<C, K>(b));
    lemma_fold_max_permutation(0, all_locals::<C, K>(a), all_locals::<C, K>(b));
    lemma_fold_min_permutation(u64::MAX as int, all_locals::<C, K>(a), all_locals::<C, K>(b));
}

/// Law: a space none of whose content is classified as a decision point
/// has local complexity exactly 1, the baseline of one linear path.
pub proof fn lemma_baseline<C: Cyclomatic<K>, K>(n: SyntaxNode<K>, anc: Seq<K>)
    requires
        !C::spec_decision(n.kind, anc),
        attributed_seq::<C, K>(n.children@, anc.push(n.kind)) == 0,
    ensures
        local_of::<C, K>(n, anc) == 1,
{
}

/// Law: the file-level aggregate is exactly a fold of the local
/// complexities of the file's spaces — `sum` their total, `count` their
/// number, `max` and `min` their extrema (folded from the identities 0 and
/// the `u64::MAX` sentinel). Where a space sits in the tree, and in which
/// order spaces are finalized, cannot influence the result.
pub proof fn lemma_metrics_closed_form<C: Cyclomatic<K>, K>(root: SyntaxNode<K>)
    ensures
        spec_metrics::<C, K>(root).sum == sum_of(all_locals::<C, K>(root)),
        spec_metrics::<C, K>(root).count == all_locals::<C, K>(root).len(),
        spec_metrics::<C, K>(root).max == fold_max(0, all_locals::<C, K>(root)),
        spec_metrics::<C, K>(root).min == fold_min(u64::MAX as int, all_locals::<C, K>(root)),
{
    let ls = space_locals::<C, K>(root, Seq::empty());
    let u = 1 + attributed::<C, K>(root, Seq::empty()) as int;
    lemma_sum_concat(ls, seq![u]);
    lemma_sum_singleton(u);
    lemma_fold_max_concat(0, ls, seq![u]);
    lemma_fold_max_singleton(fold_max(0, ls), u);
    lemma_fold_min_concat(u64::MAX as int, ls, seq![u]);
    lemma_fold_min_singleton(fold_min(u64::MAX as int, ls), u);
}

} // verus!
