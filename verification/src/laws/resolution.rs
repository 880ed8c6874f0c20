//! What holds of resolution: a path that one resource alone answers to
//! resolves to that resource, and a path that none answers to is reported.

use crate::api::{
    candidates, forest_matches, forest_nodes, nodes, path_matches, resolved, tree_matches,
    tree_nodes, ErrorView, ResourceView,
};
use crate::text::is_dot_suffix;
use vstd::prelude::*;

verus! {

/// Those of `rs` whose canonical path ends in `suffix`, in order.
pub open spec fn matching(rs: Seq<ResourceView>, suffix: Seq<char>) -> Seq<ResourceView>
    decreases rs.len(),
{
    if rs.len() == 0 {
        rs
    } else if path_matches(rs.last(), suffix) {
        matching(rs.drop_last(), suffix).push(rs.last())
    } else {
        matching(rs.drop_last(), suffix)
    }
}

proof fn lemma_matching_add(a: Seq<ResourceView>, b: Seq<ResourceView>, suffix: Seq<char>)
    ensures
        matching(a + b, suffix) == matching(a, suffix) + matching(b, suffix),
    decreases b.len(),
{
    if b.len() == 0 {
        assert(a + b =~= a);
        assert(matching(a, suffix) + matching(b, suffix) =~= matching(a, suffix));
    } else {
        assert((a + b).drop_last() =~= a + b.drop_last());
        assert((a + b).last() == b.last());
        lemma_matching_add(a, b.drop_last(), suffix);
        if path_matches(b.last(), suffix) {
            assert(matching(a, suffix) + matching(b.drop_last(), suffix).push(b.last())
                =~= (matching(a, suffix) + matching(b.drop_last(), suffix)).push(b.last()));
        }
    }
}

proof fn lemma_matching_one(r: ResourceView, suffix: Seq<char>)
    ensures
        matching(seq![r], suffix) == if path_matches(r, suffix) {
            seq![r]
        } else {
            Seq::empty()
        },
{
    let s = seq![r];
    assert(s.drop_last() =~= Seq::<ResourceView>::empty());
    assert(matching(s.drop_last(), suffix) =~= Seq::<ResourceView>::empty());
    assert(s.last() == r);
    if path_matches(r, suffix) {
        assert(Seq::<ResourceView>::empty().push(r) =~= seq![r]);
    }
}

/// The candidates of a resolution are the resources of the forest whose
/// canonical path ends in the suffix, in depth-first order.
pub proof fn lemma_matches_are_matching_nodes(rs: Seq<ResourceView>, n: nat, suffix: Seq<char>)
    ensures
        forest_matches(rs, n, suffix) == matching(forest_nodes(rs, n), suffix),
    decreases rs, n,
{
    if n == 0 || n > rs.len() {
        assert(matching(Seq::<ResourceView>::empty(), suffix) =~= Seq::<ResourceView>::empty());
    } else {
        lemma_matches_are_matching_nodes(rs, (n - 1) as nat, suffix);
        lemma_tree_matches_are_matching_nodes(rs[n - 1], suffix);
        lemma_matching_add(forest_nodes(rs, (n - 1) as nat), tree_nodes(rs[n - 1]), suffix);
    }
}

proof fn lemma_tree_matches_are_matching_nodes(r: ResourceView, suffix: Seq<char>)
    ensures
        tree_matches(r, suffix) == matching(tree_nodes(r), suffix),
    decreases r, 0nat,
{
    lemma_matching_one(r, suffix);
    match r.resources {
        Some(c) => {
            lemma_matches_are_matching_nodes(c, c.len(), suffix);
            lemma_matching_add(seq![r], forest_nodes(c, c.len()), suffix);
        },
        None => {},
    }
}

proof fn lemma_matching_none(rs: Seq<ResourceView>, suffix: Seq<char>)
    requires
        forall|j: int| 0 <= j < rs.len() ==> !path_matches(rs[j], suffix),
    ensures
        matching(rs, suffix) == Seq::<ResourceView>::empty(),
    decreases rs.len(),
{
    if rs.len() > 0 {
        assert forall|j: int| 0 <= j < rs.drop_last().len() implies !path_matches(
            rs.drop_last()[j],
            suffix,
        ) by {
            assert(rs.drop_last()[j] == rs[j]);
        }
        lemma_matching_none(rs.drop_last(), suffix);
    }
}

proof fn lemma_matching_only(rs: Seq<ResourceView>, suffix: Seq<char>, k: int)
    requires
        0 <= k < rs.len(),
        path_matches(rs[k], suffix),
        forall|j: int| 0 <= j < rs.len() && j != k ==> !path_matches(rs[j], suffix),
    ensures
        matching(rs, suffix) == seq![rs[k]],
    decreases rs.len(),
{
    let init = rs.drop_last();
    if k == rs.len() - 1 {
        assert forall|j: int| 0 <= j < init.len() implies !path_matches(init[j], suffix) by {
            assert(init[j] == rs[j]);
        }
        lemma_matching_none(init, suffix);
        assert(Seq::<ResourceView>::empty().push(rs.last()) =~= seq![rs[k]]);
    } else {
        assert(init[k] == rs[k]);
        assert forall|j: int| 0 <= j < init.len() && j != k implies !path_matches(
            init[j],
            suffix,
        ) by {
            assert(init[j] == rs[j]);
        }
        lemma_matching_only(init, suffix, k);
    }
}

/// A path given by a dot-aligned suffix resolves to the resource that has
/// it, when that is the only resource of the tree whose canonical path ends
/// so. `k` is the place of the resource among all resources of the forest.
pub proof fn lemma_unique_suffix_resolves(
    api_id: Seq<char>,
    forest: Seq<ResourceView>,
    suffix: Seq<char>,
    k: int,
)
    requires
        0 <= k < nodes(forest).len(),
        nodes(forest)[k].path matches Some(p) && is_dot_suffix(p, suffix),
        forall|j: int|
            0 <= j < nodes(forest).len() && j != k ==> !path_matches(nodes(forest)[j], suffix),
    ensures
        resolved(api_id, forest, suffix) == Ok::<ResourceView, ErrorView>(nodes(forest)[k]),
{
    lemma_matches_are_matching_nodes(forest, forest.len(), suffix);
    lemma_matching_only(nodes(forest), suffix, k);
    assert(candidates(forest, suffix) == seq![nodes(forest)[k]]);
    assert(seq![nodes(forest)[k]].len() == 1);
    assert(seq![nodes(forest)[k]][0] == nodes(forest)[k]);
}

/// Every path is a dot-aligned suffix of itself.
pub proof fn lemma_path_is_own_suffix(p: Seq<char>)
    ensures
        is_dot_suffix(p, p),
{
    assert(p.subrange(0, p.len() as int) =~= p);
}

/// The full canonical path of a resource resolves to that resource, when no
/// other resource of the tree has a canonical path that ends with it.
pub proof fn lemma_own_path_resolves(api_id: Seq<char>, forest: Seq<ResourceView>, k: int)
    requires
        0 <= k < nodes(forest).len(),
        nodes(forest)[k].path is Some,
        forall|j: int|
            0 <= j < nodes(forest).len() && j != k ==> !path_matches(
                nodes(forest)[j],
                nodes(forest)[k].path->0,
            ),
    ensures
        resolved(api_id, forest, nodes(forest)[k].path->0) == Ok::<ResourceView, ErrorView>(
            nodes(forest)[k],
        ),
{
    lemma_path_is_own_suffix(nodes(forest)[k].path->0);
    lemma_unique_suffix_resolves(api_id, forest, nodes(forest)[k].path->0, k);
}

/// A path that no resource has is reported as not found, whatever the
/// service.
pub proof fn lemma_missing_path_is_not_found(
    api_id: Seq<char>,
    forest: Seq<ResourceView>,
    suffix: Seq<char>,
)
    requires
        forall|j: int| 0 <= j < nodes(forest).len() ==> !path_matches(nodes(forest)[j], suffix),
    ensures
        resolved(api_id, forest, suffix) == Err::<ResourceView, ErrorView>(
            ErrorView::ResourceNotFound(suffix),
        ),
{
    lemma_matches_are_matching_nodes(forest, forest.len(), suffix);
    lemma_matching_none(nodes(forest), suffix);
}

} // verus!
