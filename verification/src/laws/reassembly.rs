//! What holds of reassembly: merging loses no method, and a resource whose
//! parent never comes makes the reassembly fail instead of going on for
//! ever.

use crate::api::{ApiView, MethodView, ResourceView};
use crate::update::{
    adopted, grafted, grafted_into, parentless, reassembled, rebuilt, sibling_at,
    with_inferred_paths, with_more_methods, with_parent,
};
use vstd::prelude::*;

verus! {

/// Where a parent has a child of the same canonical path already, taking in
/// the child leaves the parent with as many children as before, and the one
/// of that path has its own methods followed by the child's: none is lost.
pub proof fn lemma_merge_keeps_methods(kids: Seq<ResourceView>, child: ResourceView, k: int)
    requires
        sibling_at(kids, child.path, 0) == Some(k),
    ensures
        0 <= k < kids.len(),
        kids[k].path == child.path,
        adopted(kids, child).len() == kids.len(),
        adopted(kids, child)[k].methods == kids[k].methods + child.methods,
        adopted(kids, child)[k].path == kids[k].path,
        forall|j: int| 0 <= j < kids.len() && j != k ==> adopted(kids, child)[j] == kids[j],
{
    lemma_sibling_at(kids, child.path, 0);
}

/// Where two resources come to the same canonical path under one parent,
/// the one that is there when the other is hung in keeps its place and has,
/// after its own methods, those of the other: the two merge, and no method
/// is lost.
pub proof fn lemma_graft_merges_methods(node: ResourceView, child: ResourceView, k: int)
    requires
        node.path == child.parent_path,
        node.resources matches Some(kids) && sibling_at(kids, child.path, 0) == Some(k),
    ensures
        grafted_into(node, child) matches Some(grown) && grown.resources matches Some(after) && {
            &&& after.len() == node.resources->0.len()
            &&& 0 <= k < after.len()
            &&& after[k].path == child.path
            &&& after[k].methods == node.resources->0[k].methods + child.methods
        },
{
    lemma_merge_keeps_methods(node.resources->0, child, k);
}

/// Where no child of a parent has the canonical path of the one taken in,
/// that one is added as it is, after the others.
pub proof fn lemma_adoption_appends(kids: Seq<ResourceView>, child: ResourceView)
    requires
        sibling_at(kids, child.path, 0) is None,
    ensures
        adopted(kids, child) == kids.push(child),
        forall|j: int| 0 <= j < kids.len() ==> kids[j].path != child.path,
{
    lemma_sibling_at(kids, child.path, 0);
}

/// The place found for a canonical path among the children of a parent is
/// the first that has it; where none is found, no child has it.
pub proof fn lemma_sibling_at(kids: Seq<ResourceView>, path: Option<Seq<char>>, from: int)
    requires
        0 <= from,
    ensures
        match sibling_at(kids, path, from) {
            Some(k) => from <= k < kids.len() && kids[k].path == path && forall|j: int|
                from <= j < k ==> kids[j].path != path,
            None => forall|j: int| from <= j < kids.len() ==> kids[j].path != path,
        },
    decreases kids.len() - from,
{
    if from < kids.len() && kids[from].path != path {
        lemma_sibling_at(kids, path, from + 1);
    }
}

/// Some resource of the tree `r` has the canonical path `p`.
pub open spec fn tree_has_path(r: ResourceView, p: Option<Seq<char>>) -> bool
    decreases r,
{
    r.path == p || match r.resources {
        Some(c) => exists|j: int| 0 <= j < c.len() && tree_has_path(c[j], p),
        None => false,
    }
}

/// Some resource of the forest has the canonical path `p`.
pub open spec fn has_path(forest: Seq<ResourceView>, p: Option<Seq<char>>) -> bool {
    exists|j: int| 0 <= j < forest.len() && tree_has_path(forest[j], p)
}

/// A resource finds a place in a forest exactly when some resource of the
/// forest has its parent path as canonical path.
pub proof fn lemma_grafted_iff_parent_present(
    rs: Seq<ResourceView>,
    from: int,
    child: ResourceView,
)
    requires
        0 <= from,
    ensures
        grafted(rs, from, child) is Some <==> exists|j: int|
            from <= j < rs.len() && tree_has_path(rs[j], child.parent_path),
    decreases rs, rs.len() - from,
{
    if from < rs.len() {
        lemma_grafted_into_iff_parent_present(rs[from], child);
        lemma_grafted_iff_parent_present(rs, from + 1, child);
        if grafted(rs, from, child) is Some {
            if grafted_into(rs[from], child) is Some {
                assert(tree_has_path(rs[from], child.parent_path));
            } else {
                let j = choose|j: int|
                    from + 1 <= j < rs.len() && tree_has_path(rs[j], child.parent_path);
                assert(from <= j < rs.len() && tree_has_path(rs[j], child.parent_path));
            }
        }
        if exists|j: int| from <= j < rs.len() && tree_has_path(rs[j], child.parent_path) {
            let j = choose|j: int| from <= j < rs.len() && tree_has_path(rs[j], child.parent_path);
            if j != from {
                assert(from + 1 <= j < rs.len() && tree_has_path(rs[j], child.parent_path));
            }
        }
    }
}

proof fn lemma_grafted_into_iff_parent_present(node: ResourceView, child: ResourceView)
    ensures
        grafted_into(node, child) is Some <==> tree_has_path(node, child.parent_path),
    decreases node, 0int,
{
    if node.path != child.parent_path {
        match node.resources {
            Some(c) => {
                lemma_grafted_iff_parent_present(c, 0, child);
            },
            None => {},
        }
    }
}

proof fn lemma_more_methods_same_paths(r: ResourceView, more: Seq<MethodView>, q: Option<Seq<char>>)
    ensures
        tree_has_path(with_more_methods(r, more), q) == tree_has_path(r, q),
{
}

proof fn lemma_grafted_paths(
    rs: Seq<ResourceView>,
    from: int,
    child: ResourceView,
    q: Option<Seq<char>>,
)
    requires
        0 <= from,
        grafted(rs, from, child) is Some,
        has_path(grafted(rs, from, child)->0, q),
    ensures
        has_path(rs, q) || tree_has_path(child, q),
    decreases rs, rs.len() - from,
{
    let grown = grafted(rs, from, child)->0;
    match grafted_into(rs[from], child) {
        Some(node) => {
            let j = choose|j: int| 0 <= j < grown.len() && tree_has_path(grown[j], q);
            if j == from {
                lemma_grafted_into_paths(rs[from], child, q);
                if tree_has_path(rs[from], q) {
                    assert(has_path(rs, q));
                }
            } else {
                assert(grown[j] == rs[j]);
                assert(has_path(rs, q));
            }
        },
        None => {
            lemma_grafted_paths(rs, from + 1, child, q);
        },
    }
}

proof fn lemma_grafted_into_paths(node: ResourceView, child: ResourceView, q: Option<Seq<char>>)
    requires
        grafted_into(node, child) is Some,
        tree_has_path(grafted_into(node, child)->0, q),
    ensures
        tree_has_path(node, q) || tree_has_path(child, q),
    decreases node, 0int,
{
    let grown = grafted_into(node, child)->0;
    if grown.path != q {
        let after = grown.resources->0;
        let j = choose|j: int| 0 <= j < after.len() && tree_has_path(after[j], q);
        if node.path == child.parent_path {
            let kids = match node.resources {
                Some(c) => c,
                None => Seq::empty(),
            };
            match sibling_at(kids, child.path, 0) {
                Some(k) => {
                    lemma_sibling_at(kids, child.path, 0);
                    lemma_more_methods_same_paths(kids[k], child.methods, q);
                    if j == k {
                        assert(tree_has_path(kids[k], q));
                    } else {
                        assert(after[j] == kids[j]);
                    }
                    assert(0 <= j < kids.len() && tree_has_path(kids[j], q));
                    assert(tree_has_path(node, q));
                },
                None => {
                    if j < kids.len() {
                        assert(after[j] == kids[j]);
                        assert(0 <= j < kids.len() && tree_has_path(kids[j], q));
                        assert(tree_has_path(node, q));
                    } else {
                        assert(after[j] == child);
                    }
                },
            }
        } else {
            let c = node.resources->0;
            assert(has_path(after, q));
            lemma_grafted_paths(c, 0, child, q);
            if has_path(c, q) {
                let i = choose|i: int| 0 <= i < c.len() && tree_has_path(c[i], q);
                assert(tree_has_path(node, q));
            }
        }
    }
}

/// Reassembly ends, and ends in failure where a pending resource has a
/// parent path that no resource has, neither in the forest nor among the
/// pending ones and what is nested in them: whatever is placed before it,
/// its parent never comes.
pub proof fn lemma_orphan_fails(
    forest: Seq<ResourceView>,
    pending: Seq<ResourceView>,
    misses: nat,
    k: int,
)
    requires
        0 <= k < pending.len(),
        misses < pending.len(),
        !has_path(forest, pending[k].parent_path),
        !has_path(pending, pending[k].parent_path),
    ensures
        reassembled(forest, pending, misses) matches Err(e)
            && e is StructuralInconsistency,
    decreases pending.len(), pending.len() - misses,
{
    let child = pending.last();
    let q = pending[k].parent_path;
    let rest = pending.drop_last();
    lemma_grafted_iff_parent_present(forest, 0, child);
    match grafted(forest, 0, child) {
        Some(grown) => {
            let j = choose|j: int| 0 <= j < forest.len() && tree_has_path(forest[j], child.parent_path);
            assert(has_path(forest, child.parent_path));
            assert(k < pending.len() - 1);
            assert(rest[k] == pending[k]);
            if has_path(grown, q) {
                lemma_grafted_paths(forest, 0, child, q);
                assert(tree_has_path(pending[pending.len() - 1], q));
                assert(has_path(pending, q));
            }
            if has_path(rest, q) {
                let i = choose|i: int| 0 <= i < rest.len() && tree_has_path(rest[i], q);
                assert(rest[i] == pending[i]);
                assert(has_path(pending, q));
            }
            lemma_orphan_fails(grown, rest, 0, k);
        },
        None => {
            if misses + 1 < pending.len() {
                let rotated = seq![child] + rest;
                let at = if k == pending.len() - 1 {
                    0
                } else {
                    k + 1
                };
                assert(rotated[at] == pending[k]);
                if has_path(rotated, q) {
                    let i = choose|i: int| 0 <= i < rotated.len() && tree_has_path(rotated[i], q);
                    if i == 0 {
                        assert(rotated[i] == pending[pending.len() - 1]);
                    } else {
                        assert(rotated[i] == pending[i - 1]);
                    }
                    assert(has_path(pending, q));
                }
                lemma_orphan_fails(forest, rotated, misses + 1, at);
            }
        },
    }
}

/// What becomes of a flat forest: the resources that name a parent wait to
/// be placed, the others stand at the top, and every resource is one or
/// the other; where none names a parent, all stand at the top as they are.
pub proof fn lemma_partition(rs: Seq<ResourceView>, n: nat)
    requires
        n <= rs.len(),
    ensures
        forall|i: int|
            0 <= i < with_parent(rs, n).len() ==> exists|j: int|
                0 <= j < n && rs[j] == #[trigger] with_parent(rs, n)[i] && rs[j].parent_path
                    is Some,
        forall|i: int|
            0 <= i < parentless(rs, n).len() ==> exists|j: int|
                0 <= j < n && rs[j] == #[trigger] parentless(rs, n)[i] && rs[j].parent_path
                    is None,
        (forall|j: int| 0 <= j < n ==> (#[trigger] rs[j]).parent_path is None) ==> with_parent(
            rs,
            n,
        ).len() == 0 && parentless(rs, n) == rs.subrange(0, n as int),
    decreases n,
{
    if n > 0 {
        lemma_partition(rs, (n - 1) as nat);
        let waiting = with_parent(rs, (n - 1) as nat);
        let w = with_parent(rs, n);
        let standing = parentless(rs, (n - 1) as nat);
        let p = parentless(rs, n);
        assert forall|i: int| 0 <= i < w.len() implies exists|j: int|
            0 <= j < n && rs[j] == #[trigger] w[i] && rs[j].parent_path is Some by {
            if i < waiting.len() {
                assert(w[i] == waiting[i]);
                let j = choose|j: int|
                    0 <= j < n - 1 && rs[j] == waiting[i] && rs[j].parent_path is Some;
                assert(0 <= j < n && rs[j] == w[i] && rs[j].parent_path is Some);
            } else {
                assert(rs[n - 1] == w[i] && rs[n - 1].parent_path is Some);
            }
        }
        assert forall|i: int| 0 <= i < p.len() implies exists|j: int|
            0 <= j < n && rs[j] == #[trigger] p[i] && rs[j].parent_path is None by {
            if i < standing.len() {
                assert(p[i] == standing[i]);
                let j = choose|j: int|
                    0 <= j < n - 1 && rs[j] == standing[i] && rs[j].parent_path is None;
                assert(0 <= j < n && rs[j] == p[i] && rs[j].parent_path is None);
            } else {
                assert(rs[n - 1] == p[i] && rs[n - 1].parent_path is None);
            }
        }
        if forall|j: int| 0 <= j < n ==> (#[trigger] rs[j]).parent_path is None {
            assert(rs[n - 1].parent_path is None);
            assert(p =~= rs.subrange(0, n as int));
        }
    } else {
        assert(parentless(rs, n) =~= rs.subrange(0, 0));
    }
}

/// A resource that names a parent is among those that wait to be placed.
pub proof fn lemma_named_parent_waits(rs: Seq<ResourceView>, n: nat, j: int)
    requires
        0 <= j < n <= rs.len(),
        rs[j].parent_path is Some,
    ensures
        exists|i: int| 0 <= i < with_parent(rs, n).len() && with_parent(rs, n)[i] == rs[j],
    decreases n,
{
    let w = with_parent(rs, n);
    if j < n - 1 {
        lemma_named_parent_waits(rs, (n - 1) as nat, j);
        let waiting = with_parent(rs, (n - 1) as nat);
        let i = choose|i: int| 0 <= i < waiting.len() && waiting[i] == rs[j];
        assert(0 <= i < w.len() && w[i] == rs[j]);
    } else {
        assert(0 <= w.len() - 1 < w.len() && w[w.len() - 1] == rs[j]);
    }
}

/// Rebuilding fails with a structural inconsistency where, once the paths
/// are inferred, a resource has a parent path that is the canonical path of
/// no resource of the service.
pub proof fn lemma_rebuilding_fails_on_orphan(a: ApiView, k: int)
    requires
        0 <= k < with_inferred_paths(a).resources.len(),
        with_inferred_paths(a).resources[k].parent_path is Some,
        !has_path(
            with_inferred_paths(a).resources,
            with_inferred_paths(a).resources[k].parent_path,
        ),
    ensures
        rebuilt(a) matches Err(e) && e is StructuralInconsistency,
{
    let flat = with_inferred_paths(a).resources;
    let q = flat[k].parent_path;
    let pending = with_parent(flat, flat.len());
    let top = parentless(flat, flat.len());
    lemma_partition(flat, flat.len());
    lemma_named_parent_waits(flat, flat.len(), k);
    let at = choose|i: int| 0 <= i < pending.len() && pending[i] == flat[k];
    if has_path(top, q) {
        let i = choose|i: int| 0 <= i < top.len() && tree_has_path(top[i], q);
        let j = choose|j: int|
            0 <= j < flat.len() && flat[j] == top[i] && flat[j].parent_path is None;
        assert(has_path(flat, q));
    }
    if has_path(pending, q) {
        let i = choose|i: int| 0 <= i < pending.len() && tree_has_path(pending[i], q);
        let j = choose|j: int|
            0 <= j < flat.len() && flat[j] == pending[i] && flat[j].parent_path is Some;
        assert(has_path(flat, q));
    }
    lemma_orphan_fails(top, pending, 0, at);
}

} // verus!
