//! What holds of the rewriting of method ids: no id is lost, neither when
//! the paths are inferred nor when the hierarchy is put together again.

use crate::api::{ApiView, ErrorView, MethodView, ResourceView};
use crate::laws::reassembly::{lemma_partition, lemma_sibling_at};
use crate::update::{
    grafted, grafted_into, parentless, reassembled, rebased, rebased_forest, rebased_methods,
    rebuilt, service_of, sibling_at, version_of, with_inferred_paths, with_parent,
};
use vstd::prelude::*;

verus! {

/// The methods of the first `n` trees of `rs`, in depth-first order, those
/// of a resource before those of what is nested in it.
pub open spec fn forest_methods(rs: Seq<ResourceView>, n: nat) -> Seq<MethodView>
    decreases rs, n,
{
    if n == 0 || n > rs.len() {
        Seq::empty()
    } else {
        forest_methods(rs, (n - 1) as nat) + tree_methods(rs[n - 1])
    }
}

/// The methods of the tree `r`.
pub open spec fn tree_methods(r: ResourceView) -> Seq<MethodView>
    decreases r, 0nat,
{
    match r.resources {
        Some(c) => r.methods + forest_methods(c, c.len()),
        None => r.methods,
    }
}

/// Method for method, `after` has as original id the id that `before` has,
/// and is otherwise the same but for its id.
pub open spec fn keeps_ids(before: Seq<MethodView>, after: Seq<MethodView>) -> bool {
    &&& after.len() == before.len()
    &&& forall|k: int|
        0 <= k < before.len() ==> {
            &&& (#[trigger] after[k]).original_id == Some(before[k].id)
            &&& after[k].name == before[k].name
            &&& after[k].flat_path == before[k].flat_path
            &&& after[k].http_method == before[k].http_method
            &&& after[k].query_params == before[k].query_params
            &&& after[k].request_data_schema == before[k].request_data_schema
        }
}

proof fn lemma_keeps_ids_add(
    a: Seq<MethodView>,
    b: Seq<MethodView>,
    c: Seq<MethodView>,
    d: Seq<MethodView>,
)
    requires
        keeps_ids(a, b),
        keeps_ids(c, d),
    ensures
        keeps_ids(a + c, b + d),
{
    assert forall|k: int| 0 <= k < (a + c).len() implies {
        &&& (#[trigger] (b + d)[k]).original_id == Some((a + c)[k].id)
        &&& (b + d)[k].name == (a + c)[k].name
        &&& (b + d)[k].flat_path == (a + c)[k].flat_path
        &&& (b + d)[k].http_method == (a + c)[k].http_method
        &&& (b + d)[k].query_params == (a + c)[k].query_params
        &&& (b + d)[k].request_data_schema == (a + c)[k].request_data_schema
    } by {
        if k < a.len() {
            assert((b + d)[k] == b[k]);
        } else {
            assert((b + d)[k] == d[k - a.len()]);
            assert((a + c)[k] == c[k - a.len()]);
        }
    }
}

/// Rewriting the ids of a tree loses none: every method of the rewritten
/// tree has as original id the id that it had before.
pub proof fn lemma_tree_rewriting_keeps_ids(
    service_name: Seq<char>,
    version: Seq<char>,
    r: ResourceView,
    inherited: Option<Seq<char>>,
)
    ensures
        keeps_ids(tree_methods(r), tree_methods(rebased(service_name, version, r, inherited))),
    decreases r, 0nat,
{
    let after = rebased(service_name, version, r, inherited);
    let path = after.path->0;
    assert(after.methods == rebased_methods(r.methods, path));
    assert(keeps_ids(r.methods, after.methods));
    match r.resources {
        Some(c) => {
            let rc = after.resources->0;
            lemma_children_rewriting_keeps_ids(service_name, version, c, rc, Some(path), c.len());
            lemma_keeps_ids_add(
                r.methods,
                after.methods,
                forest_methods(c, c.len()),
                forest_methods(rc, rc.len()),
            );
        },
        None => {},
    }
}

proof fn lemma_children_rewriting_keeps_ids(
    service_name: Seq<char>,
    version: Seq<char>,
    c: Seq<ResourceView>,
    rc: Seq<ResourceView>,
    inherited: Option<Seq<char>>,
    n: nat,
)
    requires
        n <= c.len(),
        rc.len() == c.len(),
        forall|i: int|
            0 <= i < c.len() ==> rc[i] == rebased(service_name, version, c[i], inherited),
    ensures
        keeps_ids(forest_methods(c, n), forest_methods(rc, n)),
    decreases c, n,
{
    if n > 0 {
        lemma_children_rewriting_keeps_ids(
            service_name,
            version,
            c,
            rc,
            inherited,
            (n - 1) as nat,
        );
        lemma_tree_rewriting_keeps_ids(service_name, version, c[n - 1], inherited);
        lemma_keeps_ids_add(
            forest_methods(c, (n - 1) as nat),
            forest_methods(rc, (n - 1) as nat),
            tree_methods(c[n - 1]),
            tree_methods(rc[n - 1]),
        );
    }
}

/// Inferring the paths of a service loses no id: every method of every
/// resource has as original id the id that it had immediately before, and
/// is otherwise unchanged but for its id.
pub proof fn lemma_rewriting_keeps_ids(
    service_name: Seq<char>,
    version: Seq<char>,
    forest: Seq<ResourceView>,
)
    ensures
        keeps_ids(
            forest_methods(forest, forest.len()),
            forest_methods(
                rebased_forest(service_name, version, forest),
                rebased_forest(service_name, version, forest).len(),
            ),
        ),
{
    lemma_children_rewriting_keeps_ids(
        service_name,
        version,
        forest,
        rebased_forest(service_name, version, forest),
        None,
        forest.len(),
    );
}

/// The method `m` is a method of some resource of the tree `r`.
pub open spec fn tree_has_method(r: ResourceView, m: MethodView) -> bool
    decreases r,
{
    r.methods.contains(m) || match r.resources {
        Some(c) => exists|j: int| 0 <= j < c.len() && tree_has_method(c[j], m),
        None => false,
    }
}

/// The method `m` is a method of some resource of the forest.
pub open spec fn has_method(forest: Seq<ResourceView>, m: MethodView) -> bool {
    exists|j: int| 0 <= j < forest.len() && tree_has_method(forest[j], m)
}

/// `after` is `before` with its id rewritten: it has the id of `before`
/// as its original id, and is otherwise the same but for its id.
pub open spec fn is_rewritten(before: MethodView, after: MethodView) -> bool {
    &&& after.original_id == Some(before.id)
    &&& after.name == before.name
    &&& after.flat_path == before.flat_path
    &&& after.http_method == before.http_method
    &&& after.query_params == before.query_params
    &&& after.request_data_schema == before.request_data_schema
}

proof fn lemma_rebased_methods_come_from(
    service_name: Seq<char>,
    version: Seq<char>,
    r: ResourceView,
    inherited: Option<Seq<char>>,
    m: MethodView,
)
    requires
        tree_has_method(rebased(service_name, version, r, inherited), m),
    ensures
        exists|before: MethodView| tree_has_method(r, before) && is_rewritten(before, m),
    decreases r,
{
    let after = rebased(service_name, version, r, inherited);
    let path = after.path->0;
    if after.methods.contains(m) {
        let i = choose|i: int| 0 <= i < after.methods.len() && after.methods[i] == m;
        assert(after.methods == rebased_methods(r.methods, path));
        assert(r.methods.contains(r.methods[i]));
        assert(tree_has_method(r, r.methods[i]) && is_rewritten(r.methods[i], m));
    } else {
        let c = r.resources->0;
        let rc = after.resources->0;
        let j = choose|j: int| 0 <= j < rc.len() && tree_has_method(rc[j], m);
        lemma_rebased_methods_come_from(service_name, version, c[j], Some(path), m);
        let before = choose|before: MethodView|
            tree_has_method(c[j], before) && is_rewritten(before, m);
        assert(tree_has_method(r, before) && is_rewritten(before, m));
    }
}

proof fn lemma_grafted_methods(rs: Seq<ResourceView>, from: int, child: ResourceView, m: MethodView)
    requires
        0 <= from,
        grafted(rs, from, child) is Some,
        has_method(grafted(rs, from, child)->0, m),
    ensures
        has_method(rs, m) || tree_has_method(child, m),
    decreases rs, rs.len() - from,
{
    let grown = grafted(rs, from, child)->0;
    match grafted_into(rs[from], child) {
        Some(node) => {
            let j = choose|j: int| 0 <= j < grown.len() && tree_has_method(grown[j], m);
            if j == from {
                lemma_grafted_into_methods(rs[from], child, m);
                if tree_has_method(rs[from], m) {
                    assert(has_method(rs, m));
                }
            } else {
                assert(grown[j] == rs[j]);
                assert(has_method(rs, m));
            }
        },
        None => {
            lemma_grafted_methods(rs, from + 1, child, m);
        },
    }
}

proof fn lemma_grafted_into_methods(node: ResourceView, child: ResourceView, m: MethodView)
    requires
        grafted_into(node, child) is Some,
        tree_has_method(grafted_into(node, child)->0, m),
    ensures
        tree_has_method(node, m) || tree_has_method(child, m),
    decreases node, 0int,
{
    let grown = grafted_into(node, child)->0;
    if !grown.methods.contains(m) {
        let after = grown.resources->0;
        let j = choose|j: int| 0 <= j < after.len() && tree_has_method(after[j], m);
        if node.path == child.parent_path {
            let kids = match node.resources {
                Some(c) => c,
                None => Seq::empty(),
            };
            match sibling_at(kids, child.path, 0) {
                Some(k) => {
                    lemma_sibling_at(kids, child.path, 0);
                    if j == k {
                        if after[k].methods.contains(m) {
                            let i = choose|i: int|
                                0 <= i < after[k].methods.len() && after[k].methods[i] == m;
                            if i < kids[k].methods.len() {
                                assert(kids[k].methods[i] == m);
                                assert(kids[k].methods.contains(m));
                                assert(tree_has_method(kids[k], m));
                            } else {
                                assert(child.methods[i - kids[k].methods.len()] == m);
                                assert(child.methods.contains(m));
                            }
                        } else {
                            assert(tree_has_method(kids[k], m));
                        }
                    } else {
                        assert(after[j] == kids[j]);
                    }
                    if !tree_has_method(child, m) {
                        assert(0 <= j < kids.len() && tree_has_method(kids[j], m));
                        assert(tree_has_method(node, m));
                    }
                },
                None => {
                    if j < kids.len() {
                        assert(after[j] == kids[j]);
                        assert(0 <= j < kids.len() && tree_has_method(kids[j], m));
                        assert(tree_has_method(node, m));
                    } else {
                        assert(after[j] == child);
                    }
                },
            }
        } else {
            let c = node.resources->0;
            assert(has_method(after, m));
            lemma_grafted_methods(c, 0, child, m);
            if has_method(c, m) {
                let i = choose|i: int| 0 <= i < c.len() && tree_has_method(c[i], m);
                assert(tree_has_method(node, m));
            }
        }
    }
}

proof fn lemma_reassembled_methods(
    forest: Seq<ResourceView>,
    pending: Seq<ResourceView>,
    misses: nat,
    m: MethodView,
)
    requires
        reassembled(forest, pending, misses) is Ok,
        has_method(reassembled(forest, pending, misses)->Ok_0, m),
    ensures
        has_method(forest, m) || has_method(pending, m),
    decreases pending.len(), pending.len() - misses,
{
    if pending.len() > 0 {
        let child = pending.last();
        let rest = pending.drop_last();
        match grafted(forest, 0, child) {
            Some(grown) => {
                lemma_reassembled_methods(grown, rest, 0, m);
                if has_method(grown, m) {
                    lemma_grafted_methods(forest, 0, child, m);
                    if tree_has_method(child, m) {
                        assert(tree_has_method(pending[pending.len() - 1], m));
                        assert(has_method(pending, m));
                    }
                } else {
                    let i = choose|i: int| 0 <= i < rest.len() && tree_has_method(rest[i], m);
                    assert(rest[i] == pending[i]);
                    assert(has_method(pending, m));
                }
            },
            None => {
                if misses + 1 < pending.len() {
                    let rotated = seq![child] + rest;
                    lemma_reassembled_methods(forest, rotated, misses + 1, m);
                    if has_method(rotated, m) {
                        let i = choose|i: int|
                            0 <= i < rotated.len() && tree_has_method(rotated[i], m);
                        if i == 0 {
                            assert(rotated[i] == pending[pending.len() - 1]);
                        } else {
                            assert(rotated[i] == pending[i - 1]);
                        }
                        assert(has_method(pending, m));
                    }
                }
            },
        }
    }
}

/// Rebuilding a hierarchy loses no id: every method of the rebuilt service
/// is a method of the service as it was, with its id rewritten and the id
/// that it had as its original id.
pub proof fn lemma_rebuilding_keeps_ids(a: ApiView, once: ApiView, m: MethodView)
    requires
        rebuilt(a) == Ok::<ApiView, ErrorView>(once),
        has_method(once.resources, m),
    ensures
        exists|before: MethodView| has_method(a.resources, before) && is_rewritten(before, m),
{
    let service_name = service_of(a.id);
    let version = version_of(a.id);
    let flat = with_inferred_paths(a).resources;
    let top = parentless(flat, flat.len());
    let pending = with_parent(flat, flat.len());
    lemma_partition(flat, flat.len());
    lemma_reassembled_methods(top, pending, 0, m);
    let at = if has_method(top, m) {
        let i = choose|i: int| 0 <= i < top.len() && tree_has_method(top[i], m);
        choose|j: int| 0 <= j < flat.len() && flat[j] == top[i] && flat[j].parent_path is None
    } else {
        let i = choose|i: int| 0 <= i < pending.len() && tree_has_method(pending[i], m);
        choose|j: int| 0 <= j < flat.len() && flat[j] == pending[i] && flat[j].parent_path is Some
    };
    assert(tree_has_method(flat[at], m));
    lemma_rebased_methods_come_from(service_name, version, a.resources[at], None, m);
    let before = choose|before: MethodView|
        tree_has_method(a.resources[at], before) && is_rewritten(before, m);
    assert(has_method(a.resources, before) && is_rewritten(before, m));
}

} // verus!
