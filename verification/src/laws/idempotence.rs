//! What holds of rebuilding a hierarchy that was rebuilt already: the tree
//! stays as it is, and only the original ids of the methods move on to the
//! ids that the first rebuilding gave.

use crate::api::{ApiView, ErrorView, MethodView, ResourceView};
use crate::laws::reassembly::{lemma_partition, lemma_sibling_at};
use crate::text::dotted;
use crate::update::{
    first_usable, grafted, grafted_into, parent_resources, parentless, reassembled, rebased,
    rebased_methods, rebuilt, service_of, sibling_at, version_of, with_inferred_paths,
    with_more_methods, with_parent, with_resources,
};
use vstd::prelude::*;

verus! {

/// The id of every method is the path `p`, a dot, and the method's name.
pub open spec fn ids_follow_path(ms: Seq<MethodView>, p: Seq<char>) -> bool {
    forall|k: int| 0 <= k < ms.len() ==> (#[trigger] ms[k]).id == dotted(p, ms[k].name)
}

/// The resource `c` lies directly under the path `p`, and says so.
pub open spec fn hangs_under(c: ResourceView, p: Seq<char>) -> bool {
    c.parent_path == Some(p) && c.path == Some(dotted(p, c.name))
}

/// The tree is consistent in itself: every resource has a canonical path,
/// the ids of its methods lie under that path, and what is nested in it
/// lies under that path too.
pub open spec fn settled(r: ResourceView) -> bool
    decreases r,
{
    &&& r.path is Some
    &&& ids_follow_path(r.methods, r.path->0)
    &&& match r.resources {
        Some(c) => forall|j: int|
            0 <= j < c.len() ==> hangs_under(#[trigger] c[j], r.path->0) && settled(c[j]),
        None => true,
    }
}

/// A consistent tree that names the path under which it belongs.
pub open spec fn placeable(c: ResourceView) -> bool {
    c.parent_path is Some && hangs_under(c, c.parent_path->0) && settled(c)
}

/// A consistent tree that belongs at the top level of the service: it names
/// no parent, lies directly under the service, and the URL templates of its
/// methods imply no ancestors.
pub open spec fn rooted(service_name: Seq<char>, version: Seq<char>, r: ResourceView) -> bool {
    &&& r.parent_path is None
    &&& r.path == Some(dotted(service_name, r.name))
    &&& parent_resources(service_name, version, r.name, r.methods).len() == 0
    &&& settled(r)
}

/// The method with its present id as its original id.
pub open spec fn remarked_method(m: MethodView) -> MethodView {
    MethodView {
        id: m.id,
        original_id: Some(m.id),
        name: m.name,
        flat_path: m.flat_path,
        http_method: m.http_method,
        query_params: m.query_params,
        request_data_schema: m.request_data_schema,
    }
}

/// The tree with, for every method, its present id as its original id.
pub open spec fn remarked(r: ResourceView) -> ResourceView
    decreases r,
{
    ResourceView {
        name: r.name,
        parent_path: r.parent_path,
        path: r.path,
        methods: Seq::new(r.methods.len(), |i: int| remarked_method(r.methods[i])),
        resources: match r.resources {
            Some(c) => Some(
                Seq::new(
                    c.len(),
                    |i: int|
                        if 0 <= i < c.len() {
                            remarked(c[i])
                        } else {
                            arbitrary()
                        },
                ),
            ),
            None => None,
        },
    }
}

/// The forest with, for every method, its present id as its original id.
pub open spec fn remarked_forest(rs: Seq<ResourceView>) -> Seq<ResourceView> {
    Seq::new(rs.len(), |i: int| remarked(rs[i]))
}

/// Every method of the tree has its present id as its original id.
pub open spec fn marked(r: ResourceView) -> bool
    decreases r,
{
    &&& forall|k: int|
        0 <= k < r.methods.len() ==> (#[trigger] r.methods[k]).original_id == Some(r.methods[k].id)
    &&& match r.resources {
        Some(c) => forall|j: int| 0 <= j < c.len() ==> marked(#[trigger] c[j]),
        None => true,
    }
}

proof fn lemma_first_usable_by_paths(
    service_name: Seq<char>,
    version: Seq<char>,
    name: Seq<char>,
    a: Seq<MethodView>,
    b: Seq<MethodView>,
    from: int,
)
    requires
        a.len() == b.len(),
        forall|k: int| 0 <= k < a.len() ==> a[k].flat_path == b[k].flat_path,
    ensures
        first_usable(service_name, version, name, a, from) == first_usable(
            service_name,
            version,
            name,
            b,
            from,
        ),
    decreases a.len() - from,
{
    if 0 <= from < a.len() {
        lemma_first_usable_by_paths(service_name, version, name, a, b, from + 1);
    }
}

/// Inferring paths gives consistent trees: one that is nested lies under
/// what it inherits; one that is not either names the parent under which it
/// belongs or belongs at the top level.
pub proof fn lemma_rebased_is_settled(
    service_name: Seq<char>,
    version: Seq<char>,
    r0: ResourceView,
    inherited: Option<Seq<char>>,
)
    ensures
        ({
            let r = rebased(service_name, version, r0, inherited);
            &&& settled(r)
            &&& r.name == r0.name
            &&& inherited matches Some(p) ==> hangs_under(r, p)
            &&& inherited is None && r.parent_path is Some ==> placeable(r)
            &&& inherited is None && r.parent_path is None ==> rooted(service_name, version, r)
        }),
    decreases r0,
{
    let r = rebased(service_name, version, r0, inherited);
    let path = r.path->0;
    assert(r.methods == rebased_methods(r0.methods, path));
    assert(ids_follow_path(r.methods, path));
    match r0.resources {
        Some(c) => {
            let rc = r.resources->0;
            assert forall|j: int| 0 <= j < rc.len() implies hangs_under(#[trigger] rc[j], path)
                && settled(rc[j]) by {
                lemma_rebased_is_settled(service_name, version, c[j], Some(path));
            }
        },
        None => {},
    }
    assert(settled(r));
    if inherited is None {
        lemma_first_usable_by_paths(service_name, version, r0.name, r0.methods, r.methods, 0);
        assert(parent_resources(service_name, version, r.name, r.methods) == parent_resources(
            service_name,
            version,
            r0.name,
            r0.methods,
        ));
    }
}

proof fn lemma_graft_keeps_settled(rs: Seq<ResourceView>, from: int, child: ResourceView)
    requires
        0 <= from,
        placeable(child),
        forall|j: int| 0 <= j < rs.len() ==> settled(#[trigger] rs[j]),
        grafted(rs, from, child) is Some,
    ensures
        ({
            let g = grafted(rs, from, child)->0;
            &&& g.len() == rs.len()
            &&& forall|j: int|
                0 <= j < rs.len() ==> {
                    &&& settled(#[trigger] g[j])
                    &&& g[j].name == rs[j].name
                    &&& g[j].path == rs[j].path
                    &&& g[j].parent_path == rs[j].parent_path
                    &&& g[j].methods == rs[j].methods
                }
        }),
    decreases rs, rs.len() - from,
{
    match grafted_into(rs[from], child) {
        Some(node) => {
            lemma_graft_into_keeps_settled(rs[from], child);
        },
        None => {
            lemma_graft_keeps_settled(rs, from + 1, child);
        },
    }
}

proof fn lemma_graft_into_keeps_settled(node: ResourceView, child: ResourceView)
    requires
        placeable(child),
        settled(node),
        grafted_into(node, child) is Some,
    ensures
        ({
            let g = grafted_into(node, child)->0;
            &&& settled(g)
            &&& g.name == node.name
            &&& g.path == node.path
            &&& g.parent_path == node.parent_path
            &&& g.methods == node.methods
        }),
    decreases node, 0int,
{
    let g = grafted_into(node, child)->0;
    let p = node.path->0;
    let after = g.resources->0;
    if node.path == child.parent_path {
        let kids = match node.resources {
            Some(c) => c,
            None => Seq::empty(),
        };
        lemma_sibling_at(kids, child.path, 0);
        match sibling_at(kids, child.path, 0) {
            Some(k) => {
                let merged = with_more_methods(kids[k], child.methods);
                assert(settled(kids[k]));
                assert(ids_follow_path(merged.methods, merged.path->0)) by {
                    assert forall|i: int| 0 <= i < merged.methods.len() implies (
                    #[trigger] merged.methods[i]).id == dotted(
                        merged.path->0,
                        merged.methods[i].name,
                    ) by {
                        if i < kids[k].methods.len() {
                            assert(merged.methods[i] == kids[k].methods[i]);
                        } else {
                            assert(merged.methods[i] == child.methods[i - kids[k].methods.len()]);
                        }
                    }
                }
                assert(settled(merged));
                assert forall|j: int| 0 <= j < after.len() implies hangs_under(
                    #[trigger] after[j],
                    p,
                ) && settled(after[j]) by {
                    if j != k {
                        assert(after[j] == kids[j]);
                    }
                }
            },
            None => {
                assert forall|j: int| 0 <= j < after.len() implies hangs_under(
                    #[trigger] after[j],
                    p,
                ) && settled(after[j]) by {
                    if j < kids.len() {
                        assert(after[j] == kids[j]);
                    } else {
                        assert(after[j] == child);
                    }
                }
            },
        }
    } else {
        let c = node.resources->0;
        assert forall|j: int| 0 <= j < c.len() implies settled(#[trigger] c[j]) by {}
        lemma_graft_keeps_settled(c, 0, child);
        assert forall|j: int| 0 <= j < after.len() implies hangs_under(#[trigger] after[j], p)
            && settled(after[j]) by {
            assert(hangs_under(c[j], p));
        }
    }
}

proof fn lemma_reassembled_rooted(
    service_name: Seq<char>,
    version: Seq<char>,
    forest: Seq<ResourceView>,
    pending: Seq<ResourceView>,
    misses: nat,
)
    requires
        forall|j: int| 0 <= j < forest.len() ==> rooted(service_name, version, #[trigger] forest[j]),
        forall|j: int| 0 <= j < pending.len() ==> placeable(#[trigger] pending[j]),
        reassembled(forest, pending, misses) is Ok,
    ensures
        ({
            let f = reassembled(forest, pending, misses)->Ok_0;
            forall|j: int| 0 <= j < f.len() ==> rooted(service_name, version, #[trigger] f[j])
        }),
    decreases pending.len(), pending.len() - misses,
{
    if pending.len() > 0 {
        let child = pending.last();
        let rest = pending.drop_last();
        assert(placeable(child));
        assert forall|j: int| 0 <= j < rest.len() implies placeable(#[trigger] rest[j]) by {
            assert(rest[j] == pending[j]);
        }
        match grafted(forest, 0, child) {
            Some(grown) => {
                assert forall|j: int| 0 <= j < forest.len() implies settled(
                    #[trigger] forest[j],
                ) by {
                    assert(rooted(service_name, version, forest[j]));
                }
                lemma_graft_keeps_settled(forest, 0, child);
                assert forall|j: int| 0 <= j < grown.len() implies rooted(
                    service_name,
                    version,
                    #[trigger] grown[j],
                ) by {
                    assert(rooted(service_name, version, forest[j]));
                    assert(settled(grown[j]));
                }
                lemma_reassembled_rooted(service_name, version, grown, rest, 0);
            },
            None => {
                if misses + 1 < pending.len() {
                    let rotated = seq![child] + rest;
                    assert forall|j: int| 0 <= j < rotated.len() implies placeable(
                        #[trigger] rotated[j],
                    ) by {
                        if j == 0 {
                            assert(rotated[j] == child);
                        } else {
                            assert(rotated[j] == rest[j - 1]);
                        }
                    }
                    lemma_reassembled_rooted(service_name, version, forest, rotated, misses + 1);
                }
            },
        }
    }
}

/// Inferring the paths of a consistent tree changes nothing but the
/// original ids, which move on to the present ids.
pub proof fn lemma_rebasing_settled(
    service_name: Seq<char>,
    version: Seq<char>,
    r: ResourceView,
    inherited: Option<Seq<char>>,
)
    requires
        settled(r),
        inherited matches Some(p) ==> hangs_under(r, p),
        inherited is None ==> rooted(service_name, version, r),
    ensures
        rebased(service_name, version, r, inherited) == remarked(r),
    decreases r,
{
    let a = rebased(service_name, version, r, inherited);
    let b = remarked(r);
    let path = r.path->0;
    assert(a.parent_path == r.parent_path);
    assert(a.path == r.path);
    assert(a.methods =~= b.methods) by {
        assert forall|i: int| 0 <= i < r.methods.len() implies a.methods[i] == b.methods[i] by {
            assert(r.methods[i].id == dotted(path, r.methods[i].name));
        }
    }
    match r.resources {
        Some(c) => {
            assert forall|j: int| 0 <= j < c.len() implies a.resources->0[j] == b.resources->0[j] by {
                assert(hangs_under(c[j], path) && settled(c[j]));
                lemma_rebasing_settled(service_name, version, c[j], Some(path));
            }
            assert(a.resources->0 =~= b.resources->0);
        },
        None => {},
    }
}

/// A rebuilt hierarchy is consistent. Every resource at the top level names
/// no parent and lies directly under the service. Every other resource
/// names as its parent the canonical path of the resource that it is
/// nested in, and has that path, a dot and its own name as its canonical
/// path. The id of every method is the canonical path of its resource, a
/// dot and the name of the method.
pub proof fn lemma_rebuilt_is_consistent(a: ApiView, once: ApiView)
    requires
        rebuilt(a) == Ok::<ApiView, ErrorView>(once),
    ensures
        forall|j: int|
            0 <= j < once.resources.len() ==> rooted(
                service_of(a.id),
                version_of(a.id),
                #[trigger] once.resources[j],
            ),
{
    let service_name = service_of(a.id);
    let version = version_of(a.id);
    let flat = with_inferred_paths(a).resources;
    let top = parentless(flat, flat.len());
    let pending = with_parent(flat, flat.len());
    lemma_partition(flat, flat.len());
    assert forall|j: int| 0 <= j < top.len() implies rooted(
        service_name,
        version,
        #[trigger] top[j],
    ) by {
        let i = choose|i: int| 0 <= i < flat.len() && flat[i] == top[j] && flat[i].parent_path is None;
        lemma_rebased_is_settled(service_name, version, a.resources[i], None);
    }
    assert forall|j: int| 0 <= j < pending.len() implies placeable(#[trigger] pending[j]) by {
        let i = choose|i: int|
            0 <= i < flat.len() && flat[i] == pending[j] && flat[i].parent_path is Some;
        lemma_rebased_is_settled(service_name, version, a.resources[i], None);
    }
    lemma_reassembled_rooted(service_name, version, top, pending, 0);
    assert(once.resources == reassembled(top, pending, 0)->Ok_0);
}

/// Rebuilding the hierarchy of a service whose hierarchy was rebuilt leaves
/// its tree as it is but for the original ids: every method then has as
/// original id the id that the first rebuilding gave it.
pub proof fn lemma_rebuilding_again(a: ApiView, once: ApiView)
    requires
        rebuilt(a) == Ok::<ApiView, ErrorView>(once),
    ensures
        rebuilt(once) == Ok::<ApiView, ErrorView>(
            with_resources(once, remarked_forest(once.resources)),
        ),
{
    let service_name = service_of(a.id);
    let version = version_of(a.id);
    lemma_rebuilt_is_consistent(a, once);
    let forest = once.resources;
    assert(once.id == a.id);
    let again = with_inferred_paths(once).resources;
    let marked_forest = remarked_forest(forest);
    assert(again =~= marked_forest) by {
        assert forall|j: int| 0 <= j < forest.len() implies again[j] == marked_forest[j] by {
            assert(rooted(service_name, version, forest[j]));
            lemma_rebasing_settled(service_name, version, forest[j], None);
        }
    }
    assert forall|j: int| 0 <= j < again.len() implies (#[trigger] again[j]).parent_path is None by {
        assert(rooted(service_name, version, forest[j]));
        assert(again[j] == remarked(forest[j]));
    }
    lemma_partition(again, again.len());
    assert(again.subrange(0, again.len() as int) =~= again);
    assert(with_parent(again, again.len()) =~= Seq::<ResourceView>::empty());
}

proof fn lemma_marked_is_remarked(r: ResourceView)
    requires
        marked(r),
    ensures
        remarked(r) == r,
    decreases r,
{
    let b = remarked(r);
    assert(b.methods =~= r.methods);
    match r.resources {
        Some(c) => {
            assert forall|j: int| 0 <= j < c.len() implies b.resources->0[j] == c[j] by {
                assert(marked(c[j]));
                lemma_marked_is_remarked(c[j]);
            }
            assert(b.resources->0 =~= c);
        },
        None => {},
    }
}

/// Rebuilding is idempotent on what it gives, where the ids were canonical
/// to begin with: if every method of the rebuilt service has the id with
/// which it came as its original id, rebuilding the rebuilt service gives
/// the rebuilt service.
pub proof fn lemma_rebuilding_is_idempotent(a: ApiView, once: ApiView)
    requires
        rebuilt(a) == Ok::<ApiView, ErrorView>(once),
        forall|j: int| 0 <= j < once.resources.len() ==> marked(#[trigger] once.resources[j]),
    ensures
        rebuilt(once) == Ok::<ApiView, ErrorView>(once),
{
    lemma_rebuilding_again(a, once);
    let forest = once.resources;
    assert(remarked_forest(forest) =~= forest) by {
        assert forall|j: int| 0 <= j < forest.len() implies remarked_forest(forest)[j]
            == forest[j] by {
            lemma_marked_is_remarked(forest[j]);
        }
    }
}

} // verus!
