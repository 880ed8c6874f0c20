//! What holds of every tree that this crate builds: what is nested in a
//! resource names that resource as its parent.

use crate::api::{all_well_nested, well_nested, ApiView, ErrorView, ResourceView};
use crate::discovery::{ApiDescription, Resource, SchemaView};
use crate::laws::idempotence::{lemma_rebuilt_is_consistent, rooted, settled};
use crate::update::{
    extracted, grafted, grafted_into, is_flat_service, normalized, normalized_api, rebuilt,
    service_of, sibling_at, version_of, with_more_methods,
};
use vstd::prelude::*;

verus! {

/// A tree that is consistent in itself is well nested.
pub proof fn lemma_settled_is_well_nested(r: ResourceView)
    requires
        settled(r),
    ensures
        well_nested(r),
    decreases r,
{
    match r.resources {
        Some(c) => {
            assert forall|j: int| 0 <= j < c.len() implies (#[trigger] c[j]).parent_path == r.path
                && well_nested(c[j]) by {
                lemma_settled_is_well_nested(c[j]);
            }
        },
        None => {},
    }
}

/// The tree that a resource of a discovery document becomes is well
/// nested.
pub proof fn lemma_normalized_is_well_nested(
    service_name: Seq<char>,
    name: Seq<char>,
    r: Resource,
    parent_path: Option<Seq<char>>,
    schemas: Seq<(Seq<char>, SchemaView)>,
)
    ensures
        well_nested(normalized(service_name, name, r, parent_path, schemas)),
    decreases r,
{
    let tree = normalized(service_name, name, r, parent_path, schemas);
    let kids = tree.resources->0;
    match r.resources {
        Some(c) => {
            assert forall|j: int| 0 <= j < kids.len() implies (#[trigger] kids[j]).parent_path
                == tree.path && well_nested(kids[j]) by {
                lemma_normalized_is_well_nested(
                    service_name,
                    c@[j].0@,
                    c@[j].1,
                    tree.path,
                    schemas,
                );
            }
        },
        None => {},
    }
}

/// Hanging a well-nested tree into a well-nested forest leaves the forest
/// well nested: the tree comes to lie under the resource that it names as
/// its parent.
pub proof fn lemma_graft_keeps_nesting(rs: Seq<ResourceView>, from: int, child: ResourceView)
    requires
        0 <= from,
        all_well_nested(rs),
        well_nested(child),
        grafted(rs, from, child) is Some,
    ensures
        all_well_nested(grafted(rs, from, child)->0),
    decreases rs, rs.len() - from,
{
    let grown = grafted(rs, from, child)->0;
    match grafted_into(rs[from], child) {
        Some(node) => {
            assert(well_nested(rs[from]));
            lemma_graft_into_keeps_nesting(rs[from], child);
            assert forall|j: int| 0 <= j < grown.len() implies well_nested(#[trigger] grown[j]) by {
                if j != from {
                    assert(grown[j] == rs[j]);
                    assert(well_nested(rs[j]));
                }
            }
        },
        None => {
            lemma_graft_keeps_nesting(rs, from + 1, child);
        },
    }
}

proof fn lemma_graft_into_keeps_nesting(node: ResourceView, child: ResourceView)
    requires
        well_nested(node),
        well_nested(child),
        grafted_into(node, child) is Some,
    ensures
        well_nested(grafted_into(node, child)->0),
        grafted_into(node, child)->0.path == node.path,
        grafted_into(node, child)->0.parent_path == node.parent_path,
    decreases node, 0int,
{
    let grown = grafted_into(node, child)->0;
    let after = grown.resources->0;
    if node.path == child.parent_path {
        let kids = match node.resources {
            Some(c) => c,
            None => Seq::empty(),
        };
        match sibling_at(kids, child.path, 0) {
            Some(k) => {
                crate::laws::reassembly::lemma_sibling_at(kids, child.path, 0);
                let merged = with_more_methods(kids[k], child.methods);
                assert(well_nested(kids[k]));
                assert(well_nested(merged));
                assert forall|j: int| 0 <= j < after.len() implies (#[trigger] after[j]).parent_path
                    == grown.path && well_nested(after[j]) by {
                    if j != k {
                        assert(after[j] == kids[j]);
                    }
                    assert(kids[j].parent_path == node.path && well_nested(kids[j]));
                }
            },
            None => {
                assert forall|j: int| 0 <= j < after.len() implies (#[trigger] after[j]).parent_path
                    == grown.path && well_nested(after[j]) by {
                    if j < kids.len() {
                        assert(after[j] == kids[j]);
                        assert(kids[j].parent_path == node.path && well_nested(kids[j]));
                    } else {
                        assert(after[j] == child);
                    }
                }
            },
        }
    } else {
        let c = node.resources->0;
        assert(all_well_nested(c)) by {
            assert forall|j: int| 0 <= j < c.len() implies well_nested(#[trigger] c[j]) by {}
        }
        lemma_graft_keeps_nesting(c, 0, child);
        lemma_graft_keeps_parents(c, 0, child);
        assert forall|j: int| 0 <= j < after.len() implies (#[trigger] after[j]).parent_path
            == grown.path && well_nested(after[j]) by {
            assert(c[j].parent_path == node.path);
        }
    }
}

proof fn lemma_graft_keeps_parents(rs: Seq<ResourceView>, from: int, child: ResourceView)
    requires
        0 <= from,
        grafted(rs, from, child) is Some,
    ensures
        grafted(rs, from, child)->0.len() == rs.len(),
        forall|j: int|
            0 <= j < rs.len() ==> (#[trigger] grafted(rs, from, child)->0[j]).parent_path
                == rs[j].parent_path,
    decreases rs.len() - from,
{
    match grafted_into(rs[from], child) {
        Some(node) => {},
        None => {
            lemma_graft_keeps_parents(rs, from + 1, child);
        },
    }
}

/// The tree of a service, as it is built from its discovery document, is
/// well nested, whether its hierarchy had to be rebuilt or not.
pub proof fn lemma_extracted_is_well_nested(d: ApiDescription, api: ApiView)
    requires
        extracted(d) == Ok::<ApiView, ErrorView>(api),
    ensures
        all_well_nested(api.resources),
{
    if is_flat_service(d.id@) {
        let a = normalized_api(d);
        lemma_rebuilt_is_consistent(a, api);
        assert forall|j: int| 0 <= j < api.resources.len() implies well_nested(
            #[trigger] api.resources[j],
        ) by {
            assert(rooted(service_of(a.id), version_of(a.id), api.resources[j]));
            lemma_settled_is_well_nested(api.resources[j]);
        }
    } else {
        assert forall|j: int| 0 <= j < api.resources.len() implies well_nested(
            #[trigger] api.resources[j],
        ) by {
            let c = d.resources->0;
            lemma_normalized_is_well_nested(
                d.name@,
                c@[j].0@,
                c@[j].1,
                None,
                crate::update::declared_schemas(d.schemas),
            );
        }
    }
}

} // verus!
