//! Services whose URL segments are not the names of their resources.
//!
//! Each function takes the segments read off a URL template and gives the
//! names of the ancestors that they stand for. A service that needs no such
//! correction has no function here.

use crate::text::{begins_with, same, starts_with};
use vstd::prelude::*;

verus! {

/// The segments of `segs` that are none of `banned`, in order.
pub open spec fn without(segs: Seq<Seq<char>>, banned: Seq<Seq<char>>) -> Seq<Seq<char>>
    decreases segs.len(),
{
    if segs.len() == 0 {
        segs
    } else if banned.contains(segs.last()) {
        without(segs.drop_last(), banned)
    } else {
        without(segs.drop_last(), banned).push(segs.last())
    }
}

/// The resource that a segment of a Cloud Storage URL stands for.
pub open spec fn storage_name(seg: Seq<char>) -> Seq<char> {
    if seg == "b"@ {
        "buckets"@
    } else if seg == "o"@ {
        "objects"@
    } else {
        seg
    }
}

/// The ancestors of a resource of Cloud Storage.
pub open spec fn storage_parents(resource_name: Seq<char>, segments: Seq<Seq<char>>) -> Seq<
    Seq<char>,
> {
    if resource_name == "buckets"@ {
        seq!["projects"@]
    } else if resource_name == "objects"@ || resource_name == "folders"@ || resource_name
        == "managedFolders"@ {
        seq!["projects"@, "buckets"@]
    } else if resource_name == "projects"@ {
        segments
    } else {
        seq!["projects"@] + Seq::new(segments.len(), |i: int| storage_name(segments[i]))
    }
}

/// The resource of Compute Engine has its ancestors under `projects` alone,
/// whatever its URL says.
pub open spec fn is_compute_global(resource_name: Seq<char>) -> bool {
    ||| resource_name == "globalAddresses"@
    ||| resource_name == "globalNetworkEndpointGroups"@
    ||| resource_name == "globalOperations"@
    ||| resource_name == "globalForwardingRules"@
    ||| resource_name == "networkFirewallPolicies"@
}

/// The ancestors of a resource of Compute Engine.
pub open spec fn compute_parents(resource_name: Seq<char>, segments: Seq<Seq<char>>) -> Seq<
    Seq<char>,
> {
    if resource_name == "globalOrganizationOperations"@ {
        Seq::empty()
    } else if is_compute_global(resource_name) {
        seq!["projects"@]
    } else if resource_name == "instanceGroupManagerResizeRequests"@ {
        seq!["projects"@, "zones"@, "instanceGroupManagers"@]
    } else if resource_name == "zoneOperations"@ {
        seq!["projects"@, "zones"@]
    } else if starts_with(resource_name, "region"@) && resource_name != "regions"@ {
        seq!["projects"@, "regions"@]
    } else {
        without(segments, seq!["global"@, "locations"@])
    }
}

/// The ancestors of a resource of Cloud SQL Admin.
pub open spec fn sqladmin_parents(segments: Seq<Seq<char>>) -> Seq<Seq<char>> {
    without(segments, seq!["sql"@])
}

fn is_any_of(seg: &str, banned: &Vec<&str>) -> (r: bool)
    ensures
        r == banned.deep_view().contains(seg@),
{
    let mut i: usize = 0;
    while i < banned.len()
        invariant
            i <= banned.len(),
            forall|k: int| 0 <= k < i ==> banned.deep_view()[k] != seg@,
        decreases banned.len() - i,
    {
        assert(banned.deep_view()[i as int] == banned@[i as int]@);
        if same(seg, banned[i]) {
            return true;
        }
        i += 1;
    }
    false
}

/// The strings of `segments` that are none of `banned`, in order.
pub fn excluding(segments: Vec<String>, banned: &Vec<&str>) -> (r: Vec<String>)
    ensures
        r.deep_view() == without(segments.deep_view(), banned.deep_view()),
{
    let ghost all = segments.deep_view();
    let mut out: Vec<String> = Vec::new();
    let mut i: usize = 0;
    assert(all.subrange(0, 0) =~= Seq::<Seq<char>>::empty());
    assert(out.deep_view() =~= Seq::<Seq<char>>::empty());
    while i < segments.len()
        invariant
            i <= segments.len(),
            all == segments.deep_view(),
            out.deep_view() == without(all.subrange(0, i as int), banned.deep_view()),
        decreases segments.len() - i,
    {
        let ghost done = out.deep_view();
        proof {
            let t = all.subrange(0, i + 1);
            assert(t.drop_last() =~= all.subrange(0, i as int));
            assert(t.last() == segments@[i as int]@);
        }
        if !is_any_of(segments[i].as_str(), banned) {
            out.push(segments[i].clone());
            assert(out.deep_view() =~= done.push(segments@[i as int]@));
        }
        i += 1;
    }
    assert(all.subrange(0, segments.len() as int) =~= all);
    out
}

/// Cloud Storage abbreviates `buckets` and `objects` in its URLs, and
/// leaves out the project that everything belongs to.
pub fn transform_storage_parents(resource_name: &str, segments: Vec<String>) -> (r: Vec<String>)
    ensures
        r.deep_view() == storage_parents(resource_name@, segments.deep_view()),
{
    if same(resource_name, "buckets") {
        let mut out: Vec<String> = Vec::new();
        out.push("projects".to_owned());
        assert(out.deep_view() =~= seq!["projects"@]);
        return out;
    }
    if same(resource_name, "objects") || same(resource_name, "folders") || same(
        resource_name,
        "managedFolders",
    ) {
        let mut out: Vec<String> = Vec::new();
        out.push("projects".to_owned());
        out.push("buckets".to_owned());
        assert(out.deep_view() =~= seq!["projects"@, "buckets"@]);
        return out;
    }
    if same(resource_name, "projects") {
        return segments;
    }
    let ghost tail = Seq::new(
        segments.deep_view().len(),
        |i: int| storage_name(segments.deep_view()[i]),
    );
    let mut out: Vec<String> = Vec::new();
    out.push("projects".to_owned());
    let mut i: usize = 0;
    assert(out.deep_view() =~= seq!["projects"@] + tail.subrange(0, 0));
    while i < segments.len()
        invariant
            i <= segments.len(),
            tail == Seq::new(
                segments.deep_view().len(),
                |i: int| storage_name(segments.deep_view()[i]),
            ),
            out.deep_view() == seq!["projects"@] + tail.subrange(0, i as int),
        decreases segments.len() - i,
    {
        let ghost done = out.deep_view();
        let seg = segments[i].as_str();
        assert(segments.deep_view()[i as int] == seg@);
        let name = if same(seg, "b") {
            "buckets".to_owned()
        } else if same(seg, "o") {
            "objects".to_owned()
        } else {
            seg.to_owned()
        };
        assert(name@ == tail[i as int]);
        out.push(name);
        assert(out.deep_view() =~= done.push(tail[i as int]));
        assert(out.deep_view() =~= seq!["projects"@] + tail.subrange(0, i + 1));
        i += 1;
    }
    assert(tail.subrange(0, segments.len() as int) =~= tail);
    out
}

/// Compute Engine has URL segments that are no resources, and resources
/// whose URLs do not tell where they belong.
pub fn transform_compute_parents(resource_name: &str, segments: Vec<String>) -> (r: Vec<String>)
    ensures
        r.deep_view() == compute_parents(resource_name@, segments.deep_view()),
{
    let mut out: Vec<String> = Vec::new();
    if same(resource_name, "globalOrganizationOperations") {
        assert(out.deep_view() =~= Seq::<Seq<char>>::empty());
        return out;
    }
    if same(resource_name, "globalAddresses") || same(resource_name, "globalNetworkEndpointGroups")
        || same(resource_name, "globalOperations") || same(resource_name, "globalForwardingRules")
        || same(resource_name, "networkFirewallPolicies") {
        out.push("projects".to_owned());
        assert(out.deep_view() =~= seq!["projects"@]);
        return out;
    }
    if same(resource_name, "instanceGroupManagerResizeRequests") {
        out.push("projects".to_owned());
        out.push("zones".to_owned());
        out.push("instanceGroupManagers".to_owned());
        assert(out.deep_view() =~= seq!["projects"@, "zones"@, "instanceGroupManagers"@]);
        return out;
    }
    if same(resource_name, "zoneOperations") {
        out.push("projects".to_owned());
        out.push("zones".to_owned());
        assert(out.deep_view() =~= seq!["projects"@, "zones"@]);
        return out;
    }
    if begins_with(resource_name, "region") && !same(resource_name, "regions") {
        out.push("projects".to_owned());
        out.push("regions".to_owned());
        assert(out.deep_view() =~= seq!["projects"@, "regions"@]);
        return out;
    }
    let banned: Vec<&str> = vec!["global", "locations"];
    assert(banned.deep_view() =~= seq!["global"@, "locations"@]);
    excluding(segments, &banned)
}

/// Cloud SQL Admin has a segment `sql` in its URLs that is no resource.
pub fn transform_sqladmin_parents(segments: Vec<String>) -> (r: Vec<String>)
    ensures
        r.deep_view() == sqladmin_parents(segments.deep_view()),
{
    let banned: Vec<&str> = vec!["sql"];
    assert(banned.deep_view() =~= seq!["sql"@]);
    excluding(segments, &banned)
}

} // verus!
