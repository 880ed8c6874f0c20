//! Per-service choice among several resources whose canonical paths end in
//! the same suffix.
//!
//! Each strategy prefers the first candidate, in traversal order, whose
//! canonical path contains a given token, and has a fixed fallback when no
//! candidate does. A strategy returns one of the candidates it was given,
//! and returns none only when it was given none.

use crate::api::{ResourceView, ZgResource};
use crate::text::{contains, ends_with, finishes_with, includes};
use vstd::prelude::*;

verus! {

/// The canonical path of `r` contains `token`.
pub open spec fn prefers(r: ResourceView, token: Seq<char>) -> bool {
    r.path matches Some(p) && contains(p, token)
}

/// The first candidate at or after position `from` whose path contains
/// `token`.
pub open spec fn first_preferred(found: Seq<ResourceView>, token: Seq<char>, from: int) -> Option<
    ResourceView,
>
    decreases found.len() - from,
{
    if from < 0 || from >= found.len() {
        None
    } else if prefers(found[from], token) {
        Some(found[from])
    } else {
        first_preferred(found, token, from + 1)
    }
}

/// The first candidate whose path contains `token`; the first candidate of
/// all when there is no such one.
pub open spec fn prefer_or_first(found: Seq<ResourceView>, token: Seq<char>) -> Option<
    ResourceView,
> {
    match first_preferred(found, token, 0) {
        Some(r) => Some(r),
        None => if found.len() > 0 {
            Some(found.first())
        } else {
            None
        },
    }
}

/// The first candidate whose path contains `token`; the last candidate of
/// all when there is no such one.
pub open spec fn prefer_or_last(found: Seq<ResourceView>, token: Seq<char>) -> Option<
    ResourceView,
> {
    match first_preferred(found, token, 0) {
        Some(r) => Some(r),
        None => if found.len() > 0 {
            Some(found.last())
        } else {
            None
        },
    }
}

/// Kubernetes Engine: regional clusters, and what is nested in them, before
/// zonal ones.
pub open spec fn container_choice(found: Seq<ResourceView>) -> Option<ResourceView> {
    prefer_or_first(found, "container.projects.locations.clusters"@)
}

/// The requested path names jobs, templates, or a resource nested in jobs.
pub open spec fn names_regional_dataflow(resource_path: Seq<char>) -> bool {
    ||| ends_with(resource_path, "templates"@)
    ||| ends_with(resource_path, "jobs"@)
    ||| ends_with(resource_path, "debug"@)
    ||| ends_with(resource_path, "messages"@)
    ||| ends_with(resource_path, "workItems"@)
}

/// Dataflow: for jobs, templates and what is nested in jobs, a candidate
/// under `locations`; for anything else (snapshots), the one directly under
/// `locations`.
pub open spec fn dataflow_choice(resource_path: Seq<char>, found: Seq<ResourceView>) -> Option<
    ResourceView,
> {
    if names_regional_dataflow(resource_path) {
        prefer_or_last(found, "locations"@)
    } else {
        prefer_or_last(found, "locations.snapshots"@)
    }
}

/// Spanner: of the resources named `operations`, the one directly under
/// `instances`.
pub open spec fn spanner_choice(found: Seq<ResourceView>) -> Option<ResourceView> {
    prefer_or_last(found, "instances.operations"@)
}

/// A preferred candidate is one of the candidates.
pub proof fn lemma_first_preferred_is_candidate(
    found: Seq<ResourceView>,
    token: Seq<char>,
    from: int,
)
    ensures
        first_preferred(found, token, from) matches Some(r) ==> found.contains(r) && prefers(
            r,
            token,
        ),
    decreases found.len() - from,
{
    if from < 0 || from >= found.len() {
    } else if prefers(found[from], token) {
    } else {
        lemma_first_preferred_is_candidate(found, token, from + 1);
    }
}

/// Every strategy returns one of the candidates it was given, and returns
/// one whenever it was given any.
pub proof fn lemma_choice_is_candidate(resource_path: Seq<char>, found: Seq<ResourceView>)
    ensures
        container_choice(found) matches Some(r) ==> found.contains(r),
        dataflow_choice(resource_path, found) matches Some(r) ==> found.contains(r),
        spanner_choice(found) matches Some(r) ==> found.contains(r),
        found.len() > 0 ==> container_choice(found) is Some,
        found.len() > 0 ==> dataflow_choice(resource_path, found) is Some,
        found.len() > 0 ==> spanner_choice(found) is Some,
{
    lemma_first_preferred_is_candidate(found, "container.projects.locations.clusters"@, 0);
    lemma_first_preferred_is_candidate(found, "locations"@, 0);
    lemma_first_preferred_is_candidate(found, "locations.snapshots"@, 0);
    lemma_first_preferred_is_candidate(found, "instances.operations"@, 0);
    if found.len() > 0 {
        assert(found.contains(found.first()));
        assert(found.contains(found.last()));
    }
}

fn find_preferred<'a>(found: &Vec<&'a ZgResource>, token: &str) -> (r: Option<&'a ZgResource>)
    ensures
        r.deep_view() == first_preferred(found.deep_view(), token@, 0),
        r matches Some(x) ==> found@.contains(x),
{
    let mut i: usize = 0;
    while i < found.len()
        invariant
            i <= found.len(),
            first_preferred(found.deep_view(), token@, 0) == first_preferred(
                found.deep_view(),
                token@,
                i as int,
            ),
        decreases found.len() - i,
    {
        let candidate: &'a ZgResource = found[i];
        assert(found.deep_view()[i as int] == candidate@);
        let hit = match &candidate.path {
            Some(p) => includes(p.as_str(), token),
            None => false,
        };
        if hit {
            return Some(candidate);
        }
        i += 1;
    }
    None
}

fn first_of<'a>(found: &Vec<&'a ZgResource>) -> (r: Option<&'a ZgResource>)
    ensures
        found.len() > 0 ==> r.deep_view() == Some(found.deep_view().first()),
        found.len() == 0 ==> r is None,
        r matches Some(x) ==> found@.contains(x),
{
    if found.len() > 0 {
        Some(found[0])
    } else {
        None
    }
}

fn last_of<'a>(found: &Vec<&'a ZgResource>) -> (r: Option<&'a ZgResource>)
    ensures
        found.len() > 0 ==> r.deep_view() == Some(found.deep_view().last()),
        found.len() == 0 ==> r is None,
        r matches Some(x) ==> found@.contains(x),
{
    if found.len() > 0 {
        Some(found[found.len() - 1])
    } else {
        None
    }
}

/// Chooses among resources of Kubernetes Engine.
pub fn select_resource_container<'a>(found: Vec<&'a ZgResource>) -> (r: Option<&'a ZgResource>)
    ensures
        r.deep_view() == container_choice(found.deep_view()),
        r matches Some(x) ==> found@.contains(x),
        r is None <==> found.len() == 0,
{
    proof {
        lemma_choice_is_candidate(Seq::empty(), found.deep_view());
    }
    match find_preferred(&found, "container.projects.locations.clusters") {
        Some(x) => Some(x),
        None => first_of(&found),
    }
}

/// Chooses among resources of Dataflow, by the path that was asked for.
pub fn select_resource_dataflow<'a>(resource_path: &str, found: Vec<&'a ZgResource>) -> (r: Option<
    &'a ZgResource,
>)
    ensures
        r.deep_view() == dataflow_choice(resource_path@, found.deep_view()),
        r matches Some(x) ==> found@.contains(x),
        r is None <==> found.len() == 0,
{
    proof {
        lemma_choice_is_candidate(resource_path@, found.deep_view());
    }
    let regional = finishes_with(resource_path, "templates") || finishes_with(resource_path, "jobs")
        || finishes_with(resource_path, "debug") || finishes_with(resource_path, "messages")
        || finishes_with(resource_path, "workItems");
    let preferred = if regional {
        find_preferred(&found, "locations")
    } else {
        find_preferred(&found, "locations.snapshots")
    };
    match preferred {
        Some(x) => Some(x),
        None => last_of(&found),
    }
}

/// Chooses among resources of Spanner.
pub fn select_resource_spanner<'a>(found: Vec<&'a ZgResource>) -> (r: Option<&'a ZgResource>)
    ensures
        r.deep_view() == spanner_choice(found.deep_view()),
        r matches Some(x) ==> found@.contains(x),
        r is None <==> found.len() == 0,
{
    proof {
        lemma_choice_is_candidate(Seq::empty(), found.deep_view());
    }
    match find_preferred(&found, "instances.operations") {
        Some(x) => Some(x),
        None => last_of(&found),
    }
}

} // verus!
