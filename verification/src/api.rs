//! The normalized resource tree of a service, and the resolution of dotted
//! resource paths against it.

use crate::discovery::{Schema, SchemaView};
use crate::flavors::core_flavors::{
    container_choice, dataflow_choice, lemma_choice_is_candidate, select_resource_container,
    select_resource_dataflow, select_resource_spanner, spanner_choice,
};
use crate::text::{copy_opt, has_dot_suffix, is_dot_suffix, same};
use vstd::prelude::*;

verus! {

/// Names that a project takes as a placeholder of a URL template.
pub const PATH_PLACEHOLDERS_PROJECT: [&'static str; 3] = ["projectsId", "project", "projectId"];

/// Names that a region takes as a placeholder of a URL template.
pub const PATH_PLACEHOLDERS_REGION: [&'static str; 4] = [
    "regionsId",
    "region",
    "locationsId",
    "location",
];

/// Names that a zone takes as a placeholder of a URL template.
pub const PATH_PLACEHOLDERS_ZONE: [&'static str; 2] = ["zonesId", "zone"];

/// The model of a [`ZgQueryParam`].
pub struct QueryParamView {
    pub name: Seq<char>,
    pub description: Option<Seq<char>>,
    pub required: bool,
}

/// The model of a [`ZgMethod`].
pub struct MethodView {
    pub id: Seq<char>,
    pub original_id: Option<Seq<char>>,
    pub name: Seq<char>,
    pub flat_path: Seq<char>,
    pub http_method: Seq<char>,
    pub query_params: Seq<QueryParamView>,
    pub request_data_schema: Option<SchemaView>,
}

/// The model of a [`ZgResource`]: a tree whose nodes carry names, paths and
/// methods.
pub struct ResourceView {
    pub name: Seq<char>,
    pub parent_path: Option<Seq<char>>,
    pub path: Option<Seq<char>>,
    pub methods: Seq<MethodView>,
    pub resources: Option<Seq<ResourceView>>,
}

/// The model of a [`ZgApi`].
pub struct ApiView {
    pub id: Seq<char>,
    pub name: Seq<char>,
    pub version: Seq<char>,
    pub revision: Seq<char>,
    pub base_url: Seq<char>,
    pub resources: Seq<ResourceView>,
    pub schemas: Seq<(Seq<char>, SchemaView)>,
}

/// The model of a [`ZgError`].
pub enum ErrorView {
    ResourceNotFound(Seq<char>),
    MethodNotFound(Seq<char>, Seq<char>),
    StructuralInconsistency(Seq<char>),
    SelectionFailed(Seq<char>),
}

/// A service: its identity and the forest of its top-level resources.
#[derive(Debug)]
pub struct ZgApi {
    /// `<service name>:<version>`.
    pub id: String,
    pub name: String,
    pub version: String,
    pub revision: String,
    pub base_url: String,
    pub resources: Vec<ZgResource>,
    pub schemas: Vec<(String, Schema)>,
}

/// A resource of a service, with its methods and the resources nested in it.
#[derive(Debug)]
pub struct ZgResource {
    pub name: String,
    /// The canonical path of the parent; `None` at the top level.
    pub parent_path: Option<String>,
    /// The canonical path: the dotted chain of ancestors, ending in `name`.
    pub path: Option<String>,
    pub methods: Vec<ZgMethod>,
    pub resources: Option<Vec<ZgResource>>,
}

/// A method of a resource.
#[derive(Debug)]
pub struct ZgMethod {
    pub id: String,
    /// The id that the discovery document gave, kept when `id` is rewritten.
    pub original_id: Option<String>,
    pub name: String,
    pub flat_path: String,
    pub http_method: String,
    pub query_params: Vec<ZgQueryParam>,
    pub request_data_schema: Option<Schema>,
}

/// A query parameter of a method. Path parameters are part of `flat_path`.
#[derive(Debug)]
pub struct ZgQueryParam {
    pub name: String,
    pub description: Option<String>,
    pub required: bool,
}

/// What the resolution and the reconstruction of a tree can fail with.
#[derive(Debug)]
pub enum ZgError {
    /// No resource has a canonical path with the given suffix.
    ResourceNotFound(String),
    /// The resource of the first name has no method of the second name.
    MethodNotFound(String, String),
    /// The named resource has a parent path that no resource of the tree has.
    StructuralInconsistency(String),
    /// No candidate was chosen for the given suffix.
    SelectionFailed(String),
}

impl View for ZgQueryParam {
    type V = QueryParamView;

    open spec fn view(&self) -> QueryParamView {
        QueryParamView {
            name: self.name@,
            description: self.description.deep_view(),
            required: self.required,
        }
    }
}

impl DeepView for ZgQueryParam {
    type V = QueryParamView;

    open spec fn deep_view(&self) -> QueryParamView {
        self@
    }
}

impl View for ZgMethod {
    type V = MethodView;

    open spec fn view(&self) -> MethodView {
        MethodView {
            id: self.id@,
            original_id: self.original_id.deep_view(),
            name: self.name@,
            flat_path: self.flat_path@,
            http_method: self.http_method@,
            query_params: self.query_params.deep_view(),
            request_data_schema: self.request_data_schema.deep_view(),
        }
    }
}

impl DeepView for ZgMethod {
    type V = MethodView;

    open spec fn deep_view(&self) -> MethodView {
        self@
    }
}

/// The model of a resource: its own fields, and the models of the resources
/// nested in it.
pub open spec fn resource_view(r: ZgResource) -> ResourceView
    decreases r,
{
    ResourceView {
        name: r.name@,
        parent_path: r.parent_path.deep_view(),
        path: r.path.deep_view(),
        methods: r.methods.deep_view(),
        resources: match r.resources {
            Some(c) => Some(
                Seq::new(
                    c@.len(),
                    |i: int|
                        if 0 <= i < c@.len() {
                            resource_view(c@[i])
                        } else {
                            arbitrary()
                        },
                ),
            ),
            None => None,
        },
    }
}

impl View for ZgResource {
    type V = ResourceView;

    open spec fn view(&self) -> ResourceView {
        resource_view(*self)
    }
}

impl DeepView for ZgResource {
    type V = ResourceView;

    open spec fn deep_view(&self) -> ResourceView {
        self@
    }
}

impl View for ZgApi {
    type V = ApiView;

    open spec fn view(&self) -> ApiView {
        ApiView {
            id: self.id@,
            name: self.name@,
            version: self.version@,
            revision: self.revision@,
            base_url: self.base_url@,
            resources: self.resources.deep_view(),
            schemas: self.schemas.deep_view(),
        }
    }
}

impl View for ZgError {
    type V = ErrorView;

    open spec fn view(&self) -> ErrorView {
        match self {
            ZgError::ResourceNotFound(p) => ErrorView::ResourceNotFound(p@),
            ZgError::MethodNotFound(r, m) => ErrorView::MethodNotFound(r@, m@),
            ZgError::StructuralInconsistency(r) => ErrorView::StructuralInconsistency(r@),
            ZgError::SelectionFailed(p) => ErrorView::SelectionFailed(p@),
        }
    }
}

/// The nested resources of a node are, in the model, the models of the
/// vector's items.
pub proof fn lemma_children_view(r: ZgResource)
    ensures
        r.resources is Some ==> r@.resources == Some(r.resources->0.deep_view()),
        r.resources is None ==> r@.resources is None,
{
    if r.resources is Some {
        assert(r@.resources->0 =~= r.resources->0.deep_view());
    }
}

impl Clone for ZgQueryParam {
    fn clone(&self) -> (r: Self)
        ensures
            r@ == self@,
    {
        ZgQueryParam {
            name: self.name.clone(),
            description: copy_opt(&self.description),
            required: self.required,
        }
    }
}

impl Clone for ZgMethod {
    fn clone(&self) -> (r: Self)
        ensures
            r@ == self@,
    {
        let mut query_params: Vec<ZgQueryParam> = Vec::new();
        let mut i: usize = 0;
        while i < self.query_params.len()
            invariant
                i <= self.query_params.len(),
                query_params@.len() == i,
                forall|j: int| 0 <= j < i ==> query_params@[j]@ == self.query_params@[j]@,
            decreases self.query_params.len() - i,
        {
            query_params.push(self.query_params[i].clone());
            i += 1;
        }
        let request_data_schema = match &self.request_data_schema {
            Some(s) => Some(s.clone()),
            None => None,
        };
        assert(query_params.deep_view() =~= self.query_params.deep_view());
        ZgMethod {
            id: self.id.clone(),
            original_id: copy_opt(&self.original_id),
            name: self.name.clone(),
            flat_path: self.flat_path.clone(),
            http_method: self.http_method.clone(),
            query_params,
            request_data_schema,
        }
    }
}

/// A copy of a vector of methods.
pub fn copy_methods(v: &Vec<ZgMethod>) -> (r: Vec<ZgMethod>)
    ensures
        r.deep_view() == v.deep_view(),
{
    let mut r: Vec<ZgMethod> = Vec::new();
    let mut i: usize = 0;
    while i < v.len()
        invariant
            i <= v.len(),
            r@.len() == i,
            forall|j: int| 0 <= j < i ==> r@[j]@ == v@[j]@,
        decreases v.len() - i,
    {
        r.push(v[i].clone());
        i += 1;
    }
    assert(r.deep_view() =~= v.deep_view());
    r
}

impl Clone for ZgResource {
    fn clone(&self) -> (r: Self)
        ensures
            r@ == self@,
        decreases self,
    {
        let resources = match &self.resources {
            Some(c) => {
                let mut out: Vec<ZgResource> = Vec::new();
                let mut i: usize = 0;
                while i < c.len()
                    invariant
                        self.resources == Some(*c),
                        i <= c.len(),
                        out@.len() == i,
                        forall|j: int| 0 <= j < i ==> out@[j]@ == c@[j]@,
                    decreases c.len() - i,
                {
                    proof {
                        assert(decreases_to!(self => self.resources->0));
                        assert(decreases_to!(self.resources->0 => self.resources->0[i as int]));
                    }
                    out.push(c[i].clone());
                    i += 1;
                }
                Some(out)
            },
            None => None,
        };
        let r = ZgResource {
            name: self.name.clone(),
            parent_path: copy_opt(&self.parent_path),
            path: copy_opt(&self.path),
            methods: copy_methods(&self.methods),
            resources,
        };
        proof {
            if self.resources is Some {
                assert(r@.resources->0 =~= self@.resources->0);
            }
        }
        r
    }
}

/// A copy of a forest.
pub fn copy_resources(v: &Vec<ZgResource>) -> (r: Vec<ZgResource>)
    ensures
        r.deep_view() == v.deep_view(),
{
    let mut r: Vec<ZgResource> = Vec::new();
    let mut i: usize = 0;
    while i < v.len()
        invariant
            i <= v.len(),
            r@.len() == i,
            forall|j: int| 0 <= j < i ==> r@[j]@ == v@[j]@,
        decreases v.len() - i,
    {
        r.push(v[i].clone());
        i += 1;
    }
    assert(r.deep_view() =~= v.deep_view());
    r
}

/// A copy of a table of named schemas.
pub fn copy_schemas(v: &Vec<(String, Schema)>) -> (r: Vec<(String, Schema)>)
    ensures
        r.deep_view() == v.deep_view(),
{
    let mut r: Vec<(String, Schema)> = Vec::new();
    let mut i: usize = 0;
    while i < v.len()
        invariant
            i <= v.len(),
            r@.len() == i,
            forall|j: int| 0 <= j < i ==> r@[j].0@ == v@[j].0@ && r@[j].1@ == v@[j].1@,
        decreases v.len() - i,
    {
        r.push((v[i].0.clone(), v[i].1.clone()));
        i += 1;
    }
    assert(r.deep_view() =~= v.deep_view());
    r
}

impl Clone for ZgApi {
    fn clone(&self) -> (r: Self)
        ensures
            r@ == self@,
    {
        ZgApi {
            id: self.id.clone(),
            name: self.name.clone(),
            version: self.version.clone(),
            revision: self.revision.clone(),
            base_url: self.base_url.clone(),
            resources: copy_resources(&self.resources),
            schemas: copy_schemas(&self.schemas),
        }
    }
}

/// The tree is well nested: what is nested in a resource names the
/// canonical path of that resource as its parent path, all the way down.
pub open spec fn well_nested(r: ResourceView) -> bool
    decreases r,
{
    match r.resources {
        Some(c) => forall|j: int|
            0 <= j < c.len() ==> (#[trigger] c[j]).parent_path == r.path && well_nested(c[j]),
        None => true,
    }
}

/// Every tree of the forest is well nested.
pub open spec fn all_well_nested(forest: Seq<ResourceView>) -> bool {
    forall|j: int| 0 <= j < forest.len() ==> well_nested(#[trigger] forest[j])
}

/// The resources of the first `n` trees of `rs`, in depth-first order, a
/// resource before what is nested in it.
pub open spec fn forest_nodes(rs: Seq<ResourceView>, n: nat) -> Seq<ResourceView>
    decreases rs, n,
{
    if n == 0 || n > rs.len() {
        Seq::empty()
    } else {
        forest_nodes(rs, (n - 1) as nat) + tree_nodes(rs[n - 1])
    }
}

/// The resources of the tree `r`.
pub open spec fn tree_nodes(r: ResourceView) -> Seq<ResourceView>
    decreases r, 0nat,
{
    match r.resources {
        Some(c) => seq![r] + forest_nodes(c, c.len()),
        None => seq![r],
    }
}

/// All resources of a forest.
pub open spec fn nodes(forest: Seq<ResourceView>) -> Seq<ResourceView> {
    forest_nodes(forest, forest.len())
}

/// The canonical path of `r` ends in `suffix`, at a label boundary.
pub open spec fn path_matches(r: ResourceView, suffix: Seq<char>) -> bool {
    r.path matches Some(p) && is_dot_suffix(p, suffix)
}

/// The resources of the first `n` trees of `rs` whose canonical path ends in
/// `suffix`, in depth-first order, a resource before what is nested in it.
pub open spec fn forest_matches(rs: Seq<ResourceView>, n: nat, suffix: Seq<char>) -> Seq<
    ResourceView,
>
    decreases rs, n,
{
    if n == 0 || n > rs.len() {
        Seq::empty()
    } else {
        forest_matches(rs, (n - 1) as nat, suffix) + tree_matches(rs[n - 1], suffix)
    }
}

/// The resources of the tree `r` whose canonical path ends in `suffix`.
pub open spec fn tree_matches(r: ResourceView, suffix: Seq<char>) -> Seq<ResourceView>
    decreases r, 0nat,
{
    let own = if path_matches(r, suffix) {
        seq![r]
    } else {
        Seq::empty()
    };
    match r.resources {
        Some(c) => own + forest_matches(c, c.len(), suffix),
        None => own,
    }
}

/// All resources of the forest whose canonical path ends in `suffix`.
pub open spec fn candidates(rs: Seq<ResourceView>, suffix: Seq<char>) -> Seq<ResourceView> {
    forest_matches(rs, rs.len(), suffix)
}

/// The candidate that stands for `resource_path` in the service `api_id`:
/// the only one where there is one; else the service's own choice; else,
/// for a service without one, the last.
pub open spec fn chosen(api_id: Seq<char>, resource_path: Seq<char>, found: Seq<ResourceView>)
    -> Option<ResourceView> {
    if found.len() == 0 {
        None
    } else if found.len() == 1 {
        Some(found[0])
    } else if api_id == "container:v1"@ {
        container_choice(found)
    } else if api_id == "dataflow:v1b3"@ {
        dataflow_choice(resource_path, found)
    } else if api_id == "spanner:v1"@ {
        spanner_choice(found)
    } else {
        Some(found.last())
    }
}

/// The service `api_id` has a choice of its own among several candidates.
pub open spec fn has_strategy(api_id: Seq<char>) -> bool {
    api_id == "container:v1"@ || api_id == "dataflow:v1b3"@ || api_id == "spanner:v1"@
}

/// What resolving `resource_path` in the forest gives.
pub open spec fn resolved(api_id: Seq<char>, forest: Seq<ResourceView>, resource_path: Seq<char>)
    -> Result<ResourceView, ErrorView> {
    let found = candidates(forest, resource_path);
    if found.len() == 0 {
        Err(ErrorView::ResourceNotFound(resource_path))
    } else {
        match chosen(api_id, resource_path, found) {
            Some(r) => Ok(r),
            None => Err(ErrorView::SelectionFailed(resource_path)),
        }
    }
}

/// The choice is one of the candidates, and there is one whenever there is
/// a candidate.
pub proof fn lemma_chosen_is_candidate(
    api_id: Seq<char>,
    resource_path: Seq<char>,
    found: Seq<ResourceView>,
)
    ensures
        chosen(api_id, resource_path, found) matches Some(r) ==> found.contains(r),
        found.len() > 0 <==> chosen(api_id, resource_path, found) is Some,
{
    lemma_choice_is_candidate(resource_path, found);
    if found.len() > 0 {
        assert(found.contains(found[0]));
        assert(found.contains(found.last()));
    }
}

/// Resolution never fails for want of a choice: it gives a resource, or
/// reports that none has the path.
pub proof fn lemma_resolved_total(
    api_id: Seq<char>,
    forest: Seq<ResourceView>,
    resource_path: Seq<char>,
)
    ensures
        resolved(api_id, forest, resource_path) matches Err(e) ==> e == ErrorView::ResourceNotFound(
            resource_path,
        ),
        resolved(api_id, forest, resource_path) matches Ok(r) ==> candidates(
            forest,
            resource_path,
        ).contains(r),
{
    lemma_chosen_is_candidate(api_id, resource_path, candidates(forest, resource_path));
}

fn collect_matches<'a>(
    resources: &'a Vec<ZgResource>,
    suffix: &str,
    found: &mut Vec<&'a ZgResource>,
)
    ensures
        final(found).deep_view() == old(found).deep_view() + candidates(
            resources.deep_view(),
            suffix@,
        ),
    decreases resources,
{
    let ghost before = found.deep_view();
    let ghost forest = resources.deep_view();
    let mut i: usize = 0;
    assert(found.deep_view() =~= before + forest_matches(forest, 0, suffix@));
    while i < resources.len()
        invariant
            i <= resources.len(),
            forest == resources.deep_view(),
            found.deep_view() == before + forest_matches(forest, i as nat, suffix@),
        decreases resources.len() - i,
    {
        let resource = &resources[i];
        let ghost so_far = found.deep_view();
        proof {
            assert(forest[i as int] == resource@);
            lemma_children_view(*resource);
        }
        let own = match &resource.path {
            Some(p) => has_dot_suffix(p.as_str(), suffix),
            None => false,
        };
        if own {
            found.push(resource);
            assert(found.deep_view() =~= so_far.push(resource@));
        }
        match &resource.resources {
            Some(kids) => {
                proof {
                    assert(decreases_to!(resources => resources[i as int]));
                    assert(decreases_to!(resources[i as int] => resources[i as int].resources->0));
                }
                collect_matches(kids, suffix, found);
            },
            None => {},
        }
        proof {
            assert(found.deep_view() =~= so_far + tree_matches(resource@, suffix@));
            assert(found.deep_view() =~= before + forest_matches(forest, (i + 1) as nat, suffix@));
        }
        i += 1;
    }
}

/// Chooses one of the resources found for `resource_path` in the service
/// `api_id`.
pub fn select_resource<'a>(api_id: &str, resource_path: &str, found: Vec<&'a ZgResource>) -> (r:
    Option<&'a ZgResource>)
    ensures
        r.deep_view() == chosen(api_id@, resource_path@, found.deep_view()),
        r matches Some(x) ==> found@.contains(x),
        r is None <==> found.len() == 0,
{
    if found.len() == 0 {
        return None;
    }
    if found.len() == 1 {
        return Some(found[0]);
    }
    if same(api_id, "container:v1") {
        select_resource_container(found)
    } else if same(api_id, "dataflow:v1b3") {
        select_resource_dataflow(resource_path, found)
    } else if same(api_id, "spanner:v1") {
        select_resource_spanner(found)
    } else {
        Some(found[found.len() - 1])
    }
}

/// Whether the service has no choice of its own, so that of several
/// candidates the last is taken for want of a better one.
pub fn lacks_strategy(api_id: &str) -> (r: bool)
    ensures
        r == !has_strategy(api_id@),
{
    !(same(api_id, "container:v1") || same(api_id, "dataflow:v1b3") || same(api_id, "spanner:v1"))
}

/// Whether several resources answer to `resource_path`, so that one of
/// them has to be chosen.
pub fn is_ambiguous(resources: &Vec<ZgResource>, resource_path: &str) -> (r: bool)
    ensures
        r == (candidates(resources.deep_view(), resource_path@).len() > 1),
{
    let mut found: Vec<&ZgResource> = Vec::new();
    assert(found.deep_view() =~= Seq::<ResourceView>::empty());
    collect_matches(resources, resource_path, &mut found);
    assert(found.deep_view() =~= candidates(resources.deep_view(), resource_path@));
    assert(found.deep_view().len() == found.len());
    found.len() > 1
}

/// Finds the resource that `resource_path` stands for: the one resource
/// whose canonical path ends in it at a label boundary, or the service's
/// choice among several.
pub fn find_resource<'a>(api_id: &str, resources: &'a Vec<ZgResource>, resource_path: &str) -> (r:
    Result<&'a ZgResource, ZgError>)
    ensures
        match r {
            Ok(x) => resolved(api_id@, resources.deep_view(), resource_path@) == Ok::<
                ResourceView,
                ErrorView,
            >(x@),
            Err(e) => resolved(api_id@, resources.deep_view(), resource_path@) == Err::<
                ResourceView,
                ErrorView,
            >(e@),
        },
        r is Err <==> candidates(resources.deep_view(), resource_path@).len() == 0,
{
    let mut found: Vec<&'a ZgResource> = Vec::new();
    assert(found.deep_view() =~= Seq::<ResourceView>::empty());
    collect_matches(resources, resource_path, &mut found);
    assert(found.deep_view() =~= candidates(resources.deep_view(), resource_path@));
    assert(found.deep_view().len() == found.len());
    if found.len() == 0 {
        return Err(ZgError::ResourceNotFound(resource_path.to_owned()));
    }
    match select_resource(api_id, resource_path, found) {
        Some(x) => Ok(x),
        None => Err(ZgError::SelectionFailed(resource_path.to_owned())),
    }
}

/// The first method at or after position `from` that is called `name`.
pub open spec fn method_named(methods: Seq<MethodView>, name: Seq<char>, from: int) -> Option<
    MethodView,
>
    decreases methods.len() - from,
{
    if from < 0 || from >= methods.len() {
        None
    } else if methods[from].name == name {
        Some(methods[from])
    } else {
        method_named(methods, name, from + 1)
    }
}

/// What looking up the method `name` of the resource `r` gives.
pub open spec fn method_of(r: ResourceView, name: Seq<char>) -> Result<MethodView, ErrorView> {
    match method_named(r.methods, name, 0) {
        Some(m) => Ok(m),
        None => Err(ErrorView::MethodNotFound(r.name, name)),
    }
}

/// Finds the method of `resource` whose name is exactly `method_name`.
pub fn find_method(resource: &ZgResource, method_name: &str) -> (r: Result<ZgMethod, ZgError>)
    ensures
        match r {
            Ok(m) => method_of(resource@, method_name@) == Ok::<MethodView, ErrorView>(m@),
            Err(e) => method_of(resource@, method_name@) == Err::<MethodView, ErrorView>(e@),
        },
{
    let mut i: usize = 0;
    while i < resource.methods.len()
        invariant
            i <= resource.methods.len(),
            method_named(resource@.methods, method_name@, 0) == method_named(
                resource@.methods,
                method_name@,
                i as int,
            ),
        decreases resource.methods.len() - i,
    {
        let m = &resource.methods[i];
        assert(resource@.methods[i as int] == m@);
        if same(m.name.as_str(), method_name) {
            return Ok(m.clone());
        }
        i += 1;
    }
    Err(ZgError::MethodNotFound(resource.name.clone(), method_name.to_owned()))
}

impl DeepView for ZgError {
    type V = ErrorView;

    open spec fn deep_view(&self) -> ErrorView {
        self@
    }
}

/// The names and canonical paths of the resources of the first `n` trees
/// of `rs` that have a canonical path, in depth-first order, a resource
/// before what is nested in it.
pub open spec fn forest_paths(rs: Seq<ResourceView>, n: nat) -> Seq<(Seq<char>, Seq<char>)>
    decreases rs, n,
{
    if n == 0 || n > rs.len() {
        Seq::empty()
    } else {
        forest_paths(rs, (n - 1) as nat) + tree_paths(rs[n - 1])
    }
}

/// The names and canonical paths of the resources of the tree `r`.
pub open spec fn tree_paths(r: ResourceView) -> Seq<(Seq<char>, Seq<char>)>
    decreases r, 0nat,
{
    let own = match r.path {
        Some(p) => seq![(r.name, p)],
        None => Seq::empty(),
    };
    match r.resources {
        Some(c) => own + forest_paths(c, c.len()),
        None => own,
    }
}

/// The paths of the first `n` pairs whose name is `name`, in order.
pub open spec fn paths_named(pairs: Seq<(Seq<char>, Seq<char>)>, name: Seq<char>, n: nat) -> Seq<
    Seq<char>,
>
    decreases n,
{
    if n == 0 || n > pairs.len() {
        Seq::empty()
    } else if pairs[n - 1].0 == name {
        paths_named(pairs, name, (n - 1) as nat).push(pairs[n - 1].1)
    } else {
        paths_named(pairs, name, (n - 1) as nat)
    }
}

/// One of the first `n` pairs has the name `name`.
pub open spec fn named_before(pairs: Seq<(Seq<char>, Seq<char>)>, name: Seq<char>, n: int) -> bool {
    exists|k: int| 0 <= k < n && k < pairs.len() && pairs[k].0 == name
}

/// For every name that several pairs share, the name and all the paths
/// that go with it; the names in the order in which they first occur among
/// the first `n` pairs, the paths of each in the order of the pairs.
pub open spec fn duplicates(pairs: Seq<(Seq<char>, Seq<char>)>, n: nat) -> Seq<
    (Seq<char>, Seq<Seq<char>>),
>
    decreases n,
{
    if n == 0 || n > pairs.len() {
        Seq::empty()
    } else {
        let name = pairs[n - 1].0;
        let paths = paths_named(pairs, name, pairs.len());
        if !named_before(pairs, name, n - 1) && paths.len() > 1 {
            duplicates(pairs, (n - 1) as nat).push((name, paths))
        } else {
            duplicates(pairs, (n - 1) as nat)
        }
    }
}

fn collect_paths(resources: &Vec<ZgResource>, paths: &mut Vec<(String, String)>)
    ensures
        final(paths).deep_view() == old(paths).deep_view() + forest_paths(
            resources.deep_view(),
            resources.len() as nat,
        ),
    decreases resources,
{
    let ghost before = paths.deep_view();
    let ghost forest = resources.deep_view();
    let mut i: usize = 0;
    assert(paths.deep_view() =~= before + forest_paths(forest, 0));
    while i < resources.len()
        invariant
            i <= resources.len(),
            forest == resources.deep_view(),
            before == old(paths).deep_view(),
            paths.deep_view() == before + forest_paths(forest, i as nat),
        decreases resources.len() - i,
    {
        let resource = &resources[i];
        let ghost so_far = paths.deep_view();
        proof {
            assert(forest[i as int] == resource@);
            lemma_children_view(*resource);
        }
        match &resource.path {
            Some(p) => {
                paths.push((resource.name.clone(), p.clone()));
                assert(paths.deep_view() =~= so_far.push((resource@.name, p@)));
            },
            None => {},
        }
        match &resource.resources {
            Some(kids) => {
                proof {
                    assert(decreases_to!(resources => resources[i as int]));
                    assert(decreases_to!(resources[i as int] => resources[i as int].resources->0));
                }
                collect_paths(kids, paths);
            },
            None => {},
        }
        proof {
            assert(paths.deep_view() =~= so_far + tree_paths(resource@));
            assert(paths.deep_view() =~= before + forest_paths(forest, (i + 1) as nat));
        }
        i += 1;
    }
}

fn occurs_before(pairs: &Vec<(String, String)>, name: &str, n: usize) -> (r: bool)
    requires
        n <= pairs.len(),
    ensures
        r == named_before(pairs.deep_view(), name@, n as int),
{
    let mut k: usize = 0;
    while k < n
        invariant
            k <= n <= pairs.len(),
            forall|j: int| 0 <= j < k ==> pairs.deep_view()[j].0 != name@,
        decreases n - k,
    {
        assert(pairs.deep_view()[k as int] == (pairs@[k as int].0@, pairs@[k as int].1@));
        if same(pairs[k].0.as_str(), name) {
            return true;
        }
        k += 1;
    }
    false
}

fn paths_of(pairs: &Vec<(String, String)>, name: &str) -> (r: Vec<String>)
    ensures
        r.deep_view() == paths_named(pairs.deep_view(), name@, pairs.len() as nat),
{
    let mut out: Vec<String> = Vec::new();
    let mut k: usize = 0;
    assert(out.deep_view() =~= paths_named(pairs.deep_view(), name@, 0));
    while k < pairs.len()
        invariant
            k <= pairs.len(),
            out.deep_view() == paths_named(pairs.deep_view(), name@, k as nat),
        decreases pairs.len() - k,
    {
        let ghost done = out.deep_view();
        assert(pairs.deep_view()[k as int] == (pairs@[k as int].0@, pairs@[k as int].1@));
        if same(pairs[k].0.as_str(), name) {
            out.push(pairs[k].1.clone());
            assert(out.deep_view() =~= done.push(pairs@[k as int].1@));
        }
        k += 1;
    }
    out
}

impl ZgApi {
    /// The name and the canonical path of every resource that has a path,
    /// in depth-first order.
    pub fn all_resource_paths(&self) -> (r: Vec<(String, String)>)
        ensures
            r.deep_view() == forest_paths(self@.resources, self@.resources.len()),
    {
        let mut paths: Vec<(String, String)> = Vec::new();
        assert(paths.deep_view() =~= Seq::<(Seq<char>, Seq<char>)>::empty());
        collect_paths(&self.resources, &mut paths);
        assert(paths.deep_view() =~= forest_paths(self@.resources, self@.resources.len()));
        paths
    }

    /// The names that several resources share, each with the canonical
    /// paths of all the resources that have it.
    pub fn duplicated_resources(&self) -> (r: Vec<(String, Vec<String>)>)
        ensures
            r.deep_view() == duplicates(
                forest_paths(self@.resources, self@.resources.len()),
                forest_paths(self@.resources, self@.resources.len()).len(),
            ),
    {
        let pairs = self.all_resource_paths();
        let mut out: Vec<(String, Vec<String>)> = Vec::new();
        let mut n: usize = 0;
        assert(out.deep_view() =~= duplicates(pairs.deep_view(), 0));
        assert(pairs.deep_view().len() == pairs.len());
        while n < pairs.len()
            invariant
                n <= pairs.len(),
                out.deep_view() == duplicates(pairs.deep_view(), n as nat),
            decreases pairs.len() - n,
        {
            let ghost done = out.deep_view();
            let name = pairs[n].0.as_str();
            assert(pairs.deep_view()[n as int] == (pairs@[n as int].0@, pairs@[n as int].1@));
            if !occurs_before(&pairs, name, n) {
                let paths = paths_of(&pairs, name);
                assert(paths.deep_view().len() == paths.len());
                if paths.len() > 1 {
                    let ghost listed = paths.deep_view();
                    out.push((name.to_owned(), paths));
                    assert(out.deep_view() =~= done.push((name@, listed)));
                }
            }
            n += 1;
        }
        out
    }
}

impl ZgMethod {
    /// A sample method: the listing of a sample resource.
    pub fn testdata() -> (r: Self)
        ensures
            r@.id == "testapi.projects.testres.list"@,
            r@.original_id is None,
            r@.name == "list"@,
            r@.flat_path == "v1/projects/{projectsId}/testres/{testresId}"@,
            r@.http_method == "GET"@,
            r@.query_params.len() == 0,
            r@.request_data_schema is None,
    {
        ZgMethod {
            id: "testapi.projects.testres.list".to_owned(),
            original_id: None,
            name: "list".to_owned(),
            flat_path: "v1/projects/{projectsId}/testres/{testresId}".to_owned(),
            http_method: "GET".to_owned(),
            query_params: Vec::new(),
            request_data_schema: None,
        }
    }
}

impl ZgResource {
    /// A sample resource with the sample method and nothing nested in it.
    pub fn testdata() -> (r: Self)
        ensures
            r@.name == "testres"@,
            r@.parent_path == Some("testapi.projects"@),
            r@.path == Some("testapi.projects.testres"@),
            r@.methods.len() == 1,
            r@.resources is None,
    {
        let mut methods: Vec<ZgMethod> = Vec::new();
        methods.push(ZgMethod::testdata());
        ZgResource {
            name: "testres".to_owned(),
            parent_path: Some("testapi.projects".to_owned()),
            path: Some("testapi.projects.testres".to_owned()),
            methods,
            resources: None,
        }
    }
}

impl ZgApi {
    /// A sample service with the sample resource.
    pub fn testdata() -> (r: Self)
        ensures
            r@.id == "testapi:v1"@,
            r@.name == "Test API"@,
            r@.version == "v1"@,
            r@.revision == "2024-11-11"@,
            r@.base_url == "https://example.com/"@,
            r@.resources.len() == 1,
            r@.schemas.len() == 0,
    {
        let mut resources: Vec<ZgResource> = Vec::new();
        resources.push(ZgResource::testdata());
        ZgApi {
            id: "testapi:v1".to_owned(),
            name: "Test API".to_owned(),
            version: "v1".to_owned(),
            revision: "2024-11-11".to_owned(),
            base_url: "https://example.com/".to_owned(),
            resources,
            schemas: Vec::new(),
        }
    }
}

} // verus!
