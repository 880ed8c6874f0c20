//! From a discovery document to a resource tree, and from a flat forest to a
//! nested one.
//!
//! Some services declare all their resources at the top level although
//! their URLs show that one lies inside another. For these the hierarchy is
//! rebuilt in two phases. The first gives every resource the canonical path
//! that its URL templates imply, and rewrites the ids of its methods to
//! match. The second hangs every resource that has a parent path under the
//! resource with that path.

use crate::api::{
    all_well_nested, copy_methods, lemma_children_view, ApiView, ErrorView, MethodView,
    QueryParamView, ResourceView, ZgApi, ZgError, ZgMethod, ZgQueryParam, ZgResource,
};
use crate::discovery::{
    find_schema, schema_named, ApiDescription, Method, Parameter, Resource, Schema, SchemaView,
};
use crate::flavors::update_flavors::{
    compute_parents, excluding, sqladmin_parents, storage_parents, transform_compute_parents,
    transform_sqladmin_parents, transform_storage_parents, without,
};
use crate::laws::nesting::lemma_extracted_is_well_nested;
use crate::laws::rewriting::{forest_methods, keeps_ids, lemma_rewriting_keeps_ids};
use crate::outside::{regex_is_match, regex_match};
use crate::text::{
    begins_with, contains, copy_opt, cut_once, dot_join, dotted, ends_with, finishes_with, has_char,
    includes, includes_char, join, join_with, same, same_opt, split, split_on, split_once,
    starts_with,
};
use vstd::prelude::*;

verus! {

/// What an update is asked to cover.
#[derive(Debug)]
pub struct UpdateArgs {
    /// Cover all services.
    pub all: bool,
}

/// The pattern of a description that declares its parameter required: the
/// word `required` and a full stop, in any case, after optional white space.
pub open spec fn required_pattern() -> Seq<char> {
    "(?i)^\\s*required\\."@
}

/// Whether a query parameter is required: what the document declares of
/// it, where it declares anything; else whether the parameter has a
/// description and that description was found to match the pattern.
/// `matched` is `None` for a parameter without description, and holds the
/// outcome of the match otherwise.
pub open spec fn required_flag(declared: Option<bool>, matched: Option<Option<bool>>) -> bool {
    match declared {
        Some(b) => b,
        None => matched == Some(Some(true)),
    }
}

/// Whether a query parameter is required, from what the document declares
/// and from the outcome of matching its description.
pub fn is_marked_required(declared: Option<bool>, matched: Option<Option<bool>>) -> (r: bool)
    ensures
        r == required_flag(declared, matched),
{
    match declared {
        Some(b) => b,
        None => match matched {
            Some(Some(b)) => b,
            _ => false,
        },
    }
}

/// The outcome of matching a description against the pattern.
pub open spec fn description_match(description: Option<Seq<char>>) -> Option<Option<bool>> {
    match description {
        Some(d) => Some(regex_match(required_pattern(), d)),
        None => None,
    }
}

/// A parameter that becomes a query parameter of the method: one that goes
/// into the query and whose name holds no dot.
pub open spec fn is_query_param(name: Seq<char>, p: Parameter) -> bool {
    p.location@ == "query"@ && !has_char(name, '.')
}

/// The query parameter that a parameter of the document becomes.
pub open spec fn query_param_of(name: Seq<char>, p: Parameter) -> QueryParamView {
    QueryParamView {
        name: name,
        description: p.description.deep_view(),
        required: required_flag(p.required, description_match(p.description.deep_view())),
    }
}

/// The query parameters among the first `n` parameters, in order.
pub open spec fn query_params_upto(ps: Seq<(String, Parameter)>, n: nat) -> Seq<QueryParamView>
    decreases n,
{
    if n == 0 || n > ps.len() {
        Seq::empty()
    } else if is_query_param(ps[n - 1].0@, ps[n - 1].1) {
        query_params_upto(ps, (n - 1) as nat).push(query_param_of(ps[n - 1].0@, ps[n - 1].1))
    } else {
        query_params_upto(ps, (n - 1) as nat)
    }
}

/// The query parameters of a method.
pub open spec fn query_params_of(parameters: Option<Vec<(String, Parameter)>>) -> Seq<
    QueryParamView,
> {
    match parameters {
        Some(ps) => query_params_upto(ps@, ps@.len()),
        None => Seq::empty(),
    }
}

/// The schema of the body that a method takes: none for `GET` and `DELETE`;
/// else the schema that the request names, where it names one that exists.
pub open spec fn request_schema(m: Method, schemas: Seq<(Seq<char>, SchemaView)>) -> Option<
    SchemaView,
> {
    if m.http_method@ == "GET"@ || m.http_method@ == "DELETE"@ {
        None
    } else {
        match m.request {
            Some(req) => match req.ref_name {
                Some(n) => schema_named(schemas, n@, 0),
                None => None,
            },
            None => None,
        }
    }
}

/// The method that the method `m`, declared under `name`, becomes.
pub open spec fn normalized_method(
    name: Seq<char>,
    m: Method,
    schemas: Seq<(Seq<char>, SchemaView)>,
) -> MethodView {
    MethodView {
        id: m.id@,
        original_id: None,
        name: name,
        flat_path: match m.flat_path {
            Some(f) => f@,
            None => m.path@,
        },
        http_method: m.http_method@,
        query_params: query_params_of(m.parameters),
        request_data_schema: request_schema(m, schemas),
    }
}

/// The methods that the methods of a resource become, in order.
pub open spec fn normalized_methods(
    methods: Option<Vec<(String, Method)>>,
    schemas: Seq<(Seq<char>, SchemaView)>,
) -> Seq<MethodView> {
    match methods {
        Some(ms) => Seq::new(ms@.len(), |i: int| normalized_method(ms@[i].0@, ms@[i].1, schemas)),
        None => Seq::empty(),
    }
}

/// The canonical path of a resource as the document implies it: the id of
/// its first method without the method's name; for a resource without
/// methods, its name under the parent's path, or under the service.
pub open spec fn declared_path(
    service_name: Seq<char>,
    name: Seq<char>,
    methods: Seq<MethodView>,
    parent_path: Option<Seq<char>>,
) -> Seq<char> {
    if methods.len() > 0 {
        join(all_but_last(split(methods[0].id, '.')), "."@)
    } else {
        canonical_path(service_name, name, parent_path)
    }
}

/// The resource that the resource `r`, declared under `name`, becomes, with
/// the resources declared inside it under its own path.
pub open spec fn normalized(
    service_name: Seq<char>,
    name: Seq<char>,
    r: Resource,
    parent_path: Option<Seq<char>>,
    schemas: Seq<(Seq<char>, SchemaView)>,
) -> ResourceView
    decreases r,
{
    let methods = normalized_methods(r.methods, schemas);
    let path = declared_path(service_name, name, methods, parent_path);
    ResourceView {
        name: name,
        parent_path: parent_path,
        path: Some(path),
        methods: methods,
        resources: Some(
            match r.resources {
                Some(c) => Seq::new(
                    c@.len(),
                    |i: int|
                        if 0 <= i < c@.len() {
                            normalized(service_name, c@[i].0@, c@[i].1, Some(path), schemas)
                        } else {
                            arbitrary()
                        },
                ),
                None => Seq::empty(),
            },
        ),
    }
}

/// The query parameters of a method, from the parameters that the document
/// declares for it.
pub fn collect_query_params(parameters: &Option<Vec<(String, Parameter)>>) -> (r: Vec<
    ZgQueryParam,
>)
    ensures
        r.deep_view() == query_params_of(*parameters),
{
    let mut out: Vec<ZgQueryParam> = Vec::new();
    match parameters {
        Some(ps) => {
            let mut i: usize = 0;
            assert(out.deep_view() =~= query_params_upto(ps@, 0));
            while i < ps.len()
                invariant
                    i <= ps.len(),
                    out.deep_view() == query_params_upto(ps@, i as nat),
                decreases ps.len() - i,
            {
                let ghost done = out.deep_view();
                let name = &ps[i].0;
                let param = &ps[i].1;
                if same(param.location.as_str(), "query") && !includes_char(name.as_str(), '.') {
                    let matched = match &param.description {
                        Some(d) => Some(regex_is_match("(?i)^\\s*required\\.", d.as_str())),
                        None => None,
                    };
                    let q = ZgQueryParam {
                        name: name.clone(),
                        description: copy_opt(&param.description),
                        required: is_marked_required(param.required, matched),
                    };
                    out.push(q);
                    assert(out.deep_view() =~= done.push(query_param_of(name@, *param)));
                }
                i += 1;
            }
        },
        None => {
            assert(out.deep_view() =~= Seq::<QueryParamView>::empty());
        },
    }
    out
}

/// Turns a method of the document into a method of the tree. Its id is the
/// document's, and it has no original id.
pub fn convert_method(method_name: String, method: &Method, schemas: &Vec<(String, Schema)>) -> (r:
    ZgMethod)
    ensures
        r@ == normalized_method(method_name@, *method, schemas.deep_view()),
{
    let request_data_schema = if same(method.http_method.as_str(), "GET") || same(
        method.http_method.as_str(),
        "DELETE",
    ) {
        None
    } else {
        match &method.request {
            Some(req) => match &req.ref_name {
                Some(n) => match find_schema(schemas, n.as_str()) {
                    Some(s) => Some(s.clone()),
                    None => None,
                },
                None => None,
            },
            None => None,
        }
    };
    let flat_path = match &method.flat_path {
        Some(f) => f.clone(),
        None => method.path.clone(),
    };
    ZgMethod {
        id: method.id.clone(),
        original_id: None,
        name: method_name,
        flat_path,
        http_method: method.http_method.clone(),
        query_params: collect_query_params(&method.parameters),
        request_data_schema,
    }
}

fn convert_methods(methods: &Option<Vec<(String, Method)>>, schemas: &Vec<(String, Schema)>) -> (r:
    Vec<ZgMethod>)
    ensures
        r.deep_view() == normalized_methods(*methods, schemas.deep_view()),
{
    let mut out: Vec<ZgMethod> = Vec::new();
    match methods {
        Some(ms) => {
            let mut i: usize = 0;
            while i < ms.len()
                invariant
                    i <= ms.len(),
                    out@.len() == i,
                    forall|j: int|
                        0 <= j < i ==> out@[j]@ == normalized_method(
                            ms@[j].0@,
                            ms@[j].1,
                            schemas.deep_view(),
                        ),
                decreases ms.len() - i,
            {
                out.push(convert_method(ms[i].0.clone(), &ms[i].1, schemas));
                i += 1;
            }
            assert(out.deep_view() =~= normalized_methods(*methods, schemas.deep_view()));
        },
        None => {
            assert(out.deep_view() =~= Seq::<MethodView>::empty());
        },
    }
    out
}

fn normalize(
    service_name: &str,
    resource_name: String,
    resource: &Resource,
    parent_path: Option<String>,
    schemas: &Vec<(String, Schema)>,
) -> (r: ZgResource)
    ensures
        r@ == normalized(
            service_name@,
            resource_name@,
            *resource,
            parent_path.deep_view(),
            schemas.deep_view(),
        ),
    decreases resource,
{
    let methods = convert_methods(&resource.methods, schemas);
    assert(methods.deep_view().len() == methods.len());
    let path: String = if methods.len() > 0 {
        assert(methods.deep_view()[0] == methods@[0]@);
        let mut labels = split_on(methods[0].id.as_str(), '.');
        let ghost all = labels.deep_view();
        labels.pop();
        assert(labels.deep_view() =~= all_but_last(all));
        join_with(&labels, ".")
    } else {
        match &parent_path {
            Some(pp) => dot_join(pp.as_str(), resource_name.as_str()),
            None => dot_join(service_name, resource_name.as_str()),
        }
    };
    let mut nested: Vec<ZgResource> = Vec::new();
    match &resource.resources {
        Some(c) => {
            let mut i: usize = 0;
            while i < c.len()
                invariant
                    resource.resources == Some(*c),
                    i <= c.len(),
                    nested@.len() == i,
                    forall|j: int|
                        0 <= j < i ==> nested@[j]@ == normalized(
                            service_name@,
                            c@[j].0@,
                            c@[j].1,
                            Some(path@),
                            schemas.deep_view(),
                        ),
                decreases c.len() - i,
            {
                proof {
                    assert(decreases_to!(resource => resource.resources->0));
                    assert(decreases_to!(resource.resources->0 => resource.resources->0[i as int]));
                    assert(decreases_to!(resource.resources->0[i as int] => resource.resources->0[i as int].1));
                }
                let kid = normalize(
                    service_name,
                    c[i].0.clone(),
                    &c[i].1,
                    Some(path.clone()),
                    schemas,
                );
                nested.push(kid);
                i += 1;
            }
        },
        None => {},
    }
    let r = ZgResource {
        name: resource_name,
        parent_path,
        path: Some(path),
        methods,
        resources: Some(nested),
    };
    proof {
        let want = normalized(
            service_name@,
            resource_name@,
            *resource,
            parent_path.deep_view(),
            schemas.deep_view(),
        );
        lemma_children_view(r);
        assert(r@.resources->0 =~= want.resources->0);
    }
    r
}

/// Turns a resource of the document into a resource of the tree, and the
/// resources declared inside it with it.
pub fn convert_resource(
    service_name: &str,
    resource_name: String,
    resource: Resource,
    parent_path: Option<String>,
    schemas: &Vec<(String, Schema)>,
) -> (r: ZgResource)
    ensures
        r@ == normalized(
            service_name@,
            resource_name@,
            resource,
            parent_path.deep_view(),
            schemas.deep_view(),
        ),
{
    normalize(service_name, resource_name, &resource, parent_path, schemas)
}

/// A segment that stands for a path parameter: `{` ... `}`.
pub open spec fn is_placeholder(seg: Seq<char>) -> bool {
    starts_with(seg, "{"@) && ends_with(seg, "}"@)
}

/// The segments of `segs` that are no placeholders, in order.
pub open spec fn literal_only(segs: Seq<Seq<char>>) -> Seq<Seq<char>>
    decreases segs.len(),
{
    if segs.len() == 0 {
        segs
    } else if is_placeholder(segs.last()) {
        literal_only(segs.drop_last())
    } else {
        literal_only(segs.drop_last()).push(segs.last())
    }
}

/// All but the last of `segs`.
pub open spec fn all_but_last(segs: Seq<Seq<char>>) -> Seq<Seq<char>> {
    if segs.len() > 0 {
        segs.drop_last()
    } else {
        segs
    }
}

/// The literal segments of a URL template that name ancestors: the template
/// is cut at `/`, placeholders are dropped, then the last segment (the
/// resource itself, or a method), then every segment equal to the version.
pub open spec fn path_segments(path_template: Seq<char>, version: Seq<char>) -> Seq<Seq<char>> {
    without(all_but_last(literal_only(split(path_template, '/'))), seq![version])
}

/// The template can tell where its resource belongs: it has no action after
/// a colon and, in Compute Engine, is no aggregated listing.
pub open spec fn valid_for_inference(service_name: Seq<char>, flat_path: Seq<char>) -> bool {
    !(has_char(flat_path, ':') || (service_name == "compute"@ && contains(
        flat_path,
        "/aggregated/"@,
    )))
}

/// The segments do not end in the resource's own name.
pub open spec fn usable_for(segs: Seq<Seq<char>>, resource_name: Seq<char>) -> bool {
    segs.len() == 0 || segs.last() != resource_name
}

/// The segments of the first method at or after `from` whose template is
/// valid and whose segments do not end in the resource's own name; no
/// segments when there is no such method.
pub open spec fn first_usable(
    service_name: Seq<char>,
    version: Seq<char>,
    resource_name: Seq<char>,
    methods: Seq<MethodView>,
    from: int,
) -> Seq<Seq<char>>
    decreases methods.len() - from,
{
    if from < 0 || from >= methods.len() {
        Seq::empty()
    } else {
        let segs = path_segments(methods[from].flat_path, version);
        if valid_for_inference(service_name, methods[from].flat_path) && usable_for(
            segs,
            resource_name,
        ) {
            segs
        } else {
            first_usable(service_name, version, resource_name, methods, from + 1)
        }
    }
}

/// The correction that a service applies to segments; none for most.
pub open spec fn service_override(
    service_name: Seq<char>,
    resource_name: Seq<char>,
    segs: Seq<Seq<char>>,
) -> Seq<Seq<char>> {
    if service_name == "storage"@ {
        storage_parents(resource_name, segs)
    } else if service_name == "compute"@ {
        compute_parents(resource_name, segs)
    } else if service_name == "sqladmin"@ {
        sqladmin_parents(segs)
    } else {
        segs
    }
}

/// The names of the ancestors of a resource, outermost first, as its
/// methods' URL templates imply them.
pub open spec fn parent_resources(
    service_name: Seq<char>,
    version: Seq<char>,
    resource_name: Seq<char>,
    methods: Seq<MethodView>,
) -> Seq<Seq<char>> {
    service_override(
        service_name,
        resource_name,
        first_usable(service_name, version, resource_name, methods, 0),
    )
}

/// The method with its id rewritten to lie under `resource_path`, and the id
/// it had kept as the original one.
pub open spec fn rebased_method(m: MethodView, resource_path: Seq<char>) -> MethodView {
    MethodView {
        id: dotted(resource_path, m.name),
        original_id: Some(m.id),
        name: m.name,
        flat_path: m.flat_path,
        http_method: m.http_method,
        query_params: m.query_params,
        request_data_schema: m.request_data_schema,
    }
}

/// Every method rewritten to lie under `resource_path`.
pub open spec fn rebased_methods(ms: Seq<MethodView>, resource_path: Seq<char>) -> Seq<
    MethodView,
> {
    Seq::new(ms.len(), |i: int| rebased_method(ms[i], resource_path))
}

/// The parent path of a resource: the inherited one where it is nested in a
/// resource of the document; else the service name and the ancestors that
/// its URL templates imply, joined by dots; none where they imply none.
pub open spec fn inferred_parent_path(
    service_name: Seq<char>,
    version: Seq<char>,
    r: ResourceView,
    inherited: Option<Seq<char>>,
) -> Option<Seq<char>> {
    match inherited {
        Some(p) => Some(p),
        None => {
            let parents = parent_resources(service_name, version, r.name, r.methods);
            if parents.len() > 0 {
                Some(join(seq![service_name] + parents, "."@))
            } else {
                None
            }
        },
    }
}

/// The canonical path of a resource called `name` under `parent_path`, or
/// directly under the service.
pub open spec fn canonical_path(
    service_name: Seq<char>,
    name: Seq<char>,
    parent_path: Option<Seq<char>>,
) -> Seq<char> {
    match parent_path {
        Some(pp) => dotted(pp, name),
        None => dotted(service_name, name),
    }
}

/// The resource with its paths inferred, the ids of its methods rewritten,
/// and the same done to what is nested in it, which inherits its path.
pub open spec fn rebased(
    service_name: Seq<char>,
    version: Seq<char>,
    r: ResourceView,
    inherited: Option<Seq<char>>,
) -> ResourceView
    decreases r,
{
    let parent_path = inferred_parent_path(service_name, version, r, inherited);
    let path = canonical_path(service_name, r.name, parent_path);
    ResourceView {
        name: r.name,
        parent_path: parent_path,
        path: Some(path),
        methods: rebased_methods(r.methods, path),
        resources: match r.resources {
            Some(c) => Some(
                Seq::new(
                    c.len(),
                    |i: int|
                        if 0 <= i < c.len() {
                            rebased(service_name, version, c[i], Some(path))
                        } else {
                            arbitrary()
                        },
                ),
            ),
            None => None,
        },
    }
}

/// Every top-level resource with its paths inferred.
pub open spec fn rebased_forest(
    service_name: Seq<char>,
    version: Seq<char>,
    rs: Seq<ResourceView>,
) -> Seq<ResourceView> {
    Seq::new(rs.len(), |i: int| rebased(service_name, version, rs[i], None))
}

/// The part of a service id before its first colon.
pub open spec fn service_of(api_id: Seq<char>) -> Seq<char> {
    match split_once(api_id, ':') {
        Some(parts) => parts.0,
        None => api_id,
    }
}

/// The part of a service id after its first colon.
pub open spec fn version_of(api_id: Seq<char>) -> Seq<char> {
    match split_once(api_id, ':') {
        Some(parts) => parts.1,
        None => Seq::empty(),
    }
}

/// The service with the paths of all its resources inferred.
pub open spec fn with_inferred_paths(a: ApiView) -> ApiView {
    ApiView {
        id: a.id,
        name: a.name,
        version: a.version,
        revision: a.revision,
        base_url: a.base_url,
        resources: rebased_forest(service_of(a.id), version_of(a.id), a.resources),
        schemas: a.schemas,
    }
}

fn drop_placeholders(pieces: Vec<String>) -> (r: Vec<String>)
    ensures
        r.deep_view() == literal_only(pieces.deep_view()),
{
    let ghost all = pieces.deep_view();
    let mut out: Vec<String> = Vec::new();
    let mut i: usize = 0;
    assert(all.subrange(0, 0) =~= Seq::<Seq<char>>::empty());
    assert(out.deep_view() =~= Seq::<Seq<char>>::empty());
    while i < pieces.len()
        invariant
            i <= pieces.len(),
            all == pieces.deep_view(),
            out.deep_view() == literal_only(all.subrange(0, i as int)),
        decreases pieces.len() - i,
    {
        let ghost done = out.deep_view();
        proof {
            let t = all.subrange(0, i + 1);
            assert(t.drop_last() =~= all.subrange(0, i as int));
            assert(t.last() == pieces@[i as int]@);
        }
        let seg = pieces[i].as_str();
        if !(begins_with(seg, "{") && finishes_with(seg, "}")) {
            out.push(pieces[i].clone());
            assert(out.deep_view() =~= done.push(pieces@[i as int]@));
        }
        i += 1;
    }
    assert(all.subrange(0, pieces.len() as int) =~= all);
    out
}

/// The literal segments of a URL template that name ancestors.
pub fn segments(path_template: &str, version: &str) -> (r: Vec<String>)
    ensures
        r.deep_view() == path_segments(path_template@, version@),
{
    let pieces = split_on(path_template, '/');
    let mut literal = drop_placeholders(pieces);
    let ghost before = literal.deep_view();
    literal.pop();
    assert(literal.deep_view() =~= all_but_last(before));
    let banned: Vec<&str> = vec![version];
    assert(banned.deep_view() =~= seq![version@]);
    excluding(literal, &banned)
}

/// Whether a URL template can tell where its resource belongs.
pub fn is_valid_flat_path(service_name: &str, flat_path: &str) -> (r: bool)
    ensures
        r == valid_for_inference(service_name@, flat_path@),
{
    !(includes_char(flat_path, ':') || (same(service_name, "compute") && includes(
        flat_path,
        "/aggregated/",
    )))
}

fn first_usable_segments(
    service_name: &str,
    version: &str,
    resource_name: &str,
    methods: &Vec<ZgMethod>,
) -> (r: Vec<String>)
    ensures
        r.deep_view() == first_usable(
            service_name@,
            version@,
            resource_name@,
            methods.deep_view(),
            0,
        ),
{
    let mut i: usize = 0;
    while i < methods.len()
        invariant
            i <= methods.len(),
            first_usable(service_name@, version@, resource_name@, methods.deep_view(), 0)
                == first_usable(
                service_name@,
                version@,
                resource_name@,
                methods.deep_view(),
                i as int,
            ),
        decreases methods.len() - i,
    {
        let flat_path = methods[i].flat_path.as_str();
        assert(methods.deep_view()[i as int].flat_path == flat_path@);
        if is_valid_flat_path(service_name, flat_path) {
            let segs = segments(flat_path, version);
            assert(segs.deep_view().len() == segs.len());
            let usable = segs.len() == 0 || !same(segs[segs.len() - 1].as_str(), resource_name);
            proof {
                if segs.len() > 0 {
                    assert(segs.deep_view().last() == segs@[segs.len() - 1]@);
                }
            }
            if usable {
                return segs;
            }
        }
        i += 1;
    }
    let none: Vec<String> = Vec::new();
    assert(none.deep_view() =~= Seq::<Seq<char>>::empty());
    none
}

/// The names of the ancestors of a resource, outermost first, as the URL
/// templates of its methods imply them.
pub fn build_parent_resources(
    service_name: &str,
    version: &str,
    resource_name: &str,
    methods: &Vec<ZgMethod>,
) -> (r: Vec<String>)
    ensures
        r.deep_view() == parent_resources(
            service_name@,
            version@,
            resource_name@,
            methods.deep_view(),
        ),
{
    let segs = first_usable_segments(service_name, version, resource_name, methods);
    if same(service_name, "storage") {
        transform_storage_parents(resource_name, segs)
    } else if same(service_name, "compute") {
        transform_compute_parents(resource_name, segs)
    } else if same(service_name, "sqladmin") {
        transform_sqladmin_parents(segs)
    } else {
        segs
    }
}

fn rebase_methods(methods: &Vec<ZgMethod>, resource_path: &str) -> (r: Vec<ZgMethod>)
    ensures
        r.deep_view() == rebased_methods(methods.deep_view(), resource_path@),
{
    let mut out: Vec<ZgMethod> = Vec::new();
    let mut i: usize = 0;
    while i < methods.len()
        invariant
            i <= methods.len(),
            out@.len() == i,
            forall|j: int| 0 <= j < i ==> out@[j]@ == rebased_method(methods@[j]@, resource_path@),
        decreases methods.len() - i,
    {
        let m = &methods[i];
        let mut n = m.clone();
        n.original_id = Some(m.id.clone());
        n.id = dot_join(resource_path, m.name.as_str());
        out.push(n);
        i += 1;
    }
    assert(out.deep_view() =~= rebased_methods(methods.deep_view(), resource_path@));
    out
}

fn rebase(resource: &ZgResource, service_name: &str, version: &str, inherited: Option<&str>) -> (r:
    ZgResource)
    ensures
        r@ == rebased(service_name@, version@, resource@, inherited.deep_view()),
    decreases resource,
{
    let parent_path: Option<String> = match inherited {
        Some(p) => Some(p.to_owned()),
        None => {
            let mut parents = build_parent_resources(
                service_name,
                version,
                resource.name.as_str(),
                &resource.methods,
            );
            assert(parents.deep_view().len() == parents.len());
            if parents.len() > 0 {
                let ghost names = parents.deep_view();
                let mut chain: Vec<String> = Vec::new();
                chain.push(service_name.to_owned());
                chain.append(&mut parents);
                assert(chain.deep_view() =~= seq![service_name@] + names);
                Some(join_with(&chain, "."))
            } else {
                None
            }
        },
    };
    let path: String = match &parent_path {
        Some(pp) => dot_join(pp.as_str(), resource.name.as_str()),
        None => dot_join(service_name, resource.name.as_str()),
    };
    let methods = rebase_methods(&resource.methods, path.as_str());
    proof {
        lemma_children_view(*resource);
    }
    let resources = match &resource.resources {
        Some(c) => {
            let mut out: Vec<ZgResource> = Vec::new();
            let mut i: usize = 0;
            while i < c.len()
                invariant
                    resource.resources == Some(*c),
                    i <= c.len(),
                    out@.len() == i,
                    forall|j: int|
                        0 <= j < i ==> out@[j]@ == rebased(
                            service_name@,
                            version@,
                            c@[j]@,
                            Some(path@),
                        ),
                decreases c.len() - i,
            {
                proof {
                    assert(decreases_to!(resource => resource.resources->0));
                    assert(decreases_to!(resource.resources->0 => resource.resources->0[i as int]));
                }
                let kid = rebase(&c[i], service_name, version, Some(path.as_str()));
                out.push(kid);
                i += 1;
            }
            Some(out)
        },
        None => None,
    };
    let r = ZgResource { name: resource.name.clone(), parent_path, path: Some(path), methods, resources };
    proof {
        let want = rebased(service_name@, version@, resource@, inherited.deep_view());
        lemma_children_view(r);
        if resource.resources is Some {
            assert(r@.resources->0 =~= want.resources->0);
        }
    }
    r
}

/// Gives every resource the canonical path that its URL templates imply,
/// and every method an id under the path of its resource, with the id that
/// it had as its original id. The service is changed in place, and a copy
/// of it is returned.
pub fn update_resource_paths(api: &mut ZgApi) -> (r: ZgApi)
    requires
        has_char(old(api).id@, ':'),
    ensures
        final(api)@ == with_inferred_paths(old(api)@),
        r@ == final(api)@,
        keeps_ids(
            forest_methods(old(api)@.resources, old(api)@.resources.len()),
            forest_methods(final(api)@.resources, final(api)@.resources.len()),
        ),
{
    let parts = cut_once(api.id.as_str(), ':');
    let (service_name, version) = match parts {
        Some(p) => p,
        None => (String::new(), String::new()),
    };
    assert(service_name@ == service_of(api.id@));
    assert(version@ == version_of(api.id@));
    let mut out: Vec<ZgResource> = Vec::new();
    let mut i: usize = 0;
    while i < api.resources.len()
        invariant
            *api == *old(api),
            i <= api.resources.len(),
            out@.len() == i,
            forall|j: int|
                0 <= j < i ==> out@[j]@ == rebased(
                    service_name@,
                    version@,
                    api.resources@[j]@,
                    None,
                ),
        decreases api.resources.len() - i,
    {
        let resource = rebase(&api.resources[i], service_name.as_str(), version.as_str(), None);
        out.push(resource);
        i += 1;
    }
    assert(out.deep_view() =~= rebased_forest(
        service_name@,
        version@,
        api.resources.deep_view(),
    ));
    proof {
        lemma_rewriting_keeps_ids(service_name@, version@, api.resources.deep_view());
    }
    api.resources = out;
    api.clone()
}

/// The position of the first resource at or after `from` whose canonical
/// path is `path`.
pub open spec fn sibling_at(kids: Seq<ResourceView>, path: Option<Seq<char>>, from: int) -> Option<
    int,
>
    decreases kids.len() - from,
{
    if from < 0 || from >= kids.len() {
        None
    } else if kids[from].path == path {
        Some(from)
    } else {
        sibling_at(kids, path, from + 1)
    }
}

/// The resource with `more` added after its own methods.
pub open spec fn with_more_methods(r: ResourceView, more: Seq<MethodView>) -> ResourceView {
    ResourceView {
        name: r.name,
        parent_path: r.parent_path,
        path: r.path,
        methods: r.methods + more,
        resources: r.resources,
    }
}

/// The resource with `kids` as what is nested in it.
pub open spec fn with_children(r: ResourceView, kids: Seq<ResourceView>) -> ResourceView {
    ResourceView {
        name: r.name,
        parent_path: r.parent_path,
        path: r.path,
        methods: r.methods,
        resources: Some(kids),
    }
}

/// The children of a parent after it takes in `child`: where one of them
/// has the child's canonical path already, that one gets the child's
/// methods after its own; else the child becomes the last of them.
pub open spec fn adopted(kids: Seq<ResourceView>, child: ResourceView) -> Seq<ResourceView> {
    match sibling_at(kids, child.path, 0) {
        Some(k) => kids.update(k, with_more_methods(kids[k], child.methods)),
        None => kids.push(child),
    }
}

/// The forest after `child` is taken in by the first resource, in
/// depth-first order from tree `from` on, whose canonical path is the
/// child's parent path; `None` when no resource has that path.
pub open spec fn grafted(rs: Seq<ResourceView>, from: int, child: ResourceView) -> Option<
    Seq<ResourceView>,
>
    decreases rs, rs.len() - from,
{
    if from < 0 || from >= rs.len() {
        None
    } else {
        match grafted_into(rs[from], child) {
            Some(node) => Some(rs.update(from, node)),
            None => grafted(rs, from + 1, child),
        }
    }
}

/// The tree after `child` is taken in by its root, where the root has the
/// child's parent path, or else somewhere below the root.
pub open spec fn grafted_into(node: ResourceView, child: ResourceView) -> Option<ResourceView>
    decreases node, 0int,
{
    if node.path == child.parent_path {
        let kids = match node.resources {
            Some(c) => c,
            None => Seq::empty(),
        };
        Some(with_children(node, adopted(kids, child)))
    } else {
        match node.resources {
            Some(c) => match grafted(c, 0, child) {
                Some(kids) => Some(with_children(node, kids)),
                None => None,
            },
            None => None,
        }
    }
}

fn adopt(kids: &mut Vec<ZgResource>, child: &ZgResource)
    ensures
        final(kids).deep_view() == adopted(old(kids).deep_view(), child@),
{
    let ghost before = kids.deep_view();
    let mut k: usize = 0;
    while k < kids.len()
        invariant
            k <= kids.len(),
            before == old(kids).deep_view(),
            kids.deep_view() == before,
            sibling_at(before, child@.path, 0) == sibling_at(before, child@.path, k as int),
        decreases kids.len() - k,
    {
        assert(before[k as int] == kids@[k as int]@);
        if same_opt(&kids[k].path, &child.path) {
            assert(sibling_at(before, child@.path, k as int) == Some(k as int));
            let mut more = copy_methods(&child.methods);
            let ghost own = kids@[k as int];
            let ghost listed = kids@;
            let ghost added = more.deep_view();
            let mut sibling = kids.remove(k);
            sibling.methods.append(&mut more);
            proof {
                assert(sibling.methods.deep_view() =~= own@.methods + added);
                lemma_children_view(sibling);
                lemma_children_view(own);
                assert(sibling@ == with_more_methods(own@, child@.methods));
            }
            kids.insert(k, sibling);
            proof {
                assert(kids@ =~= listed.update(k as int, sibling));
                assert(kids.deep_view() =~= before.update(k as int, sibling@));
            }
            return ;
        }
        k += 1;
    }
    kids.push(child.clone());
    assert(kids.deep_view() =~= before.push(child@));
}

/// Hangs `child_resource` under the resource whose canonical path is its
/// parent path, and says whether there was one. The forest is unchanged when
/// there was none.
pub fn insert_child_resource(resources: &mut Vec<ZgResource>, child_resource: &ZgResource) -> (inserted:
    bool)
    ensures
        match grafted(old(resources).deep_view(), 0, child_resource@) {
            Some(forest) => inserted && final(resources).deep_view() == forest,
            None => !inserted && final(resources).deep_view() == old(resources).deep_view(),
        },
    decreases *old(resources),
{
    let ghost before = resources.deep_view();
    let ghost child = child_resource@;
    let mut i: usize = 0;
    while i < resources.len()
        invariant
            i <= resources.len(),
            resources.len() == old(resources).len(),
            forall|j: int| i <= j < resources.len() ==> resources@[j] == old(resources)@[j],
            before == old(resources).deep_view(),
            before == resources.deep_view(),
            child == child_resource@,
            grafted(before, 0, child) == grafted(before, i as int, child),
        decreases resources.len() - i,
    {
        let ghost listed = resources@;
        let ghost orig = resources@[i as int];
        proof {
            assert(before[i as int] == orig@);
            lemma_children_view(orig);
        }
        if same_opt(&resources[i].path, &child_resource.parent_path) {
            let node = resources.remove(i);
            let ZgResource { name, parent_path, path, methods, resources: nested } = node;
            let mut kids: Vec<ZgResource> = match nested {
                Some(c) => c,
                None => Vec::new(),
            };
            let ghost kids_before = kids.deep_view();
            proof {
                if orig.resources is None {
                    assert(kids_before =~= Seq::<ResourceView>::empty());
                }
            }
            adopt(&mut kids, child_resource);
            let node = ZgResource { name, parent_path, path, methods, resources: Some(kids) };
            proof {
                lemma_children_view(node);
                assert(node@ == with_children(orig@, adopted(kids_before, child)));
                assert(grafted_into(orig@, child) == Some(node@));
            }
            resources.insert(i, node);
            proof {
                assert(resources@ =~= listed.update(i as int, node));
                assert(resources.deep_view() =~= before.update(i as int, node@));
            }
            return true;
        }
        if resources[i].resources.is_some() {
            let node = resources.remove(i);
            let ZgResource { name, parent_path, path, methods, resources: nested } = node;
            let mut kids: Vec<ZgResource> = nested.unwrap();
            proof {
                assert(decreases_to!(*old(resources) => old(resources)[i as int]));
                assert(decreases_to!(old(resources)[i as int] => old(resources)[i as int].resources->0));
            }
            let ghost kids_before = kids.deep_view();
            let done = insert_child_resource(&mut kids, child_resource);
            let node = ZgResource { name, parent_path, path, methods, resources: Some(kids) };
            proof {
                lemma_children_view(node);
            }
            resources.insert(i, node);
            proof {
                assert(resources@ =~= listed.update(i as int, node));
            }
            if done {
                proof {
                    assert(node@ == with_children(orig@, grafted(kids_before, 0, child)->0));
                    assert(grafted_into(orig@, child) == Some(node@));
                    assert(resources.deep_view() =~= before.update(i as int, node@));
                }
                return true;
            }
            proof {
                assert(node@ == orig@);
                assert(grafted_into(orig@, child) is None);
                assert(resources.deep_view() =~= before);
            }
        } else {
            assert(grafted_into(orig@, child) is None);
        }
        i += 1;
    }
    false
}

/// Those of the first `n` resources that have a parent path, in order.
pub open spec fn with_parent(rs: Seq<ResourceView>, n: nat) -> Seq<ResourceView>
    decreases n,
{
    if n == 0 || n > rs.len() {
        Seq::empty()
    } else if rs[n - 1].parent_path is Some {
        with_parent(rs, (n - 1) as nat).push(rs[n - 1])
    } else {
        with_parent(rs, (n - 1) as nat)
    }
}

/// Those of the first `n` resources that have no parent path, in order.
pub open spec fn parentless(rs: Seq<ResourceView>, n: nat) -> Seq<ResourceView>
    decreases n,
{
    if n == 0 || n > rs.len() {
        Seq::empty()
    } else if rs[n - 1].parent_path is None {
        parentless(rs, (n - 1) as nat).push(rs[n - 1])
    } else {
        parentless(rs, (n - 1) as nat)
    }
}

/// The forest after every pending resource has been hung under its parent.
///
/// The last pending resource is tried first. One whose parent is in the
/// forest is hung there and leaves the list. One whose parent is not there
/// yet goes to the front of the list, so that the others are tried before
/// it comes up again. `misses` counts the resources that were tried in vain
/// since the forest last changed: when it reaches the length of the list,
/// every pending resource has been tried on the present forest, none can
/// ever be placed, and the reassembly fails, naming the one tried last.
pub open spec fn reassembled(forest: Seq<ResourceView>, pending: Seq<ResourceView>, misses: nat)
    -> Result<Seq<ResourceView>, ErrorView>
    decreases pending.len(), pending.len() - misses,
{
    if pending.len() == 0 {
        Ok(forest)
    } else {
        let child = pending.last();
        match grafted(forest, 0, child) {
            Some(grown) => reassembled(grown, pending.drop_last(), 0),
            None => if misses + 1 >= pending.len() {
                Err(ErrorView::StructuralInconsistency(child.name))
            } else {
                reassembled(forest, seq![child] + pending.drop_last(), misses + 1)
            },
        }
    }
}

/// The service with `forest` as its top-level resources.
pub open spec fn with_resources(a: ApiView, forest: Seq<ResourceView>) -> ApiView {
    ApiView {
        id: a.id,
        name: a.name,
        version: a.version,
        revision: a.revision,
        base_url: a.base_url,
        resources: forest,
        schemas: a.schemas,
    }
}

/// The service with its hierarchy rebuilt: paths inferred, then every
/// resource that has a parent path hung under the resource of that path.
pub open spec fn rebuilt(a: ApiView) -> Result<ApiView, ErrorView> {
    let flat = with_inferred_paths(a).resources;
    match reassembled(parentless(flat, flat.len()), with_parent(flat, flat.len()), 0) {
        Ok(forest) => Ok(with_resources(a, forest)),
        Err(e) => Err(e),
    }
}

/// Rebuilds the hierarchy of a service that declares its resources flat.
///
/// The service given is left with its paths inferred and its resources
/// still flat; the rebuilt service is returned. It fails where a resource
/// has a parent path that no resource has or comes to have.
pub fn rebuild_hierarchy(original_api: &mut ZgApi) -> (r: Result<ZgApi, ZgError>)
    requires
        has_char(old(original_api).id@, ':'),
    ensures
        final(original_api)@ == with_inferred_paths(old(original_api)@),
        match r {
            Ok(api) => rebuilt(old(original_api)@) == Ok::<ApiView, ErrorView>(api@),
            Err(e) => rebuilt(old(original_api)@) == Err::<ApiView, ErrorView>(e@),
        },
{
    let mut api = update_resource_paths(original_api);
    let ghost flat = api@.resources;
    let mut pending: Vec<ZgResource> = Vec::new();
    let mut top: Vec<ZgResource> = Vec::new();
    let mut i: usize = 0;
    assert(pending.deep_view() =~= with_parent(flat, 0));
    assert(top.deep_view() =~= parentless(flat, 0));
    while i < api.resources.len()
        invariant
            i <= api.resources.len(),
            flat == api.resources.deep_view(),
            pending.deep_view() == with_parent(flat, i as nat),
            top.deep_view() == parentless(flat, i as nat),
        decreases api.resources.len() - i,
    {
        let resource = &api.resources[i];
        let ghost had_pending = pending.deep_view();
        let ghost had_top = top.deep_view();
        assert(flat[i as int] == resource@);
        if resource.parent_path.is_some() {
            pending.push(resource.clone());
            assert(pending.deep_view() =~= had_pending.push(resource@));
        } else {
            top.push(resource.clone());
            assert(top.deep_view() =~= had_top.push(resource@));
        }
        i += 1;
    }
    let ghost goal = reassembled(top.deep_view(), pending.deep_view(), 0);
    let mut misses: usize = 0;
    assert(rebuilt(old(original_api)@) == match goal {
        Ok(forest) => Ok::<ApiView, ErrorView>(with_resources(old(original_api)@, forest)),
        Err(e) => Err::<ApiView, ErrorView>(e),
    });
    while pending.len() > 0
        invariant
            original_api@ == with_inferred_paths(old(original_api)@),
            api@ == with_inferred_paths(old(original_api)@),
            rebuilt(old(original_api)@) == match goal {
                Ok(forest) => Ok::<ApiView, ErrorView>(with_resources(old(original_api)@, forest)),
                Err(e) => Err::<ApiView, ErrorView>(e),
            },
            misses < pending.len() || pending.len() == 0,
            goal == reassembled(top.deep_view(), pending.deep_view(), misses as nat),
        decreases pending.len(), pending.len() - misses,
    {
        let ghost waiting = pending.deep_view();
        let popped = pending.pop();
        let child = popped.unwrap();
        proof {
            assert(waiting.last() == child@);
            assert(pending.deep_view() =~= waiting.drop_last());
        }
        if insert_child_resource(&mut top, &child) {
            misses = 0;
        } else {
            if misses + 1 >= pending.len() + 1 {
                return Err(ZgError::StructuralInconsistency(child.name));
            }
            let ghost rest = pending.deep_view();
            let ghost put_back = child@;
            pending.insert(0, child);
            assert(pending.deep_view() =~= seq![put_back] + rest);
            misses += 1;
        }
    }
    api.resources = top;
    Ok(api)
}

/// The service is one of those that declare their resources flat, so that
/// their hierarchy has to be rebuilt.
pub open spec fn is_flat_service(api_id: Seq<char>) -> bool {
    ||| api_id == "bigquery:v2"@
    ||| api_id == "compute:v1"@
    ||| api_id == "sqladmin:v1"@
    ||| api_id == "sqladmin:v1beta4"@
    ||| api_id == "storage:v1"@
}

/// Whether the hierarchy of the service has to be rebuilt.
pub fn needs_rebuild(api_id: &str) -> (r: bool)
    ensures
        r == is_flat_service(api_id@),
{
    same(api_id, "bigquery:v2") || same(api_id, "compute:v1") || same(api_id, "sqladmin:v1")
        || same(api_id, "sqladmin:v1beta4") || same(api_id, "storage:v1")
}

/// The id of a flat service has a colon between name and version.
pub proof fn lemma_flat_service_has_colon(api_id: Seq<char>)
    requires
        is_flat_service(api_id),
    ensures
        has_char(api_id, ':'),
{
    reveal_strlit("bigquery:v2");
    reveal_strlit("compute:v1");
    reveal_strlit("sqladmin:v1");
    reveal_strlit("sqladmin:v1beta4");
    reveal_strlit("storage:v1");
    if api_id == "bigquery:v2"@ || api_id == "sqladmin:v1"@ || api_id == "sqladmin:v1beta4"@ {
        assert(api_id[8] == ':');
    } else {
        assert(api_id[7] == ':');
    }
}

/// The top-level resources that the resources of a document become.
pub open spec fn normalized_forest(
    service_name: Seq<char>,
    resources: Option<Vec<(String, Resource)>>,
    schemas: Seq<(Seq<char>, SchemaView)>,
) -> Seq<ResourceView> {
    match resources {
        Some(c) => Seq::new(
            c@.len(),
            |i: int| normalized(service_name, c@[i].0@, c@[i].1, None, schemas),
        ),
        None => Seq::empty(),
    }
}

/// The schemas of a document; none where it declares none.
pub open spec fn declared_schemas(schemas: Option<Vec<(String, Schema)>>) -> Seq<
    (Seq<char>, SchemaView),
> {
    match schemas {
        Some(s) => s.deep_view(),
        None => Seq::empty(),
    }
}

/// The service that a document describes, its resources nested as the
/// document nests them.
pub open spec fn normalized_api(d: ApiDescription) -> ApiView {
    ApiView {
        id: d.id@,
        name: d.name@,
        version: d.version@,
        revision: d.revision@,
        base_url: d.base_url@,
        resources: normalized_forest(d.name@, d.resources, declared_schemas(d.schemas)),
        schemas: declared_schemas(d.schemas),
    }
}

/// The service that a document describes: as the document nests it, or,
/// for a service that declares its resources flat, with its hierarchy
/// rebuilt.
pub open spec fn extracted(d: ApiDescription) -> Result<ApiView, ErrorView> {
    if is_flat_service(d.id@) {
        rebuilt(normalized_api(d))
    } else {
        Ok(normalized_api(d))
    }
}

/// Builds the resource tree of the service that a discovery document
/// describes. The tree is well nested.
pub fn extract_api(api_description: ApiDescription) -> (r: Result<ZgApi, ZgError>)
    ensures
        match r {
            Ok(api) => extracted(api_description) == Ok::<ApiView, ErrorView>(api@)
                && all_well_nested(api@.resources),
            Err(e) => extracted(api_description) == Err::<ApiView, ErrorView>(e@),
        },
{
    let ghost d = api_description;
    let ApiDescription {
        kind: _,
        id,
        name,
        version,
        revision,
        canonical_name: _,
        description: _,
        discovery_version: _,
        base_url,
        base_path: _,
        documentation_link: _,
        parameters: _,
        protocol: _,
        resources: declared,
        schemas: declared_schemas,
    } = api_description;
    let schemas: Vec<(String, Schema)> = match declared_schemas {
        Some(s) => s,
        None => Vec::new(),
    };
    assert(schemas.deep_view() =~= self::declared_schemas(d.schemas));
    let mut resources: Vec<ZgResource> = Vec::new();
    match &declared {
        Some(c) => {
            let mut i: usize = 0;
            while i < c.len()
                invariant
                    i <= c.len(),
                    resources@.len() == i,
                    forall|j: int|
                        0 <= j < i ==> resources@[j]@ == normalized(
                            name@,
                            c@[j].0@,
                            c@[j].1,
                            None,
                            schemas.deep_view(),
                        ),
                decreases c.len() - i,
            {
                let resource = normalize(name.as_str(), c[i].0.clone(), &c[i].1, None, &schemas);
                resources.push(resource);
                i += 1;
            }
        },
        None => {},
    }
    assert(resources.deep_view() =~= normalized_forest(name@, d.resources, schemas.deep_view()));
    let mut api = ZgApi { id, name, version, revision, base_url, resources, schemas };
    assert(api@ == normalized_api(d));
    let r = if needs_rebuild(api.id.as_str()) {
        proof {
            lemma_flat_service_has_colon(api.id@);
        }
        rebuild_hierarchy(&mut api)
    } else {
        Ok(api)
    };
    proof {
        if r is Ok {
            lemma_extracted_is_well_nested(d, r->Ok_0@);
        }
    }
    r
}

} // verus!
