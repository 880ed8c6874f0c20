//! The discovery document: the description of a service as its publisher
//! gives it, before any normalization.
//!
//! The maps of a document (resources, methods, parameters, schemas, all
//! keyed by name) are held as vectors of `(name, value)` pairs, in the order
//! in which the document is walked.

use crate::supported_apis::{SupportedApi, SupportedApiView};
use crate::text::{copy_opt, copy_strings, glue, replace_all, replaced, same};
use vstd::prelude::*;

verus! {

/// The model of a [`Schema`].
pub struct SchemaView {
    pub id: Option<Seq<char>>,
    pub description: Option<Seq<char>>,
    pub properties: Option<Seq<(Seq<char>, SchemaPropertyView)>>,
}

/// The model of a [`SchemaProperty`].
pub struct SchemaPropertyView {
    pub description: Option<Seq<char>>,
    pub prop_type: Option<Seq<char>>,
    pub format: Option<Seq<char>>,
    pub items: Option<Box<SchemaView>>,
    pub properties: Option<Seq<(Seq<char>, SchemaView)>>,
    pub ref_name: Option<Seq<char>>,
    pub read_only: bool,
    pub annotations: Option<Seq<Seq<char>>>,
}

/// The shape of a request or response body.
#[derive(Debug)]
pub struct Schema {
    pub id: Option<String>,
    pub description: Option<String>,
    pub properties: Option<Vec<(String, SchemaProperty)>>,
}

/// One property of a [`Schema`].
#[derive(Debug)]
pub struct SchemaProperty {
    pub description: Option<String>,
    pub prop_type: Option<String>,
    pub format: Option<String>,
    pub items: Option<Box<Schema>>,
    pub properties: Option<Vec<(String, Schema)>>,
    /// The name of another schema that this property stands for.
    pub ref_name: Option<String>,
    pub read_only: bool,
    pub annotations: Option<SchemaPropertyAnnotation>,
}

/// The ids of the methods for which a property is required.
#[derive(Debug)]
pub struct SchemaPropertyAnnotation {
    pub required: Vec<String>,
}

impl View for SchemaPropertyAnnotation {
    type V = Seq<Seq<char>>;

    open spec fn view(&self) -> Seq<Seq<char>> {
        self.required.deep_view()
    }
}

impl DeepView for SchemaPropertyAnnotation {
    type V = Seq<Seq<char>>;

    open spec fn deep_view(&self) -> Seq<Seq<char>> {
        self@
    }
}

/// The model of a schema: its own fields, and the models of its properties.
pub open spec fn schema_view(s: Schema) -> SchemaView
    decreases s,
{
    SchemaView {
        id: s.id.deep_view(),
        description: s.description.deep_view(),
        properties: match s.properties {
            Some(ps) => Some(
                Seq::new(
                    ps@.len(),
                    |i: int|
                        if 0 <= i < ps@.len() {
                            (ps@[i].0@, property_view(ps@[i].1))
                        } else {
                            arbitrary()
                        },
                ),
            ),
            None => None,
        },
    }
}

/// The model of a property: its own fields, and the models of the schemas
/// that it holds.
pub open spec fn property_view(p: SchemaProperty) -> SchemaPropertyView
    decreases p,
{
    SchemaPropertyView {
        description: p.description.deep_view(),
        prop_type: p.prop_type.deep_view(),
        format: p.format.deep_view(),
        items: match p.items {
            Some(b) => Some(Box::new(schema_view(*b))),
            None => None,
        },
        properties: match p.properties {
            Some(ps) => Some(
                Seq::new(
                    ps@.len(),
                    |i: int|
                        if 0 <= i < ps@.len() {
                            (ps@[i].0@, schema_view(ps@[i].1))
                        } else {
                            arbitrary()
                        },
                ),
            ),
            None => None,
        },
        ref_name: p.ref_name.deep_view(),
        read_only: p.read_only,
        annotations: p.annotations.deep_view(),
    }
}

impl View for Schema {
    type V = SchemaView;

    open spec fn view(&self) -> SchemaView {
        schema_view(*self)
    }
}

impl DeepView for Schema {
    type V = SchemaView;

    open spec fn deep_view(&self) -> SchemaView {
        self@
    }
}

impl View for SchemaProperty {
    type V = SchemaPropertyView;

    open spec fn view(&self) -> SchemaPropertyView {
        property_view(*self)
    }
}

impl DeepView for SchemaProperty {
    type V = SchemaPropertyView;

    open spec fn deep_view(&self) -> SchemaPropertyView {
        self@
    }
}

impl Clone for SchemaPropertyAnnotation {
    fn clone(&self) -> (r: Self)
        ensures
            r@ == self@,
    {
        SchemaPropertyAnnotation { required: copy_strings(&self.required) }
    }
}

impl Clone for Schema {
    fn clone(&self) -> (r: Self)
        ensures
            r@ == self@,
    {
        copy_schema(self)
    }
}

impl Clone for SchemaProperty {
    fn clone(&self) -> (r: Self)
        ensures
            r@ == self@,
    {
        copy_property(self)
    }
}

fn copy_schema(s: &Schema) -> (r: Schema)
    ensures
        r@ == s@,
    decreases *s,
{
    let properties = match &s.properties {
        Some(ps) => {
            let mut out: Vec<(String, SchemaProperty)> = Vec::new();
            let mut i: usize = 0;
            while i < ps.len()
                invariant
                    s.properties == Some(*ps),
                    i <= ps.len(),
                    out@.len() == i,
                    forall|j: int|
                        0 <= j < i ==> out@[j].0@ == ps@[j].0@ && out@[j].1@ == ps@[j].1@,
                decreases ps.len() - i,
            {
                proof {
                    assert(decreases_to!(*s => s.properties->0));
                    assert(decreases_to!(s.properties->0 => s.properties->0[i as int]));
                    assert(decreases_to!(s.properties->0[i as int] => s.properties->0[i as int].1));
                }
                let p = copy_property(&ps[i].1);
                out.push((ps[i].0.clone(), p));
                i += 1;
            }
            Some(out)
        },
        None => None,
    };
    let r = Schema { id: copy_opt(&s.id), description: copy_opt(&s.description), properties };
    proof {
        if s.properties is Some {
            assert(r@.properties->0 =~= s@.properties->0);
        }
    }
    r
}

fn copy_property(p: &SchemaProperty) -> (r: SchemaProperty)
    ensures
        r@ == p@,
    decreases *p,
{
    let items = match &p.items {
        Some(b) => {
            proof {
                assert(decreases_to!(*p => p.items->0));
            }
            Some(Box::new(copy_schema(&**b)))
        },
        None => None,
    };
    let properties = match &p.properties {
        Some(ps) => {
            let mut out: Vec<(String, Schema)> = Vec::new();
            let mut i: usize = 0;
            while i < ps.len()
                invariant
                    p.properties == Some(*ps),
                    i <= ps.len(),
                    out@.len() == i,
                    forall|j: int|
                        0 <= j < i ==> out@[j].0@ == ps@[j].0@ && out@[j].1@ == ps@[j].1@,
                decreases ps.len() - i,
            {
                proof {
                    assert(decreases_to!(*p => p.properties->0));
                    assert(decreases_to!(p.properties->0 => p.properties->0[i as int]));
                    assert(decreases_to!(p.properties->0[i as int] => p.properties->0[i as int].1));
                }
                let s = copy_schema(&ps[i].1);
                out.push((ps[i].0.clone(), s));
                i += 1;
            }
            Some(out)
        },
        None => None,
    };
    let annotations = match &p.annotations {
        Some(a) => Some(a.clone()),
        None => None,
    };
    let r = SchemaProperty {
        description: copy_opt(&p.description),
        prop_type: copy_opt(&p.prop_type),
        format: copy_opt(&p.format),
        items,
        properties,
        ref_name: copy_opt(&p.ref_name),
        read_only: p.read_only,
        annotations,
    };
    proof {
        if p.properties is Some {
            assert(r@.properties->0 =~= p@.properties->0);
        }
    }
    r
}

/// The first schema at or after `from` that is called `name`.
pub open spec fn schema_named(schemas: Seq<(Seq<char>, SchemaView)>, name: Seq<char>, from: int)
    -> Option<SchemaView>
    decreases schemas.len() - from,
{
    if from < 0 || from >= schemas.len() {
        None
    } else if schemas[from].0 == name {
        Some(schemas[from].1)
    } else {
        schema_named(schemas, name, from + 1)
    }
}

/// Finds the schema that is called `name`.
pub fn find_schema<'a>(schemas: &'a Vec<(String, Schema)>, name: &str) -> (r: Option<&'a Schema>)
    ensures
        r.deep_view() == schema_named(schemas.deep_view(), name@, 0),
{
    let mut i: usize = 0;
    while i < schemas.len()
        invariant
            i <= schemas.len(),
            schema_named(schemas.deep_view(), name@, 0) == schema_named(
                schemas.deep_view(),
                name@,
                i as int,
            ),
        decreases schemas.len() - i,
    {
        assert(schemas.deep_view()[i as int] == (schemas@[i as int].0@, schemas@[i as int].1@));
        if same(schemas[i].0.as_str(), name) {
            return Some(&schemas[i].1);
        }
        i += 1;
    }
    None
}

/// The properties of a schema are, in the model, the models of the items
/// of the vector.
pub proof fn lemma_properties_view(s: Schema)
    ensures
        s.properties is Some ==> s@.properties == Some(s.properties->0.deep_view()),
        s.properties is None ==> s@.properties is None,
{
    if s.properties is Some {
        assert(s@.properties->0 =~= s.properties->0.deep_view());
    }
}

/// The list of services that the discovery directory offers.
#[derive(Debug)]
pub struct DiscoveryDirectoryList {
    pub kind: String,
    pub discovery_version: String,
    pub items: Vec<DiscoveryDirectoryItem>,
}

/// One service of the discovery directory.
#[derive(Debug)]
pub struct DiscoveryDirectoryItem {
    pub kind: String,
    /// `<name>:<version>`.
    pub id: String,
    pub name: String,
    pub version: String,
    pub title: String,
    pub description: String,
    pub discovery_rest_url: String,
    pub documentation_link: Option<String>,
    pub preferred: bool,
}

/// The discovery document of one service.
#[derive(Debug)]
pub struct ApiDescription {
    pub kind: String,
    /// `<name>:<version>`.
    pub id: String,
    pub name: String,
    pub version: String,
    pub revision: String,
    pub canonical_name: Option<String>,
    pub description: String,
    pub discovery_version: String,
    pub base_url: String,
    pub base_path: Option<String>,
    pub documentation_link: String,
    pub parameters: Option<Vec<(String, Parameter)>>,
    pub protocol: String,
    pub resources: Option<Vec<(String, Resource)>>,
    pub schemas: Option<Vec<(String, Schema)>>,
}

/// A resource as the document declares it: its methods and the resources
/// declared inside it, each under its name.
#[derive(Debug)]
pub struct Resource {
    pub methods: Option<Vec<(String, Method)>>,
    pub resources: Option<Vec<(String, Resource)>>,
}

/// A method as the document declares it.
#[derive(Debug)]
pub struct Method {
    pub id: String,
    pub http_method: String,
    pub description: String,
    pub path: String,
    /// The URL template with one placeholder per path parameter. Where the
    /// document gives none, `path` is taken in its place.
    pub flat_path: Option<String>,
    pub parameter_order: Option<Vec<String>>,
    pub parameters: Option<Vec<(String, Parameter)>>,
    pub request: Option<Request>,
    pub response: Option<Response>,
    pub scopes: Option<Vec<String>>,
}

/// A parameter of a method.
#[derive(Debug)]
pub struct Parameter {
    pub description: Option<String>,
    /// `path` or `query`.
    pub location: String,
    pub param_type: String,
    pub enum_values: Option<Vec<String>>,
    pub enum_descriptions: Option<Vec<String>>,
    pub default: Option<String>,
    pub format: Option<String>,
    pub pattern: Option<String>,
    pub required: Option<bool>,
}

/// The schema that the body of a request has, by name.
#[derive(Debug)]
pub struct Request {
    pub ref_name: Option<String>,
}

/// The schema that the body of a response has, by name.
#[derive(Debug)]
pub struct Response {
    pub ref_name: Option<String>,
}

impl Schema {
    /// A sample schema without properties.
    pub fn testdata() -> (r: Self)
        ensures
            r@.id == Some("testdata"@),
            r@.description == Some("Test schema"@),
            r@.properties == Some(Seq::<(Seq<char>, SchemaPropertyView)>::empty()),
    {
        let r = Schema {
            id: Some("testdata".to_owned()),
            description: Some("Test schema".to_owned()),
            properties: Some(Vec::new()),
        };
        assert(r@.properties->0 =~= Seq::<(Seq<char>, SchemaPropertyView)>::empty());
        r
    }
}

impl SchemaProperty {
    /// A sample property: a writable string that holds a date and time.
    pub fn testdata() -> (r: Self)
        ensures
            r@.description == Some("Test property"@),
            r@.prop_type == Some("string"@),
            r@.format == Some("date-time"@),
            r@.items is None,
            r@.properties is None,
            r@.ref_name is None,
            !r@.read_only,
            r@.annotations is None,
    {
        SchemaProperty {
            description: Some("Test property".to_owned()),
            prop_type: Some("string".to_owned()),
            format: Some("date-time".to_owned()),
            items: None,
            properties: None,
            ref_name: None,
            read_only: false,
            annotations: None,
        }
    }
}

/// The address at which a service that the directory does not list gives
/// its own description, for a caller with the given key. There is one for
/// the service `generativelanguage`, where it has a version: its first
/// version is asked for.
pub open spec fn standalone_url(api: SupportedApiView, api_key: Seq<char>) -> Option<Seq<char>> {
    if api.name == "generativelanguage"@ && api.versions.len() > 0 {
        Some(
            "https://generativelanguage.googleapis.com/$discovery/rest?version="@
                + api.versions[0] + "&key="@ + api_key,
        )
    } else {
        None
    }
}

/// The address at which a service that the directory does not list gives
/// its own description.
pub fn standalone_discovery_url(standalone_api: SupportedApi, api_key: String) -> (r: Option<
    String,
>)
    ensures
        r.deep_view() == standalone_url(standalone_api@, api_key@),
{
    assert(standalone_api@.versions.len() == standalone_api.versions.len());
    if same(standalone_api.name.as_str(), "generativelanguage") && standalone_api.versions.len()
        > 0 {
        assert(standalone_api@.versions[0] == standalone_api.versions@[0]@);
        let mut url = "https://generativelanguage.googleapis.com/$discovery/rest?version=".to_owned();
        url.append(standalone_api.versions[0].as_str());
        url.append("&key=");
        url.append(api_key.as_str());
        assert(url@ =~= standalone_url(standalone_api@, api_key@)->0);
        Some(url)
    } else {
        None
    }
}

/// The name of the file that holds what belongs to the service `api_id`:
/// the id with every colon turned into an underscore, and the extension.
pub open spec fn file_name(api_id: Seq<char>, extension: Seq<char>) -> Seq<char> {
    replaced(api_id, ":"@, "_"@) + extension
}

/// The name of the file that holds the discovery document of a service.
pub fn definition_file_name(api_id: &str) -> (r: String)
    ensures
        r@ == file_name(api_id@, ".json"@),
{
    let stem = replace_all(api_id, ":", "_");
    glue(stem.as_str(), ".json")
}

/// The name of the file that holds the resource tree of a service.
pub fn tree_file_name(api_id: &str) -> (r: String)
    ensures
        r@ == file_name(api_id@, ".msgpack"@),
{
    let stem = replace_all(api_id, ":", "_");
    glue(stem.as_str(), ".msgpack")
}

/// The service is in the catalog with the version: the id is the name of
/// one of the services, a colon, and one of its versions.
pub open spec fn is_supported_id(apis: Seq<SupportedApiView>, id: Seq<char>) -> bool {
    exists|i: int, j: int|
        0 <= i < apis.len() && 0 <= j < apis[i].versions.len() && id == apis[i].name + ":"@
            + #[trigger] apis[i].versions[j]
}

/// The places, among the first `n` services of the directory, of those
/// that are in the catalog.
pub open spec fn supported_places(
    items: Seq<DiscoveryDirectoryItem>,
    apis: Seq<SupportedApiView>,
    n: nat,
) -> Seq<usize>
    decreases n,
{
    if n == 0 || n > items.len() {
        Seq::empty()
    } else if is_supported_id(apis, items[n - 1].id@) {
        supported_places(items, apis, (n - 1) as nat).push((n - 1) as usize)
    } else {
        supported_places(items, apis, (n - 1) as nat)
    }
}

fn is_supported(apis: &Vec<SupportedApi>, id: &str) -> (r: bool)
    ensures
        r == is_supported_id(apis.deep_view(), id@),
{
    let mut i: usize = 0;
    while i < apis.len()
        invariant
            i <= apis.len(),
            forall|a: int, b: int|
                0 <= a < i && 0 <= b < apis.deep_view()[a].versions.len() ==> id@
                    != apis.deep_view()[a].name + ":"@ + #[trigger] apis.deep_view()[a].versions[b],
        decreases apis.len() - i,
    {
        let api = &apis[i];
        assert(apis.deep_view()[i as int] == api@);
        let prefix = glue(api.name.as_str(), ":");
        let mut j: usize = 0;
        while j < api.versions.len()
            invariant
                j <= api.versions.len(),
                i < apis.len(),
                apis.deep_view()[i as int] == api@,
                prefix@ == api@.name + ":"@,
                forall|b: int| 0 <= b < j ==> id@ != api@.name + ":"@ + #[trigger] api@.versions[b],
            decreases api.versions.len() - j,
        {
            assert(api@.versions[j as int] == api.versions@[j as int]@);
            let full = glue(prefix.as_str(), api.versions[j].as_str());
            if same(full.as_str(), id) {
                assert(id@ == apis.deep_view()[i as int].name + ":"@
                    + apis.deep_view()[i as int].versions[j as int]);
                return true;
            }
            j += 1;
        }
        i += 1;
    }
    false
}

/// The places, in the directory, of the services that are in the catalog:
/// those whose descriptions are fetched.
pub fn apis_to_download(items: &Vec<DiscoveryDirectoryItem>, apis: &Vec<SupportedApi>) -> (r: Vec<
    usize,
>)
    ensures
        r@ == supported_places(items@, apis.deep_view(), items.len() as nat),
        forall|k: int| 0 <= k < r@.len() ==> r@[k] < items.len(),
{
    let mut out: Vec<usize> = Vec::new();
    let mut n: usize = 0;
    while n < items.len()
        invariant
            n <= items.len(),
            out@ == supported_places(items@, apis.deep_view(), n as nat),
            forall|k: int| 0 <= k < out@.len() ==> out@[k] < items.len(),
        decreases items.len() - n,
    {
        if is_supported(apis, items[n].id.as_str()) {
            out.push(n);
        }
        n += 1;
    }
    out
}

} // verus!
