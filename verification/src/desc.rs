//! What is told of a service, a resource or a method when it is described:
//! which parameters a call needs, which fields of the body are required,
//! and where the documentation is found.

use crate::api::{
    find_method, find_resource, lemma_children_view, method_of, resolved, ApiView, ErrorView,
    MethodView, QueryParamView, ResourceView, ZgApi, ZgError, ZgMethod, ZgResource,
};
use crate::discovery::{
    find_schema, lemma_properties_view, schema_named, Schema, SchemaProperty, SchemaPropertyView,
    SchemaView,
};
use crate::exec::{project_names, region_names, zone_names};
use crate::flavors::desc_flavors::{
    bigquery_jobs_insert, bigquery_jobs_insert_text, container_clusters_create,
    container_clusters_create_text, sqladmin_instances_insert, sqladmin_instances_insert_text,
};
use crate::flavors::update_flavors::without;
use crate::outside::{
    json_insert, json_inserted, json_pretty, lowercase, percent_encode, percent_encoded,
    pretty_json, regex_capture, regex_groups, to_lowercase,
};
use crate::text::{
    begins_with, contains, dashed_lines, glue, has_string, includes, join, join_with, same, split,
    split_on, starts_with, write_dashed_lines,
};
use vstd::prelude::*;

verus! {

/// A description, given in lower case, presents its field as one that need
/// not be sent.
pub open spec fn lowered_says_optional(lowered: Seq<char>) -> bool {
    starts_with(lowered, "output only"@) || starts_with(lowered, "optional"@)
}

/// Whether a description, given in lower case, presents its field as one
/// that need not be sent.
pub fn says_optional(lowered: &str) -> (r: bool)
    ensures
        r == lowered_says_optional(lowered@),
{
    begins_with(lowered, "output only") || begins_with(lowered, "optional")
}

/// The description presents the field as one that need not be sent.
pub open spec fn indicates_optional(description: Option<Seq<char>>) -> bool {
    description matches Some(d) && lowered_says_optional(lowercase(d))
}

/// The description presents the field as one that must be sent.
pub open spec fn indicates_requirement(description: Option<Seq<char>>) -> bool {
    description matches Some(d) && (contains(d, "Required"@) || starts_with(d, "Identifier."@))
}

/// The property names the method, by the id that the document gave it,
/// among those that require it.
pub open spec fn annotated_as_required(m: MethodView, p: SchemaPropertyView) -> bool {
    m.original_id matches Some(id) && p.annotations matches Some(required) && required.contains(
        id,
    )
}

/// A property has to be sent with a call of the method. One that is read
/// only never has. One that is alone in its schema has, unless its
/// description presents it as optional. Any other has where its
/// description or its annotations require it and its description does not
/// present it as optional.
pub open spec fn required_property(m: MethodView, p: SchemaPropertyView, is_only_prop: bool)
    -> bool {
    if p.read_only {
        false
    } else if is_only_prop && !indicates_optional(p.description) {
        true
    } else {
        (indicates_requirement(p.description) || annotated_as_required(m, p))
            && !indicates_optional(p.description)
    }
}

/// Whether the property `prop`, found under the name `field`, has to be
/// sent with a call of `method`.
pub fn is_required(method: &ZgMethod, field: &String, prop: &SchemaProperty, is_only_prop: bool)
    -> (r: bool)
    ensures
        r == required_property(method@, prop@, is_only_prop),
{
    if prop.read_only {
        return false;
    }
    let desc_indicates_optional = match &prop.description {
        Some(d) => {
            let lowered = to_lowercase(d.as_str());
            says_optional(lowered.as_str())
        },
        None => false,
    };
    if is_only_prop && !desc_indicates_optional {
        return true;
    }
    let desc_indicates_requirement = match &prop.description {
        Some(d) => includes(d.as_str(), "Required") || begins_with(d.as_str(), "Identifier."),
        None => false,
    };
    let annotated = match &method.original_id {
        Some(id) => match &prop.annotations {
            Some(a) => has_string(&a.required, id.as_str()),
            None => false,
        },
        None => false,
    };
    (desc_indicates_requirement || annotated) && !desc_indicates_optional
}

/// The labels of a method id, where it has at least two: the service is
/// the first, the method the last, and the resource what lies between.
pub open spec fn id_labels(method_id: Seq<char>) -> Option<Seq<Seq<char>>> {
    let labels = split(method_id, '.');
    if labels.len() >= 2 {
        Some(labels)
    } else {
        None
    }
}

/// What is searched for to find the documentation of a method: the word
/// `"Method:"`, the path of the resource, and the name of the method.
pub open spec fn search_query(labels: Seq<Seq<char>>) -> Seq<char> {
    "\"Method:\" "@ + join(labels.subrange(1, labels.len() - 1), "."@) + " "@ + labels.last()
}

/// The address of the search for `encoded_query` in the documentation of
/// `service_name`.
pub open spec fn documentation_url(service_name: Seq<char>, encoded_query: Seq<char>) -> Seq<
    char,
> {
    "https://cloud.google.com/s/results/"@ + service_name + "/docs?q="@ + encoded_query
}

/// The address at which the documentation of a method is searched for;
/// none for an id that does not name a service and a method.
pub open spec fn documentation_link(method_id: Seq<char>) -> Option<Seq<char>> {
    match id_labels(method_id) {
        Some(labels) => Some(
            documentation_url(labels[0], percent_encoded(search_query(labels))),
        ),
        None => None,
    }
}

/// Writes the address of the search for a query, given in its encoded
/// form, in the documentation of a service.
pub fn write_documentation_url(service_name: &str, encoded_query: &str) -> (r: String)
    ensures
        r@ == documentation_url(service_name@, encoded_query@),
{
    let mut r = "https://cloud.google.com/s/results/".to_owned();
    r.append(service_name);
    r.append("/docs?q=");
    r.append(encoded_query);
    assert(r@ =~= documentation_url(service_name@, encoded_query@));
    r
}

/// The address at which the documentation of the method is searched for.
pub fn generate_documentation_link(method_id: &str) -> (r: Option<String>)
    ensures
        r.deep_view() == documentation_link(method_id@),
{
    let mut labels = split_on(method_id, '.');
    let ghost all = labels.deep_view();
    assert(all.len() == labels.len());
    if labels.len() < 2 {
        return None;
    }
    let method_name = labels.pop().unwrap();
    let service_name = labels.remove(0);
    proof {
        assert(method_name@ == all.last());
        assert(service_name@ == all[0]);
        assert(labels.deep_view() =~= all.subrange(1, all.len() - 1));
    }
    let mut query = "\"Method:\" ".to_owned();
    let resource_path = join_with(&labels, ".");
    query.append(resource_path.as_str());
    query.append(" ");
    query.append(method_name.as_str());
    assert(query@ =~= search_query(all));
    let encoded = percent_encode(query.as_str());
    Some(write_documentation_url(service_name.as_str(), encoded.as_str()))
}

/// The pattern of a placeholder: braces around one character or more, none
/// of them a closing brace.
pub open spec fn placeholder_pattern() -> Seq<char> {
    "\\{([^}]+)\\}"@
}

/// Those of the first `n` entries that hold something, in order.
pub open spec fn present(groups: Seq<Option<Seq<char>>>, n: nat) -> Seq<Seq<char>>
    decreases n,
{
    if n == 0 || n > groups.len() {
        Seq::empty()
    } else {
        match groups[n - 1] {
            Some(g) => present(groups, (n - 1) as nat).push(g),
            None => present(groups, (n - 1) as nat),
        }
    }
}

/// The names of the placeholders of a URL template, in order.
pub open spec fn placeholders_of(flat_path: Seq<char>) -> Seq<Seq<char>> {
    match regex_groups(placeholder_pattern(), 1, flat_path) {
        Some(groups) => present(groups, groups.len()),
        None => Seq::empty(),
    }
}

/// Those of the entries that hold something, in order.
pub fn keep_present(groups: Vec<Option<String>>) -> (r: Vec<String>)
    ensures
        r.deep_view() == present(groups.deep_view(), groups.len() as nat),
{
    let ghost all = groups.deep_view();
    let mut out: Vec<String> = Vec::new();
    let mut i: usize = 0;
    assert(out.deep_view() =~= present(all, 0));
    while i < groups.len()
        invariant
            i <= groups.len(),
            all == groups.deep_view(),
            out.deep_view() == present(all, i as nat),
        decreases groups.len() - i,
    {
        let ghost done = out.deep_view();
        assert(all[i as int] == groups@[i as int].deep_view());
        match &groups[i] {
            Some(g) => {
                out.push(g.clone());
                assert(out.deep_view() =~= done.push(g@));
            },
            None => {},
        }
        i += 1;
    }
    out
}

/// The names of placeholders that are filled in without being asked for:
/// those of project, region and zone.
pub open spec fn autofill_names() -> Seq<Seq<char>> {
    project_names() + region_names() + zone_names()
}

/// Those of `names` that are among `allowed`, in order.
pub open spec fn within(names: Seq<Seq<char>>, allowed: Seq<Seq<char>>) -> Seq<Seq<char>>
    decreases names.len(),
{
    if names.len() == 0 {
        names
    } else if allowed.contains(names.last()) {
        within(names.drop_last(), allowed).push(names.last())
    } else {
        within(names.drop_last(), allowed)
    }
}

fn is_autofill_name(name: &str) -> (r: bool)
    ensures
        r == autofill_names().contains(name@),
{
    let r = same(name, "projectsId") || same(name, "project") || same(name, "projectId") || same(
        name,
        "regionsId",
    ) || same(name, "region") || same(name, "locationsId") || same(name, "location") || same(
        name,
        "zonesId",
    ) || same(name, "zone");
    proof {
        let all = autofill_names();
        assert(all.len() == 9);
        assert(all[0] == "projectsId"@ && all[1] == "project"@ && all[2] == "projectId"@);
        assert(all[3] == "regionsId"@ && all[4] == "region"@ && all[5] == "locationsId"@);
        assert(all[6] == "location"@ && all[7] == "zonesId"@ && all[8] == "zone"@);
    }
    r
}

/// Those of the placeholders that are filled in without being asked for.
pub fn select_autofill(placeholders: &Vec<String>) -> (r: Vec<String>)
    ensures
        r.deep_view() == within(placeholders.deep_view(), autofill_names()),
{
    let ghost all = placeholders.deep_view();
    let mut out: Vec<String> = Vec::new();
    let mut i: usize = 0;
    assert(all.subrange(0, 0) =~= Seq::<Seq<char>>::empty());
    assert(out.deep_view() =~= Seq::<Seq<char>>::empty());
    while i < placeholders.len()
        invariant
            i <= placeholders.len(),
            all == placeholders.deep_view(),
            out.deep_view() == within(all.subrange(0, i as int), autofill_names()),
        decreases placeholders.len() - i,
    {
        let ghost done = out.deep_view();
        proof {
            let t = all.subrange(0, i + 1);
            assert(t.drop_last() =~= all.subrange(0, i as int));
            assert(t.last() == placeholders@[i as int]@);
        }
        if is_autofill_name(placeholders[i].as_str()) {
            out.push(placeholders[i].clone());
            assert(out.deep_view() =~= done.push(placeholders@[i as int]@));
        }
        i += 1;
    }
    assert(all.subrange(0, placeholders.len() as int) =~= all);
    out
}

fn placeholder_names(flat_path: &str) -> (r: Vec<String>)
    ensures
        r.deep_view() == placeholders_of(flat_path@),
{
    match regex_capture("\\{([^}]+)\\}", 1, flat_path) {
        Some(groups) => {
            assert(groups.deep_view().len() == groups.len());
            keep_present(groups)
        },
        None => {
            let none: Vec<String> = Vec::new();
            assert(none.deep_view() =~= Seq::<Seq<char>>::empty());
            none
        },
    }
}

/// The placeholders of the method's URL that are filled in without being
/// asked for.
pub fn autofill_params(method: &ZgMethod) -> (r: Vec<String>)
    ensures
        r.deep_view() == within(placeholders_of(method@.flat_path), autofill_names()),
{
    let names = placeholder_names(method.flat_path.as_str());
    select_autofill(&names)
}

/// The names of the first `n` query parameters that are required.
pub open spec fn required_query_names(qs: Seq<QueryParamView>, n: nat) -> Seq<Seq<char>>
    decreases n,
{
    if n == 0 || n > qs.len() {
        Seq::empty()
    } else if qs[n - 1].required {
        required_query_names(qs, (n - 1) as nat).push(qs[n - 1].name)
    } else {
        required_query_names(qs, (n - 1) as nat)
    }
}

/// What a call has to give: the placeholders that are not filled in
/// without being asked for, then the required query parameters.
pub open spec fn required_names(placeholders: Seq<Seq<char>>, qs: Seq<QueryParamView>) -> Seq<
    Seq<char>,
> {
    without(placeholders, within(placeholders, autofill_names())) + required_query_names(
        qs,
        qs.len(),
    )
}

/// The option that gives the parameter `name` an empty value.
pub open spec fn param_option(name: Seq<char>) -> Seq<char> {
    "-p "@ + name + "=\"\""@
}

/// The options for the names, each after the other.
pub open spec fn param_options(names: Seq<Seq<char>>) -> Seq<Seq<char>> {
    Seq::new(names.len(), |i: int| param_option(names[i]))
}

/// What is shown of the parameters that a call has to give: `None` where
/// there are none, else a new line with an option for each.
pub open spec fn required_params_text(names: Seq<Seq<char>>) -> Seq<char> {
    if names.len() == 0 {
        "None"@
    } else {
        "\n"@ + join(param_options(names), " "@)
    }
}

/// Writes what is shown of the parameters that a call has to give, from
/// the placeholders of the method's URL and from its query parameters.
pub fn required_params_line(placeholders: &Vec<String>, method: &ZgMethod) -> (r: String)
    ensures
        r@ == required_params_text(required_names(placeholders.deep_view(), method@.query_params)),
{
    let autofilled = select_autofill(placeholders);
    let mut banned: Vec<&str> = Vec::new();
    let mut k: usize = 0;
    while k < autofilled.len()
        invariant
            k <= autofilled.len(),
            banned@.len() == k,
            forall|j: int| 0 <= j < k ==> banned@[j]@ == autofilled@[j]@,
        decreases autofilled.len() - k,
    {
        banned.push(autofilled[k].as_str());
        k += 1;
    }
    assert(banned.deep_view() =~= autofilled.deep_view());
    let mut names = crate::flavors::update_flavors::excluding(
        crate::text::copy_strings(placeholders),
        &banned,
    );
    let ghost path_names = names.deep_view();
    let ghost qs = method@.query_params;
    let mut i: usize = 0;
    assert(names.deep_view() =~= path_names + required_query_names(qs, 0));
    while i < method.query_params.len()
        invariant
            i <= method.query_params.len(),
            qs == method@.query_params,
            names.deep_view() == path_names + required_query_names(qs, i as nat),
        decreases method.query_params.len() - i,
    {
        let ghost had = names.deep_view();
        let q = &method.query_params[i];
        assert(qs[i as int] == q@);
        if q.required {
            names.push(q.name.clone());
            assert(names.deep_view() =~= had.push(q@.name));
        }
        i += 1;
    }
    let ghost all = names.deep_view();
    assert(all.len() == names.len());
    if names.len() == 0 {
        return "None".to_owned();
    }
    let mut options: Vec<String> = Vec::new();
    let mut j: usize = 0;
    while j < names.len()
        invariant
            j <= names.len(),
            options@.len() == j,
            forall|m: int| 0 <= m < j ==> options@[m]@ == param_option(names@[m]@),
        decreases names.len() - j,
    {
        let mut option = "-p ".to_owned();
        option.append(names[j].as_str());
        option.append("=\"\"");
        assert(option@ =~= param_option(names@[j as int]@));
        options.push(option);
        j += 1;
    }
    assert(options.deep_view() =~= param_options(all));
    let line = join_with(&options, " ");
    glue("\n", line.as_str())
}

/// What is shown of the parameters that a call of the method has to give.
pub fn build_required_params_string(method: &ZgMethod) -> (r: String)
    ensures
        r@ == required_params_text(
            required_names(placeholders_of(method@.flat_path), method@.query_params),
        ),
{
    let names = placeholder_names(method.flat_path.as_str());
    required_params_line(&names, method)
}

/// What stands for a value that cannot be suggested.
pub open spec fn unsupported_value() -> Seq<char> {
    "\"<<See API Reference for details>>\""@
}

/// The value that stands for a property of a plain type: an empty string,
/// zero, or false.
pub open spec fn typed_value(prop_type: Seq<char>) -> Seq<char> {
    if prop_type == "string"@ {
        "\"\""@
    } else if prop_type == "integer"@ {
        "0"@
    } else if prop_type == "boolean"@ {
        "false"@
    } else {
        unsupported_value()
    }
}

/// The value that stands for a property in a suggested body, as JSON text.
/// A property of a plain type has a plain value. One that refers to a
/// schema has the least body of that schema; `depth` bounds how many such
/// references are followed one inside the other.
pub open spec fn suggested_value(
    m: MethodView,
    p: SchemaPropertyView,
    schemas: Seq<(Seq<char>, SchemaView)>,
    depth: nat,
) -> Option<Seq<char>>
    decreases depth, 0nat, 0nat,
{
    match p.prop_type {
        Some(t) => Some(typed_value(t)),
        None => match p.ref_name {
            Some(name) => match schema_named(schemas, name, 0) {
                Some(nested) => if depth == 0 {
                    Some(unsupported_value())
                } else {
                    minimum_data(m, nested, schemas, (depth - 1) as nat)
                },
                None => Some(unsupported_value()),
            },
            None => Some(unsupported_value()),
        },
    }
}

/// The object that holds, of the first `n` properties, those that have to
/// be sent, each with the value that stands for it.
pub open spec fn suggested_fields(
    m: MethodView,
    props: Seq<(Seq<char>, SchemaPropertyView)>,
    n: nat,
    schemas: Seq<(Seq<char>, SchemaView)>,
    depth: nat,
) -> Option<Seq<char>>
    decreases depth, 1nat, n,
{
    if n == 0 || n > props.len() {
        Some("{}"@)
    } else {
        match suggested_fields(m, props, (n - 1) as nat, schemas, depth) {
            Some(object) => if required_property(m, props[n - 1].1, props.len() == 1) {
                match suggested_value(m, props[n - 1].1, schemas, depth) {
                    Some(value) => json_inserted(object, props[n - 1].0, value),
                    None => None,
                }
            } else {
                Some(object)
            },
            None => None,
        }
    }
}

/// The least body that a schema allows, as JSON text: an object with the
/// properties that have to be sent.
pub open spec fn minimum_data(
    m: MethodView,
    schema: SchemaView,
    schemas: Seq<(Seq<char>, SchemaView)>,
    depth: nat,
) -> Option<Seq<char>>
    decreases depth, 2nat, 0nat,
{
    match schema.properties {
        Some(props) => suggested_fields(m, props, props.len(), schemas, depth),
        None => Some("{}"@),
    }
}

fn suggest_value(
    method: &ZgMethod,
    prop: &SchemaProperty,
    schemas: &Vec<(String, Schema)>,
    depth: usize,
) -> (r: Option<String>)
    ensures
        r.deep_view() == suggested_value(method@, prop@, schemas.deep_view(), depth as nat),
    decreases depth, 0nat, 0nat,
{
    match &prop.prop_type {
        Some(t) => {
            let t = t.as_str();
            Some(
                if same(t, "string") {
                    "\"\"".to_owned()
                } else if same(t, "integer") {
                    "0".to_owned()
                } else if same(t, "boolean") {
                    "false".to_owned()
                } else {
                    "\"<<See API Reference for details>>\"".to_owned()
                },
            )
        },
        None => match &prop.ref_name {
            Some(name) => match find_schema(schemas, name.as_str()) {
                Some(nested) => {
                    if depth == 0 {
                        Some("\"<<See API Reference for details>>\"".to_owned())
                    } else {
                        minimum_data_within(method, nested, schemas, depth - 1)
                    }
                },
                None => Some("\"<<See API Reference for details>>\"".to_owned()),
            },
            None => Some("\"<<See API Reference for details>>\"".to_owned()),
        },
    }
}

fn minimum_data_within(
    method: &ZgMethod,
    schema: &Schema,
    schemas: &Vec<(String, Schema)>,
    depth: usize,
) -> (r: Option<String>)
    ensures
        r.deep_view() == minimum_data(method@, schema@, schemas.deep_view(), depth as nat),
    decreases depth, 2nat, 0nat,
{
    proof {
        lemma_properties_view(*schema);
    }
    let props = match &schema.properties {
        Some(p) => p,
        None => {
            return Some("{}".to_owned());
        },
    };
    let ghost all = props.deep_view();
    assert(all.len() == props.len());
    let mut object = "{}".to_owned();
    let mut i: usize = 0;
    while i < props.len()
        invariant
            i <= props.len(),
            all == props.deep_view(),
            schema@.properties == Some(all),
            suggested_fields(method@, all, i as nat, schemas.deep_view(), depth as nat) == Some(
                object@,
            ),
        decreases props.len() - i,
    {
        let field = &props[i].0;
        let prop = &props[i].1;
        assert(all[i as int] == (field@, prop@));
        if is_required(method, field, prop, props.len() == 1) {
            let value = match suggest_value(method, prop, schemas, depth) {
                Some(v) => v,
                None => {
                    proof {
                        assert(suggested_fields(
                            method@,
                            all,
                            (i + 1) as nat,
                            schemas.deep_view(),
                            depth as nat,
                        ) is None);
                        lemma_fields_fail(
                            method@,
                            all,
                            (i + 1) as nat,
                            all.len(),
                            schemas.deep_view(),
                            depth as nat,
                        );
                    }
                    return None;
                },
            };
            object = match json_insert(object.as_str(), field.as_str(), value.as_str()) {
                Some(o) => o,
                None => {
                    proof {
                        assert(suggested_fields(
                            method@,
                            all,
                            (i + 1) as nat,
                            schemas.deep_view(),
                            depth as nat,
                        ) is None);
                        lemma_fields_fail(
                            method@,
                            all,
                            (i + 1) as nat,
                            all.len(),
                            schemas.deep_view(),
                            depth as nat,
                        );
                    }
                    return None;
                },
            };
        }
        i += 1;
    }
    Some(object)
}

proof fn lemma_fields_fail(
    m: MethodView,
    props: Seq<(Seq<char>, SchemaPropertyView)>,
    i: nat,
    n: nat,
    schemas: Seq<(Seq<char>, SchemaView)>,
    depth: nat,
)
    requires
        i <= n <= props.len(),
        suggested_fields(m, props, i, schemas, depth) is None,
    ensures
        suggested_fields(m, props, n, schemas, depth) is None,
    decreases n,
{
    if n > i {
        lemma_fields_fail(m, props, i, (n - 1) as nat, schemas, depth);
    }
}

/// The least body that `schema` allows for a call of `method`, as JSON
/// text. References to other schemas are followed, one inside the other,
/// as many times as there are schemas. `None` where the body could not be
/// put together.
pub fn minimum_data_suggestion(method: &ZgMethod, schema: &Schema, schemas: &Vec<(String, Schema)>)
    -> (r: Option<String>)
    ensures
        r.deep_view() == minimum_data(
            method@,
            schema@,
            schemas.deep_view(),
            schemas.len() as nat,
        ),
{
    minimum_data_within(method, schema, schemas, schemas.len())
}

/// What is shown of a body, given on several lines.
pub open spec fn shown_body(pretty: Seq<char>) -> Seq<char> {
    "\nminimum_data:\n--data '"@ + pretty + "'"@
}

/// What is shown of the least body of a method: what is written down for
/// it, where anything is; else an empty object for a method without body,
/// and the least body that its schema allows for any other.
pub open spec fn payload_text(m: MethodView, schemas: Seq<(Seq<char>, SchemaView)>) -> Option<
    Seq<char>,
> {
    if m.id == "bigquery.projects.jobs.insert"@ {
        bigquery_jobs_insert_text()
    } else if m.id == "sqladmin.projects.instances.insert"@ {
        sqladmin_instances_insert_text()
    } else if m.id == "container.projects.locations.clusters.create"@ || m.id
        == "container.projects.zones.clusters.create"@ {
        container_clusters_create_text()
    } else {
        match m.request_data_schema {
            Some(schema) => match minimum_data(m, schema, schemas, schemas.len()) {
                Some(data) => match json_pretty(data) {
                    Some(pretty) => Some(shown_body(pretty)),
                    None => None,
                },
                None => None,
            },
            None => Some("\nminimum_data:\n--data '{}'"@),
        }
    }
}

/// Writes what is shown of a body, given on several lines.
pub fn write_shown_body(pretty: &str) -> (r: String)
    ensures
        r@ == shown_body(pretty@),
{
    let mut r = "\nminimum_data:\n--data '".to_owned();
    r.append(pretty);
    r.append("'");
    assert(r@ =~= shown_body(pretty@));
    r
}

/// Suggests the least body to send with a call of the method.
pub fn payload_suggestion(method: &ZgMethod, api: &ZgApi) -> (r: Option<String>)
    ensures
        r.deep_view() == payload_text(method@, api@.schemas),
{
    let id = method.id.as_str();
    if same(id, "bigquery.projects.jobs.insert") {
        bigquery_jobs_insert()
    } else if same(id, "sqladmin.projects.instances.insert") {
        sqladmin_instances_insert()
    } else if same(id, "container.projects.locations.clusters.create") || same(
        id,
        "container.projects.zones.clusters.create",
    ) {
        container_clusters_create()
    } else {
        match &method.request_data_schema {
            Some(schema) => {
                let data = match minimum_data_suggestion(method, schema, &api.schemas) {
                    Some(d) => d,
                    None => {
                        return None;
                    },
                };
                match pretty_json(data.as_str()) {
                    Some(pretty) => Some(write_shown_body(pretty.as_str())),
                    None => None,
                }
            },
            None => Some("\nminimum_data:\n--data '{}'".to_owned()),
        }
    }
}

/// What a description is asked of.
#[derive(Debug)]
pub struct DescArgs {
    /// The service to describe, or that has the resource.
    pub service: String,
    /// The resource to describe, or that has the method, by a suffix of its
    /// canonical path.
    pub resource: Option<String>,
    /// The method to describe.
    pub method: Option<String>,
}

/// Why nothing can be described.
#[derive(Debug)]
pub enum DescError {
    /// The resource or the method is not there.
    NotFound(ZgError),
    /// No body could be suggested for the method.
    NoSuggestion,
}

/// The names of the resources, in order.
pub open spec fn resource_names(rs: Seq<ResourceView>) -> Seq<Seq<char>> {
    Seq::new(rs.len(), |i: int| rs[i].name)
}

/// The names of the methods, in order.
pub open spec fn method_names(ms: Seq<MethodView>) -> Seq<Seq<char>> {
    Seq::new(ms.len(), |i: int| ms[i].name)
}

/// What is told of a service: its name, version, revision and base URL,
/// and the names of its top-level resources.
pub open spec fn service_text(a: ApiView) -> Seq<char> {
    "service: "@ + a.name + "\nversion: "@ + a.version + "\nrevision: "@ + a.revision
        + "\nbase_url: "@ + a.base_url + "\ntop_level_resources:\n"@ + dashed_lines(
        resource_names(a.resources),
        a.resources.len(),
    )
}

/// The path, or `N/A` where there is none.
pub open spec fn path_or_na(p: Option<Seq<char>>) -> Seq<char> {
    match p {
        Some(path) => path,
        None => "N/A"@,
    }
}

/// What is told of the methods of a resource: nothing where it has none.
pub open spec fn methods_text(ms: Seq<MethodView>) -> Seq<char> {
    if ms.len() > 0 {
        "methods:\n"@ + dashed_lines(method_names(ms), ms.len())
    } else {
        Seq::empty()
    }
}

/// What is told of the resources nested in a resource: nothing where there
/// are none.
pub open spec fn children_text(c: Option<Seq<ResourceView>>) -> Seq<char> {
    match c {
        Some(kids) => if kids.len() > 0 {
            "\nchild_resources:\n"@ + dashed_lines(resource_names(kids), kids.len())
        } else {
            Seq::empty()
        },
        None => Seq::empty(),
    }
}

/// What is told of a resource: its name and paths, its methods, and the
/// resources nested directly in it.
pub open spec fn resource_text(r: ResourceView) -> Seq<char> {
    "resource_name: "@ + r.name + "\nresource_path: "@ + path_or_na(r.path) + "\nparent_path: "@
        + path_or_na(r.parent_path) + "\n"@ + methods_text(r.methods) + children_text(r.resources)
}

fn names_of_resources(resources: &Vec<ZgResource>) -> (r: Vec<&str>)
    ensures
        r.deep_view() == resource_names(resources.deep_view()),
{
    let mut names: Vec<&str> = Vec::new();
    let mut i: usize = 0;
    while i < resources.len()
        invariant
            i <= resources.len(),
            names@.len() == i,
            forall|j: int| 0 <= j < i ==> names@[j]@ == resources@[j]@.name,
        decreases resources.len() - i,
    {
        names.push(resources[i].name.as_str());
        i += 1;
    }
    assert(names.deep_view() =~= resource_names(resources.deep_view()));
    names
}

fn names_of_methods(methods: &Vec<ZgMethod>) -> (r: Vec<&str>)
    ensures
        r.deep_view() == method_names(methods.deep_view()),
{
    let mut names: Vec<&str> = Vec::new();
    let mut i: usize = 0;
    while i < methods.len()
        invariant
            i <= methods.len(),
            names@.len() == i,
            forall|j: int| 0 <= j < i ==> names@[j]@ == methods@[j]@.name,
        decreases methods.len() - i,
    {
        names.push(methods[i].name.as_str());
        i += 1;
    }
    assert(names.deep_view() =~= method_names(methods.deep_view()));
    names
}

/// Describes a service.
pub fn describe_service(api: &ZgApi) -> (r: String)
    ensures
        r@ == service_text(api@),
{
    let mut out = "service: ".to_owned();
    out.append(api.name.as_str());
    out.append("\nversion: ");
    out.append(api.version.as_str());
    out.append("\nrevision: ");
    out.append(api.revision.as_str());
    out.append("\nbase_url: ");
    out.append(api.base_url.as_str());
    out.append("\ntop_level_resources:\n");
    let names = names_of_resources(&api.resources);
    let lines = write_dashed_lines(&names);
    out.append(lines.as_str());
    assert(out@ =~= service_text(api@));
    out
}

/// Describes a resource.
pub fn describe_resource(resource: &ZgResource) -> (r: String)
    ensures
        r@ == resource_text(resource@),
{
    proof {
        lemma_children_view(*resource);
    }
    let mut out = "resource_name: ".to_owned();
    out.append(resource.name.as_str());
    out.append("\nresource_path: ");
    match &resource.path {
        Some(p) => out.append(p.as_str()),
        None => out.append("N/A"),
    }
    out.append("\nparent_path: ");
    match &resource.parent_path {
        Some(p) => out.append(p.as_str()),
        None => out.append("N/A"),
    }
    out.append("\n");
    assert(resource@.methods.len() == resource.methods.len());
    if resource.methods.len() > 0 {
        out.append("methods:\n");
        let names = names_of_methods(&resource.methods);
        let lines = write_dashed_lines(&names);
        out.append(lines.as_str());
    }
    match &resource.resources {
        Some(kids) => {
            assert(kids.deep_view().len() == kids.len());
            if kids.len() > 0 {
                out.append("\nchild_resources:\n");
                let names = names_of_resources(kids);
                let lines = write_dashed_lines(&names);
                out.append(lines.as_str());
            }
        },
        None => {},
    }
    assert(out@ =~= resource_text(resource@));
    out
}

/// The method takes no body.
pub open spec fn is_bodiless(http_method: Seq<char>) -> bool {
    http_method == "GET"@ || http_method == "DELETE"@
}

/// The lines that name a method: its name, its id, and the id that the
/// document gave it where that is another.
pub open spec fn naming_text(m: MethodView) -> Seq<char> {
    "method_name: "@ + m.name + "\nmethod_id: "@ + m.id + "\n"@ + (match m.original_id {
        Some(id) => "original_method_id: "@ + id + "\n"@,
        None => Seq::empty(),
    })
}

/// The lines that tell how a method is called: its verb, its URL, the
/// placeholders that are filled in without being asked for, and what a
/// call has to give.
pub open spec fn calling_text(
    m: MethodView,
    base_url: Seq<char>,
    autofilled: Seq<Seq<char>>,
    required: Seq<char>,
) -> Seq<char> {
    "http_method: "@ + m.http_method + "\nrequest_url: "@ + base_url + m.flat_path
        + "\nautofill_params: "@ + join(autofilled, ", "@) + "\n\nrequired_params: "@ + required
        + "\n"@
}

/// The lines that tell where the documentation is searched for.
pub open spec fn reference_text(link: Option<Seq<char>>) -> Seq<char> {
    match link {
        Some(url) => "\nFind API Reference: "@ + url + "\n"@,
        None => Seq::empty(),
    }
}

/// What is told of a method, from its parts: its names and ids, how and
/// where it is called, the suggested body for a method that takes one, and
/// where the documentation is searched for.
pub open spec fn method_text_of(
    m: MethodView,
    base_url: Seq<char>,
    autofilled: Seq<Seq<char>>,
    required: Seq<char>,
    payload: Seq<char>,
    link: Option<Seq<char>>,
) -> Seq<char> {
    naming_text(m) + calling_text(m, base_url, autofilled, required) + (if is_bodiless(
        m.http_method,
    ) {
        Seq::empty()
    } else {
        payload + "\n"@
    }) + reference_text(link)
}

fn write_naming(method: &ZgMethod) -> (r: String)
    ensures
        r@ == naming_text(method@),
{
    let mut out = "method_name: ".to_owned();
    out.append(method.name.as_str());
    out.append("\nmethod_id: ");
    out.append(method.id.as_str());
    out.append("\n");
    match &method.original_id {
        Some(id) => {
            out.append("original_method_id: ");
            out.append(id.as_str());
            out.append("\n");
        },
        None => {},
    }
    assert(out@ =~= naming_text(method@));
    out
}

fn write_calling(method: &ZgMethod, base_url: &str, autofilled: &Vec<String>, required: &str) -> (r:
    String)
    ensures
        r@ == calling_text(method@, base_url@, autofilled.deep_view(), required@),
{
    let mut out = "http_method: ".to_owned();
    out.append(method.http_method.as_str());
    out.append("\nrequest_url: ");
    out.append(base_url);
    out.append(method.flat_path.as_str());
    out.append("\nautofill_params: ");
    let listed = join_with(autofilled, ", ");
    out.append(listed.as_str());
    out.append("\n\nrequired_params: ");
    out.append(required);
    out.append("\n");
    assert(out@ =~= calling_text(method@, base_url@, autofilled.deep_view(), required@));
    out
}

fn write_reference(link: &Option<String>) -> (r: String)
    ensures
        r@ == reference_text(link.deep_view()),
{
    match link {
        Some(url) => {
            let mut out = "\nFind API Reference: ".to_owned();
            out.append(url.as_str());
            out.append("\n");
            assert(out@ =~= reference_text(link.deep_view()));
            out
        },
        None => String::new(),
    }
}

/// What is told of a method of a service; `None` where the method takes a
/// body and none could be suggested.
pub open spec fn method_text(m: MethodView, a: ApiView) -> Option<Seq<char>> {
    let names = placeholders_of(m.flat_path);
    let payload = if is_bodiless(m.http_method) {
        Some(Seq::empty())
    } else {
        payload_text(m, a.schemas)
    };
    match payload {
        Some(p) => Some(
            method_text_of(
                m,
                a.base_url,
                within(names, autofill_names()),
                required_params_text(required_names(names, m.query_params)),
                p,
                documentation_link(m.id),
            ),
        ),
        None => None,
    }
}

/// Describes a method: what is needed to call it.
pub fn describe_method(method: &ZgMethod, api: &ZgApi) -> (r: Option<String>)
    ensures
        r.deep_view() == method_text(method@, api@),
{
    let names = placeholder_names(method.flat_path.as_str());
    let autofilled = select_autofill(&names);
    let required = required_params_line(&names, method);
    let bodiless = same(method.http_method.as_str(), "GET") || same(
        method.http_method.as_str(),
        "DELETE",
    );
    let payload = if bodiless {
        String::new()
    } else {
        match payload_suggestion(method, api) {
            Some(p) => p,
            None => {
                return None;
            },
        }
    };
    let link = generate_documentation_link(method.id.as_str());
    let mut out = write_naming(method);
    let calling = write_calling(method, api.base_url.as_str(), &autofilled, required.as_str());
    out.append(calling.as_str());
    if !bodiless {
        out.append(payload.as_str());
        out.append("\n");
    }
    let reference = write_reference(&link);
    out.append(reference.as_str());
    assert(out@ =~= method_text_of(
        method@,
        api@.base_url,
        autofilled.deep_view(),
        required@,
        payload@,
        link.deep_view(),
    ));
    Some(out)
}

/// What is told when a description is asked for: of the service where no
/// resource is named, of the resource where no method is named, and of
/// the method otherwise.
pub open spec fn description(
    a: ApiView,
    resource: Option<Seq<char>>,
    method: Option<Seq<char>>,
) -> Result<Seq<char>, Option<ErrorView>> {
    match resource {
        None => Ok(service_text(a)),
        Some(path) => match resolved(a.id, a.resources, path) {
            Err(e) => Err(Some(e)),
            Ok(r) => match method {
                None => Ok(resource_text(r)),
                Some(name) => match method_of(r, name) {
                    Err(e) => Err(Some(e)),
                    Ok(m) => match method_text(m, a) {
                        Some(text) => Ok(text),
                        None => Err(None),
                    },
                },
            },
        },
    }
}

/// Describes what is asked for in a service. A method cannot be asked for
/// without its resource.
pub fn describe(api: &ZgApi, args: &DescArgs) -> (r: Result<String, DescError>)
    requires
        args.resource is None ==> args.method is None,
    ensures
        match r {
            Ok(text) => description(api@, args.resource.deep_view(), args.method.deep_view())
                == Ok::<Seq<char>, Option<ErrorView>>(text@),
            Err(DescError::NotFound(e)) => description(
                api@,
                args.resource.deep_view(),
                args.method.deep_view(),
            ) == Err::<Seq<char>, Option<ErrorView>>(Some(e@)),
            Err(DescError::NoSuggestion) => description(
                api@,
                args.resource.deep_view(),
                args.method.deep_view(),
            ) == Err::<Seq<char>, Option<ErrorView>>(None),
        },
{
    let path = match &args.resource {
        None => {
            return Ok(describe_service(api));
        },
        Some(p) => p,
    };
    let resource = match find_resource(api.id.as_str(), &api.resources, path.as_str()) {
        Ok(r) => r,
        Err(e) => {
            return Err(DescError::NotFound(e));
        },
    };
    let name = match &args.method {
        None => {
            return Ok(describe_resource(resource));
        },
        Some(n) => n,
    };
    let method = match find_method(resource, name.as_str()) {
        Ok(m) => m,
        Err(e) => {
            return Err(DescError::NotFound(e));
        },
    };
    match describe_method(&method, api) {
        Some(text) => Ok(text),
        None => Err(DescError::NoSuggestion),
    }
}

} // verus!
