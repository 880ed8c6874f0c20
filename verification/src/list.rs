//! The listings of services, resources and methods.

use crate::api::{
    find_resource, forest_nodes, lemma_children_view, method_named, resolved, tree_nodes, ApiView,
    ErrorView, MethodView, ResourceView, ZgApi, ZgError, ZgMethod, ZgResource,
};
use crate::sorting::{is_stable_sort, key_view, key_views, reversed, sorted_order, KeyView};
use crate::supported_apis::{catalog, supported_apis, SupportedApi, SupportedApiView};
use crate::text::{copy_strings, glue, join, join_with, same, to_chars};
use vstd::prelude::*;
use vstd::utf8::encode_utf8;

verus! {

/// What a listing is asked to show, and how.
#[derive(Debug)]
pub struct ListArgs {
    /// The service whose resources are listed; all services where none is
    /// given.
    pub service: Option<String>,
    /// The resource whose methods are listed.
    pub resource: Option<String>,
    /// The one method to list.
    pub method: Option<String>,
    /// List everything.
    pub all: bool,
    /// Show the aliases of services.
    pub aliases: bool,
    /// Show the category and the title of services.
    pub category: bool,
    /// Show a table in place of names.
    pub long: bool,
    /// Show colours.
    pub color: bool,
    /// The field to sort by.
    pub sort: Option<String>,
    /// Sort in descending order.
    pub reverse: bool,
}

impl Default for ListArgs {
    fn default() -> (r: Self)
        ensures
            r.service is None,
            r.resource is None,
            r.method is None,
            !r.all,
            !r.aliases,
            !r.category,
            !r.long,
            !r.color,
            r.sort is None,
            !r.reverse,
    {
        ListArgs {
            service: None,
            resource: None,
            method: None,
            all: false,
            aliases: false,
            category: false,
            long: false,
            color: false,
            sort: None,
            reverse: false,
        }
    }
}

/// The end of a line.
pub open spec fn newline() -> Seq<char> {
    seq!['\n']
}

/// The names of the first `n` trees of `rs` and of what is nested in them,
/// one on a line, each resource two columns further in than the resource
/// that it is nested in.
pub open spec fn forest_lines(rs: Seq<ResourceView>, n: nat, indent: Seq<char>) -> Seq<char>
    decreases rs, n,
{
    if n == 0 || n > rs.len() {
        Seq::empty()
    } else {
        forest_lines(rs, (n - 1) as nat, indent) + tree_lines(rs[n - 1], indent)
    }
}

/// The names of the resources of the tree `r`, one on a line.
pub open spec fn tree_lines(r: ResourceView, indent: Seq<char>) -> Seq<char>
    decreases r, 0nat,
{
    let own = indent + r.name + newline();
    match r.resources {
        Some(c) => own + forest_lines(c, c.len(), indent + seq![' ', ' ']),
        None => own,
    }
}

/// Renders the forest as indented lines of names.
pub fn render_resources_tree(resources: &Vec<ZgResource>, indent: &str) -> (r: String)
    ensures
        r@ == forest_lines(resources.deep_view(), resources.len() as nat, indent@),
    decreases resources,
{
    let ghost forest = resources.deep_view();
    let mut output = String::new();
    let mut i: usize = 0;
    while i < resources.len()
        invariant
            i <= resources.len(),
            forest == resources.deep_view(),
            output@ == forest_lines(forest, i as nat, indent@),
        decreases resources.len() - i,
    {
        let resource = &resources[i];
        let ghost so_far = output@;
        proof {
            assert(forest[i as int] == resource@);
            lemma_children_view(*resource);
        }
        output.append(indent);
        output.append(resource.name.as_str());
        output.append("\n");
        proof {
            reveal_strlit("\n");
            assert("\n"@ =~= newline());
            assert(output@ =~= so_far + (indent@ + resource@.name + newline()));
        }
        match &resource.resources {
            Some(kids) => {
                proof {
                    assert(decreases_to!(resources => resources[i as int]));
                    assert(decreases_to!(resources[i as int] => resources[i as int].resources->0));
                }
                let mut deeper = indent.to_owned();
                deeper.append("  ");
                proof {
                    reveal_strlit("  ");
                    assert(deeper@ =~= indent@ + seq![' ', ' ']);
                }
                let nested = render_resources_tree(kids, deeper.as_str());
                output.append(nested.as_str());
            },
            None => {},
        }
        proof {
            assert(output@ =~= so_far + tree_lines(resource@, indent@));
        }
        i += 1;
    }
    output
}

/// The listing of the resources of a service as names: one resource on a
/// line, each two columns further in than the resource that it is nested
/// in. `None` where a table is asked for, which is not laid out here.
pub fn list_resources(api: &ZgApi, args: &ListArgs) -> (r: Option<String>)
    ensures
        args.long ==> r is None,
        !args.long ==> (r matches Some(s) && s@ == forest_lines(
            api@.resources,
            api@.resources.len(),
            Seq::empty(),
        )),
{
    if args.long {
        None
    } else {
        let s = render_resources_tree(&api.resources, "");
        proof {
            reveal_strlit("");
            assert(""@ =~= Seq::<char>::empty());
        }
        Some(s)
    }
}

/// A listing: names on lines, or the rows of a table, each with the style
/// in which it is shown (none where the style is empty).
#[derive(Debug)]
pub enum Listing {
    Lines(String),
    Table(Vec<(String, Vec<String>)>),
}

/// The field to sort by: the one given, or the usual one.
pub open spec fn sort_field(chosen: Option<Seq<char>>, usual: Seq<char>) -> Seq<char> {
    match chosen {
        Some(f) => f,
        None => usual,
    }
}

/// The version of a service that is meant when none is given; nothing for
/// a service without versions.
pub open spec fn default_version_of(api: SupportedApiView) -> Seq<char> {
    if api.versions.len() > 0 {
        api.versions[0]
    } else {
        Seq::empty()
    }
}

/// The key by which a service is sorted: its title, its category, its
/// aliases, its versions or its default version, where the field names
/// one of these; else its name.
pub open spec fn service_key(api: SupportedApiView, field: Seq<char>) -> KeyView {
    KeyView {
        words: if field == "title"@ || field == "api_title"@ {
            seq![api.title]
        } else if field == "category"@ || field == "categories"@ {
            seq![api.category]
        } else if field == "aliases"@ || field == "alias"@ {
            api.aliases
        } else if field == "versions"@ || field == "version"@ {
            api.versions
        } else if field == "default_version"@ {
            seq![default_version_of(api)]
        } else {
            seq![api.name]
        },
        number: 0,
        more: Seq::empty(),
    }
}

/// The keys of the services.
pub open spec fn service_keys(apis: Seq<SupportedApiView>, field: Seq<char>) -> Seq<KeyView> {
    Seq::new(apis.len(), |i: int| service_key(apis[i], field))
}

/// The line that shows a service: its name; before it, where the category
/// is asked for, the category in brackets and the title; after it, where
/// aliases are asked for and there are any, the aliases in parentheses.
pub open spec fn service_line(api: SupportedApiView, aliases: bool, category: bool) -> Seq<char> {
    (if category {
        "["@ + api.category + "] "@ + api.title + " - "@
    } else {
        Seq::empty()
    }) + api.name + (if aliases && api.aliases.len() > 0 {
        " ("@ + join(api.aliases, ", "@) + ")"@
    } else {
        Seq::empty()
    })
}

/// The lines that show the services, in the order given.
pub open spec fn service_lines(
    apis: Seq<SupportedApiView>,
    order: Seq<usize>,
    aliases: bool,
    category: bool,
) -> Seq<Seq<char>> {
    Seq::new(order.len(), |k: int| service_line(apis[order[k] as int], aliases, category))
}

/// The row that shows a service: its name, title and category, its aliases
/// and its versions, each list with commas between its items, and its
/// default version; in no style.
pub open spec fn service_row(api: SupportedApiView) -> (Seq<char>, Seq<Seq<char>>) {
    (
        Seq::empty(),
        seq![
            api.name,
            api.title,
            api.category,
            join(api.aliases, ", "@),
            join(api.versions, ", "@),
            default_version_of(api),
        ],
    )
}

/// The rows that show the services, in the order given.
pub open spec fn service_rows(apis: Seq<SupportedApiView>, order: Seq<usize>) -> Seq<
    (Seq<char>, Seq<Seq<char>>),
> {
    Seq::new(order.len(), |k: int| service_row(apis[order[k] as int]))
}

fn one_word(s: &str) -> (r: Vec<String>)
    ensures
        r.deep_view() == seq![s@],
{
    let mut r: Vec<String> = Vec::new();
    r.push(s.to_owned());
    assert(r.deep_view() =~= seq![s@]);
    r
}

fn no_words() -> (r: Vec<String>)
    ensures
        r.deep_view() == Seq::<Seq<char>>::empty(),
{
    let r: Vec<String> = Vec::new();
    assert(r.deep_view() =~= Seq::<Seq<char>>::empty());
    r
}

fn first_or_empty(versions: &Vec<String>) -> (r: String)
    ensures
        r@ == (if versions.deep_view().len() > 0 {
            versions.deep_view()[0]
        } else {
            Seq::empty()
        }),
{
    assert(versions.deep_view().len() == versions.len());
    if versions.len() > 0 {
        assert(versions.deep_view()[0] == versions@[0]@);
        versions[0].clone()
    } else {
        String::new()
    }
}

fn key_of_service(api: &SupportedApi, field: &str) -> (r: (Vec<String>, usize, Vec<String>))
    ensures
        key_view(r) == service_key(api@, field@),
{
    let words = if same(field, "title") || same(field, "api_title") {
        one_word(api.title.as_str())
    } else if same(field, "category") || same(field, "categories") {
        one_word(api.category.as_str())
    } else if same(field, "aliases") || same(field, "alias") {
        copy_strings(&api.aliases)
    } else if same(field, "versions") || same(field, "version") {
        copy_strings(&api.versions)
    } else if same(field, "default_version") {
        let v = first_or_empty(&api.versions);
        one_word(v.as_str())
    } else {
        one_word(api.name.as_str())
    };
    (words, 0, no_words())
}

/// Writes the line that shows a service.
pub fn write_service_line(api: &SupportedApi, aliases: bool, category: bool) -> (r: String)
    ensures
        r@ == service_line(api@, aliases, category),
{
    let mut out = String::new();
    if category {
        out.append("[");
        out.append(api.category.as_str());
        out.append("] ");
        out.append(api.title.as_str());
        out.append(" - ");
    }
    out.append(api.name.as_str());
    assert(api@.aliases.len() == api.aliases.len());
    if aliases && api.aliases.len() > 0 {
        out.append(" (");
        let listed = join_with(&api.aliases, ", ");
        out.append(listed.as_str());
        out.append(")");
    }
    assert(out@ =~= service_line(api@, aliases, category));
    out
}

fn write_service_row(api: &SupportedApi) -> (r: (String, Vec<String>))
    ensures
        r.deep_view() == service_row(api@),
{
    let mut cells: Vec<String> = Vec::new();
    cells.push(api.name.clone());
    cells.push(api.title.clone());
    cells.push(api.category.clone());
    cells.push(join_with(&api.aliases, ", "));
    cells.push(join_with(&api.versions, ", "));
    cells.push(first_or_empty(&api.versions));
    assert(cells.deep_view() =~= service_row(api@).1);
    (String::new(), cells)
}

/// Lists the services of the catalog, sorted by the field that is asked
/// for, or by name: as lines, or as the rows of a table where the long
/// form is asked for.
pub fn list_services(args: &ListArgs) -> (r: Listing)
    ensures
        exists|order: Seq<usize>|
            {
                &&& #[trigger] is_stable_sort(
                    service_keys(catalog(args.all), sort_field(args.sort.deep_view(), "name"@)),
                    order,
                    args.reverse,
                )
                &&& match r {
                    Listing::Lines(text) => !args.long && text@ == join(
                        service_lines(catalog(args.all), order, args.aliases, args.category),
                        "\n"@,
                    ) + "\n"@,
                    Listing::Table(rows) => args.long && rows.deep_view() == service_rows(
                        catalog(args.all),
                        order,
                    ),
                }
            },
{
    let apis = supported_apis(args.all);
    let ghost all = apis.deep_view();
    let field: &str = match &args.sort {
        Some(f) => f.as_str(),
        None => "name",
    };
    let mut keys: Vec<(Vec<String>, usize, Vec<String>)> = Vec::new();
    let mut i: usize = 0;
    while i < apis.len()
        invariant
            i <= apis.len(),
            all == apis.deep_view(),
            keys@.len() == i,
            forall|j: int| 0 <= j < i ==> key_view(keys@[j]) == service_key(all[j], field@),
        decreases apis.len() - i,
    {
        assert(all[i as int] == apis@[i as int]@);
        keys.push(key_of_service(&apis[i], field));
        i += 1;
    }
    assert(key_views(keys@) =~= service_keys(all, field@));
    let order = sorted_order(&keys, args.reverse);
    assert(all.len() == apis.len());
    assert(field@ == sort_field(args.sort.deep_view(), "name"@));
    assert(is_stable_sort(
        service_keys(catalog(args.all), sort_field(args.sort.deep_view(), "name"@)),
        order@,
        args.reverse,
    ));
    if args.long {
        let mut rows: Vec<(String, Vec<String>)> = Vec::new();
        let mut k: usize = 0;
        while k < order.len()
            invariant
                k <= order.len(),
                all == apis.deep_view(),
                order@.len() == apis.len(),
                forall|j: int| 0 <= j < order@.len() ==> (#[trigger] order@[j]) < apis.len(),
                rows@.len() == k,
                forall|j: int|
                    0 <= j < k ==> (#[trigger] rows@[j]).deep_view() == service_row(
                        all[order@[j] as int],
                    ),
            decreases order.len() - k,
        {
            assert(all[order@[k as int] as int] == apis@[order@[k as int] as int]@);
            rows.push(write_service_row(&apis[order[k]]));
            k += 1;
        }
        assert(rows.deep_view() =~= service_rows(all, order@));
        Listing::Table(rows)
    } else {
        let mut lines: Vec<String> = Vec::new();
        let mut k: usize = 0;
        while k < order.len()
            invariant
                k <= order.len(),
                all == apis.deep_view(),
                order@.len() == apis.len(),
                forall|j: int| 0 <= j < order@.len() ==> (#[trigger] order@[j]) < apis.len(),
                lines@.len() == k,
                forall|j: int|
                    0 <= j < k ==> (#[trigger] lines@[j])@ == service_line(
                        all[order@[j] as int],
                        args.aliases,
                        args.category,
                    ),
            decreases order.len() - k,
        {
            assert(all[order@[k as int] as int] == apis@[order@[k as int] as int]@);
            lines.push(write_service_line(&apis[order[k]], args.aliases, args.category));
            k += 1;
        }
        assert(lines.deep_view() =~= service_lines(all, order@, args.aliases, args.category));
        let text = join_with(&lines, "\n");
        Listing::Lines(glue(text.as_str(), "\n"))
    }
}

/// The key by which a method is sorted: its name; or its verb, then its
/// URL template; or, where the field names neither, its URL template, then
/// its verb.
pub open spec fn method_key(m: MethodView, field: Seq<char>) -> KeyView {
    KeyView {
        words: if field == "name"@ || field == "method_name"@ {
            seq![m.name]
        } else if field == "http"@ || field == "http_method"@ {
            seq![m.http_method, m.flat_path]
        } else {
            seq![m.flat_path, m.http_method]
        },
        number: 0,
        more: Seq::empty(),
    }
}

/// The keys of the methods.
pub open spec fn method_keys(ms: Seq<MethodView>, field: Seq<char>) -> Seq<KeyView> {
    Seq::new(ms.len(), |i: int| method_key(ms[i], field))
}

/// The style in which a method is shown where colours are asked for: by
/// its verb.
pub open spec fn method_style(m: MethodView, color: bool) -> Seq<char> {
    if !color {
        Seq::empty()
    } else if m.http_method == "POST"@ {
        "Fg"@
    } else if m.http_method == "PUT"@ || m.http_method == "PATCH"@ {
        "Fb"@
    } else if m.http_method == "DELETE"@ {
        "Fr"@
    } else {
        Seq::empty()
    }
}

/// The row that shows a method: its name, its verb and its URL template.
pub open spec fn method_row(m: MethodView, color: bool) -> (Seq<char>, Seq<Seq<char>>) {
    (method_style(m, color), seq![m.name, m.http_method, m.flat_path])
}

/// The rows that show the methods, in the order given.
pub open spec fn method_rows(ms: Seq<MethodView>, order: Seq<usize>, color: bool) -> Seq<
    (Seq<char>, Seq<Seq<char>>),
> {
    Seq::new(order.len(), |k: int| method_row(ms[order[k] as int], color))
}

/// The names of the methods in the order given, each on a line.
pub open spec fn method_lines(ms: Seq<MethodView>, order: Seq<usize>, n: nat) -> Seq<char>
    decreases n,
{
    if n == 0 || n > order.len() {
        Seq::empty()
    } else {
        method_lines(ms, order, (n - 1) as nat) + (ms[order[n - 1] as int].name + "\n"@)
    }
}

/// The methods that a listing shows: all those of the resource, or the
/// one that is asked for. `None` where that one is not there.
pub open spec fn listed_methods(r: ResourceView, method: Option<Seq<char>>) -> Option<
    Seq<MethodView>,
> {
    match method {
        Some(name) => match method_named(r.methods, name, 0) {
            Some(m) => Some(seq![m]),
            None => None,
        },
        None => Some(r.methods),
    }
}

/// The methods are shown as they are listed, sorted: as lines, or as the
/// rows of a table where the long form is asked for.
pub open spec fn shows_methods(
    listing: Listing,
    ms: Seq<MethodView>,
    field: Seq<char>,
    reverse: bool,
    long: bool,
    color: bool,
) -> bool {
    exists|order: Seq<usize>|
        {
            &&& #[trigger] is_stable_sort(method_keys(ms, field), order, reverse)
            &&& match listing {
                Listing::Lines(text) => !long && text@ == method_lines(ms, order, order.len()),
                Listing::Table(rows) => long && rows.deep_view() == method_rows(ms, order, color),
            }
        }
}

fn key_of_method(m: &ZgMethod, field: &str) -> (r: (Vec<String>, usize, Vec<String>))
    ensures
        key_view(r) == method_key(m@, field@),
{
    let mut words: Vec<String> = Vec::new();
    if same(field, "name") || same(field, "method_name") {
        words.push(m.name.clone());
        assert(words.deep_view() =~= seq![m@.name]);
    } else if same(field, "http") || same(field, "http_method") {
        words.push(m.http_method.clone());
        words.push(m.flat_path.clone());
        assert(words.deep_view() =~= seq![m@.http_method, m@.flat_path]);
    } else {
        words.push(m.flat_path.clone());
        words.push(m.http_method.clone());
        assert(words.deep_view() =~= seq![m@.flat_path, m@.http_method]);
    }
    (words, 0, no_words())
}

fn write_method_row(m: &ZgMethod, color: bool) -> (r: (String, Vec<String>))
    ensures
        r.deep_view() == method_row(m@, color),
{
    let verb = m.http_method.as_str();
    let style = if !color {
        String::new()
    } else if same(verb, "POST") {
        "Fg".to_owned()
    } else if same(verb, "PUT") || same(verb, "PATCH") {
        "Fb".to_owned()
    } else if same(verb, "DELETE") {
        "Fr".to_owned()
    } else {
        String::new()
    };
    let mut cells: Vec<String> = Vec::new();
    cells.push(m.name.clone());
    cells.push(m.http_method.clone());
    cells.push(m.flat_path.clone());
    assert(cells.deep_view() =~= method_row(m@, color).1);
    (style, cells)
}

/// Shows the methods, sorted by the field.
pub fn show_methods(
    methods: &Vec<&ZgMethod>,
    field: &str,
    reverse: bool,
    long: bool,
    color: bool,
) -> (r: Listing)
    ensures
        shows_methods(r, methods.deep_view(), field@, reverse, long, color),
{
    let ghost ms = methods.deep_view();
    let mut keys: Vec<(Vec<String>, usize, Vec<String>)> = Vec::new();
    let mut i: usize = 0;
    while i < methods.len()
        invariant
            i <= methods.len(),
            ms == methods.deep_view(),
            keys@.len() == i,
            forall|j: int| 0 <= j < i ==> key_view(keys@[j]) == method_key(ms[j], field@),
        decreases methods.len() - i,
    {
        assert(ms[i as int] == methods@[i as int]@);
        keys.push(key_of_method(methods[i], field));
        i += 1;
    }
    assert(key_views(keys@) =~= method_keys(ms, field@));
    let order = sorted_order(&keys, reverse);
    assert(ms.len() == methods.len());
    assert(is_stable_sort(method_keys(ms, field@), order@, reverse));
    if long {
        let mut rows: Vec<(String, Vec<String>)> = Vec::new();
        let mut k: usize = 0;
        while k < order.len()
            invariant
                k <= order.len(),
                ms == methods.deep_view(),
                order@.len() == methods.len(),
                forall|j: int| 0 <= j < order@.len() ==> (#[trigger] order@[j]) < methods.len(),
                rows@.len() == k,
                forall|j: int|
                    0 <= j < k ==> (#[trigger] rows@[j]).deep_view() == method_row(
                        ms[order@[j] as int],
                        color,
                    ),
            decreases order.len() - k,
        {
            assert(ms[order@[k as int] as int] == methods@[order@[k as int] as int]@);
            rows.push(write_method_row(methods[order[k]], color));
            k += 1;
        }
        assert(rows.deep_view() =~= method_rows(ms, order@, color));
        Listing::Table(rows)
    } else {
        let mut text = String::new();
        let mut k: usize = 0;
        while k < order.len()
            invariant
                k <= order.len(),
                ms == methods.deep_view(),
                order@.len() == methods.len(),
                forall|j: int| 0 <= j < order@.len() ==> (#[trigger] order@[j]) < methods.len(),
                text@ == method_lines(ms, order@, k as nat),
            decreases order.len() - k,
        {
            let ghost had = text@;
            assert(ms[order@[k as int] as int] == methods@[order@[k as int] as int]@);
            text.append(methods[order[k]].name.as_str());
            text.append("\n");
            assert(text@ =~= had + (ms[order@[k as int] as int].name + "\n"@));
            k += 1;
        }
        Listing::Lines(text)
    }
}

/// Lists the methods of the resource that `resource_path` stands for, or
/// the one method that is asked for, sorted by the field that is asked
/// for, or by URL template. It fails where the resource is not found, and
/// where the method that is asked for is not among its methods.
pub fn list_methods(api: &ZgApi, resource_path: &str, args: &ListArgs) -> (r: Result<
    Listing,
    ZgError,
>)
    ensures
        match resolved(api@.id, api@.resources, resource_path@) {
            Err(e) => r matches Err(found) && found@ == e,
            Ok(resource) => match listed_methods(resource, args.method.deep_view()) {
                None => r matches Err(found) && found@ == ErrorView::MethodNotFound(
                    resource_path@,
                    args.method.deep_view()->0,
                ),
                Some(ms) => r matches Ok(listing) && shows_methods(
                    listing,
                    ms,
                    sort_field(args.sort.deep_view(), "path"@),
                    args.reverse,
                    args.long,
                    args.color,
                ),
            },
        },
{
    let resource = match find_resource(api.id.as_str(), &api.resources, resource_path) {
        Ok(r) => r,
        Err(e) => {
            return Err(e);
        },
    };
    let mut methods: Vec<&ZgMethod> = Vec::new();
    match &args.method {
        Some(name) => {
            let mut i: usize = 0;
            let mut found = false;
            while i < resource.methods.len() && !found
                invariant
                    i <= resource.methods.len(),
                    !found ==> methods@.len() == 0 && method_named(resource@.methods, name@, 0)
                        == method_named(resource@.methods, name@, i as int),
                    found ==> methods.deep_view() == seq![
                        method_named(resource@.methods, name@, 0)->0,
                    ] && method_named(resource@.methods, name@, 0) is Some,
                decreases resource.methods.len() - i, (if found { 0nat } else { 1nat }),
            {
                let m = &resource.methods[i];
                assert(resource@.methods[i as int] == m@);
                if same(m.name.as_str(), name.as_str()) {
                    methods.push(m);
                    assert(methods.deep_view() =~= seq![m@]);
                    found = true;
                } else {
                    i += 1;
                }
            }
            if !found {
                return Err(ZgError::MethodNotFound(resource_path.to_owned(), name.clone()));
            }
        },
        None => {
            let mut i: usize = 0;
            while i < resource.methods.len()
                invariant
                    i <= resource.methods.len(),
                    methods@.len() == i,
                    forall|j: int| 0 <= j < i ==> methods@[j]@ == resource.methods@[j]@,
                decreases resource.methods.len() - i,
            {
                methods.push(&resource.methods[i]);
                i += 1;
            }
            assert(methods.deep_view() =~= resource@.methods);
        },
    }
    let field: &str = match &args.sort {
        Some(f) => f.as_str(),
        None => "path",
    };
    Ok(show_methods(&methods, field, args.reverse, args.long, args.color))
}

/// A row of the table of resources.
#[derive(Debug)]
pub struct ResourceRow {
    pub name: String,
    /// Other resources have the same name.
    pub highlighted: bool,
    /// How many resources lie between the resource and the top level.
    pub depth: usize,
    pub path: String,
    pub method_count: usize,
    /// The names of the methods, the shortest first, with commas between
    /// them.
    pub method_names: String,
}

/// The model of a [`ResourceRow`].
pub struct ResourceRowView {
    pub name: Seq<char>,
    pub highlighted: bool,
    pub depth: nat,
    pub path: Seq<char>,
    pub method_count: nat,
    pub method_names: Seq<char>,
}

impl View for ResourceRow {
    type V = ResourceRowView;

    open spec fn view(&self) -> ResourceRowView {
        ResourceRowView {
            name: self.name@,
            highlighted: self.highlighted,
            depth: self.depth as nat,
            path: self.path@,
            method_count: self.method_count as nat,
            method_names: self.method_names@,
        }
    }
}

impl DeepView for ResourceRow {
    type V = ResourceRowView;

    open spec fn deep_view(&self) -> ResourceRowView {
        self@
    }
}

impl Clone for ResourceRow {
    fn clone(&self) -> (r: Self)
        ensures
            r@ == self@,
    {
        ResourceRow {
            name: self.name.clone(),
            highlighted: self.highlighted,
            depth: self.depth,
            path: self.path.clone(),
            method_count: self.method_count,
            method_names: self.method_names.clone(),
        }
    }
}

/// How many dots `s` has.
pub open spec fn dots(s: Seq<char>) -> nat
    decreases s.len(),
{
    if s.len() == 0 {
        0
    } else if s.last() == '.' {
        dots(s.drop_last()) + 1
    } else {
        dots(s.drop_last())
    }
}

/// How deep a resource lies: one less than the dots of its canonical path,
/// and not less than nothing.
pub open spec fn depth_of(path: Option<Seq<char>>) -> nat {
    match path {
        Some(p) => if dots(p) >= 1 {
            (dots(p) - 1) as nat
        } else {
            0
        },
        None => 0,
    }
}

/// The key by which the names of methods are sorted: the shorter first, by
/// the bytes that they take, and those of one length by name.
pub open spec fn name_key(name: Seq<char>) -> KeyView {
    KeyView {
        words: Seq::empty(),
        number: (encode_utf8(name).len() as usize) as nat,
        more: seq![name],
    }
}

/// The keys of the names of the methods.
pub open spec fn name_keys(ms: Seq<MethodView>) -> Seq<KeyView> {
    Seq::new(ms.len(), |i: int| name_key(ms[i].name))
}

/// The names of the methods, in the order given.
pub open spec fn names_in_order(ms: Seq<MethodView>, order: Seq<usize>) -> Seq<Seq<char>> {
    Seq::new(order.len(), |k: int| ms[order[k] as int].name)
}

/// The names with commas between them: all of them, or, where not all are
/// asked for and there are more than five, the first five and dots.
pub open spec fn names_cell(names: Seq<Seq<char>>, all: bool) -> Seq<char> {
    if !all && names.len() > 5 {
        join(names.subrange(0, 5), ", "@) + ", ..."@
    } else {
        join(names, ", "@)
    }
}

/// The name is one of those that several resources share.
pub open spec fn is_duplicated(duplicated: Seq<(Seq<char>, Seq<Seq<char>>)>, name: Seq<char>)
    -> bool {
    exists|i: int| 0 <= i < duplicated.len() && (#[trigger] duplicated[i]).0 == name
}

/// The row shows the resource.
pub open spec fn is_row_of(
    row: ResourceRowView,
    r: ResourceView,
    all: bool,
    duplicated: Seq<(Seq<char>, Seq<Seq<char>>)>,
) -> bool {
    &&& row.name == r.name
    &&& row.highlighted == is_duplicated(duplicated, r.name)
    &&& row.depth == depth_of(r.path)
    &&& row.path == match r.path {
        Some(p) => p,
        None => Seq::empty(),
    }
    &&& row.method_count == r.methods.len()
    &&& exists|order: Seq<usize>|
        #[trigger] is_stable_sort(name_keys(r.methods), order, false) && row.method_names
            == names_cell(names_in_order(r.methods, order), all)
}

/// The rows show the resources, one each, in order.
pub open spec fn are_rows_of(
    rows: Seq<ResourceRowView>,
    shown: Seq<ResourceView>,
    all: bool,
    duplicated: Seq<(Seq<char>, Seq<Seq<char>>)>,
) -> bool {
    &&& rows.len() == shown.len()
    &&& forall|k: int| 0 <= k < rows.len() ==> is_row_of(#[trigger] rows[k], shown[k], all, duplicated)
}

fn count_dots(s: &str) -> (r: usize)
    ensures
        r == dots(s@),
{
    let x = to_chars(s);
    let mut n: usize = 0;
    let mut i: usize = 0;
    assert(x@.subrange(0, 0) =~= Seq::<char>::empty());
    while i < x.len()
        invariant
            i <= x.len(),
            n <= i,
            n == dots(x@.subrange(0, i as int)),
        decreases x.len() - i,
    {
        proof {
            let t = x@.subrange(0, i + 1);
            assert(t.drop_last() =~= x@.subrange(0, i as int));
            assert(t.last() == x@[i as int]);
        }
        if x[i] == '.' {
            n += 1;
        }
        i += 1;
    }
    assert(x@.subrange(0, x.len() as int) =~= x@);
    n
}

fn is_name_duplicated(duplicated: &Vec<(String, Vec<String>)>, name: &str) -> (r: bool)
    ensures
        r == is_duplicated(duplicated.deep_view(), name@),
{
    let mut i: usize = 0;
    while i < duplicated.len()
        invariant
            i <= duplicated.len(),
            forall|j: int| 0 <= j < i ==> (#[trigger] duplicated.deep_view()[j]).0 != name@,
        decreases duplicated.len() - i,
    {
        assert(duplicated.deep_view()[i as int].0 == duplicated@[i as int].0@);
        if same(duplicated[i].0.as_str(), name) {
            return true;
        }
        i += 1;
    }
    false
}

fn write_names_cell(methods: &Vec<ZgMethod>, all: bool) -> (r: String)
    ensures
        exists|order: Seq<usize>|
            #[trigger] is_stable_sort(name_keys(methods.deep_view()), order, false) && r@
                == names_cell(names_in_order(methods.deep_view(), order), all),
{
    let ghost ms = methods.deep_view();
    let mut keys: Vec<(Vec<String>, usize, Vec<String>)> = Vec::new();
    let mut i: usize = 0;
    while i < methods.len()
        invariant
            i <= methods.len(),
            ms == methods.deep_view(),
            keys@.len() == i,
            forall|j: int| 0 <= j < i ==> key_view(keys@[j]) == name_key(ms[j].name),
        decreases methods.len() - i,
    {
        let name = methods[i].name.as_str();
        assert(ms[i as int].name == name@);
        let key = (no_words(), name.len(), one_word(name));
        keys.push(key);
        i += 1;
    }
    assert(key_views(keys@) =~= name_keys(ms));
    let order = sorted_order(&keys, false);
    assert(ms.len() == methods.len());
    let limit: usize = if !all && order.len() > 5 {
        5
    } else {
        order.len()
    };
    let ghost names = names_in_order(ms, order@);
    let mut shown: Vec<String> = Vec::new();
    let mut k: usize = 0;
    while k < limit
        invariant
            k <= limit <= order.len(),
            ms == methods.deep_view(),
            order@.len() == methods.len(),
            forall|j: int| 0 <= j < order@.len() ==> (#[trigger] order@[j]) < methods.len(),
            names == names_in_order(ms, order@),
            shown@.len() == k,
            forall|j: int| 0 <= j < k ==> (#[trigger] shown@[j])@ == names[j],
        decreases limit - k,
    {
        assert(ms[order@[k as int] as int] == methods@[order@[k as int] as int]@);
        shown.push(methods[order[k]].name.clone());
        k += 1;
    }
    assert(shown.deep_view() =~= names.subrange(0, limit as int));
    let mut cell = join_with(&shown, ", ");
    if !all && order.len() > 5 {
        cell.append(", ...");
    } else {
        assert(names.subrange(0, limit as int) =~= names);
    }
    assert(is_stable_sort(name_keys(ms), order@, false) && cell@ == names_cell(
        names_in_order(ms, order@),
        all,
    ));
    cell
}

fn write_resource_row(resource: &ZgResource, all: bool, duplicated: &Vec<(String, Vec<String>)>)
    -> (r: ResourceRow)
    ensures
        is_row_of(r@, resource@, all, duplicated.deep_view()),
{
    let (depth, path) = match &resource.path {
        Some(p) => {
            let n = count_dots(p.as_str());
            (
                if n >= 1 {
                    n - 1
                } else {
                    0
                },
                p.clone(),
            )
        },
        None => (0, String::new()),
    };
    assert(resource@.methods.len() == resource.methods.len());
    ResourceRow {
        name: resource.name.clone(),
        highlighted: is_name_duplicated(duplicated, resource.name.as_str()),
        depth,
        path,
        method_count: resource.methods.len(),
        method_names: write_names_cell(&resource.methods, all),
    }
}

/// Adds a row for every resource of the forest, in depth-first order, a
/// resource before what is nested in it. `duplicated` holds the names that
/// are to be highlighted.
pub fn add_resource_rows(
    rows: &mut Vec<ResourceRow>,
    resources: &Vec<ZgResource>,
    args: &ListArgs,
    duplicated_resources: &Vec<(String, Vec<String>)>,
)
    ensures
        final(rows).deep_view().len() >= old(rows).deep_view().len(),
        final(rows).deep_view().subrange(0, old(rows).deep_view().len() as int) == old(
            rows,
        ).deep_view(),
        are_rows_of(
            final(rows).deep_view().subrange(
                old(rows).deep_view().len() as int,
                final(rows).deep_view().len() as int,
            ),
            forest_nodes(resources.deep_view(), resources.len() as nat),
            args.all,
            duplicated_resources.deep_view(),
        ),
    decreases resources,
{
    let ghost before = rows.deep_view();
    let ghost forest = resources.deep_view();
    let ghost marked = duplicated_resources.deep_view();
    let mut i: usize = 0;
    assert(rows.deep_view().subrange(0, before.len() as int) =~= before);
    while i < resources.len()
        invariant
            i <= resources.len(),
            forest == resources.deep_view(),
            marked == duplicated_resources.deep_view(),
            before == old(rows).deep_view(),
            rows.deep_view().len() >= before.len(),
            rows.deep_view().subrange(0, before.len() as int) == before,
            are_rows_of(
                rows.deep_view().subrange(before.len() as int, rows.deep_view().len() as int),
                forest_nodes(forest, i as nat),
                args.all,
                marked,
            ),
        decreases resources.len() - i,
    {
        let resource = &resources[i];
        let ghost had = rows.deep_view();
        let ghost shown = forest_nodes(forest, i as nat);
        proof {
            assert(forest[i as int] == resource@);
            lemma_children_view(*resource);
        }
        let row = write_resource_row(resource, args.all, duplicated_resources);
        let ghost own = row@;
        rows.push(row);
        let ghost with_own = rows.deep_view();
        assert(with_own =~= had.push(own));
        match &resource.resources {
            Some(kids) => {
                proof {
                    assert(decreases_to!(resources => resources[i as int]));
                    assert(decreases_to!(resources[i as int] => resources[i as int].resources->0));
                }
                add_resource_rows(rows, kids, args, duplicated_resources);
            },
            None => {},
        }
        proof {
            let now = rows.deep_view();
            let new_rows = now.subrange(before.len() as int, now.len() as int);
            let new_nodes = forest_nodes(forest, (i + 1) as nat);
            let old_rows = had.subrange(before.len() as int, had.len() as int);
            let nested = match resource@.resources {
                Some(c) => forest_nodes(c, c.len()),
                None => Seq::empty(),
            };
            let nested_rows = now.subrange(with_own.len() as int, now.len() as int);
            assert(tree_nodes(resource@) =~= seq![resource@] + nested);
            assert(new_nodes =~= shown + tree_nodes(resource@));
            assert(now.subrange(0, with_own.len() as int) == with_own);
            assert(now.subrange(0, before.len() as int) =~= before) by {
                assert(with_own.subrange(0, before.len() as int) =~= before);
            }
            assert(new_rows.len() == new_nodes.len());
            assert forall|k: int| 0 <= k < new_rows.len() implies is_row_of(
                #[trigger] new_rows[k],
                new_nodes[k],
                args.all,
                marked,
            ) by {
                if k < old_rows.len() {
                    assert(new_rows[k] == with_own[before.len() + k]);
                    assert(with_own[before.len() + k] == had[before.len() + k]);
                    assert(new_rows[k] == old_rows[k]);
                    assert(new_nodes[k] == shown[k]);
                } else if k == old_rows.len() {
                    assert(new_rows[k] == with_own[before.len() + k]);
                    assert(new_rows[k] == own);
                    assert(new_nodes[k] == resource@);
                } else {
                    let m = k - old_rows.len() - 1;
                    assert(new_rows[k] == nested_rows[m]);
                    assert(new_nodes[k] == nested[m]);
                }
            }
        }
        i += 1;
    }
}

/// The key by which a row is sorted: its name, then its depth, then its
/// path; or its depth, then its name; or the number of its methods, then
/// its path; or, where the field names none of these, its path.
pub open spec fn row_key(row: ResourceRowView, field: Seq<char>) -> KeyView {
    if field == "name"@ || field == "resource_name"@ {
        KeyView { words: seq![row.name], number: row.depth, more: seq![row.path] }
    } else if field == "depth"@ {
        KeyView { words: Seq::empty(), number: row.depth, more: seq![row.name] }
    } else if field == "method"@ || field == "methods"@ || field == "method_count"@ {
        KeyView { words: Seq::empty(), number: row.method_count, more: seq![row.path] }
    } else {
        KeyView { words: seq![row.path], number: 0, more: Seq::empty() }
    }
}

/// The keys of the rows.
pub open spec fn row_keys(rows: Seq<ResourceRowView>, field: Seq<char>) -> Seq<KeyView> {
    Seq::new(rows.len(), |i: int| row_key(rows[i], field))
}

/// The rows in the order given.
pub open spec fn rows_in_order(rows: Seq<ResourceRowView>, order: Seq<usize>) -> Seq<
    ResourceRowView,
> {
    Seq::new(order.len(), |k: int| rows[order[k] as int])
}

/// `sorted` holds the rows sorted by the field, from the least to the
/// greatest, or the other way round where that is asked for.
pub open spec fn is_sorted_table(
    sorted: Seq<ResourceRowView>,
    rows: Seq<ResourceRowView>,
    field: Seq<char>,
    reverse: bool,
) -> bool {
    exists|order: Seq<usize>|
        #[trigger] is_stable_sort(row_keys(rows, field), order, false) && sorted == rows_in_order(
            rows,
            if reverse {
                order.reverse()
            } else {
                order
            },
        )
}

fn key_of_row(row: &ResourceRow, field: &str) -> (r: (Vec<String>, usize, Vec<String>))
    ensures
        key_view(r) == row_key(row@, field@),
{
    if same(field, "name") || same(field, "resource_name") {
        (one_word(row.name.as_str()), row.depth, one_word(row.path.as_str()))
    } else if same(field, "depth") {
        (no_words(), row.depth, one_word(row.name.as_str()))
    } else if same(field, "method") || same(field, "methods") || same(field, "method_count") {
        (no_words(), row.method_count, one_word(row.path.as_str()))
    } else {
        (one_word(row.path.as_str()), 0, no_words())
    }
}

/// Sorts the rows of the table of resources by the field.
pub fn sort_resources_table(table: &Vec<ResourceRow>, sort_field: &str, reverse: bool) -> (r: Vec<
    ResourceRow,
>)
    ensures
        is_sorted_table(r.deep_view(), table.deep_view(), sort_field@, reverse),
{
    let ghost rows = table.deep_view();
    let mut keys: Vec<(Vec<String>, usize, Vec<String>)> = Vec::new();
    let mut i: usize = 0;
    while i < table.len()
        invariant
            i <= table.len(),
            rows == table.deep_view(),
            keys@.len() == i,
            forall|j: int| 0 <= j < i ==> key_view(keys@[j]) == row_key(rows[j], sort_field@),
        decreases table.len() - i,
    {
        assert(rows[i as int] == table@[i as int]@);
        keys.push(key_of_row(&table[i], sort_field));
        i += 1;
    }
    assert(key_views(keys@) =~= row_keys(rows, sort_field@));
    let ascending = sorted_order(&keys, false);
    assert(rows.len() == table.len());
    let order = if reverse {
        reversed(&ascending)
    } else {
        ascending
    };
    let mut sorted: Vec<ResourceRow> = Vec::new();
    let mut k: usize = 0;
    while k < order.len()
        invariant
            k <= order.len(),
            rows == table.deep_view(),
            order@.len() == table.len(),
            forall|j: int| 0 <= j < order@.len() ==> (#[trigger] order@[j]) < table.len(),
            sorted@.len() == k,
            forall|j: int| 0 <= j < k ==> (#[trigger] sorted@[j])@ == rows[order@[j] as int],
        decreases order.len() - k,
    {
        assert(rows[order@[k as int] as int] == table@[order@[k as int] as int]@);
        sorted.push(table[order[k]].clone());
        k += 1;
    }
    assert(sorted.deep_view() =~= rows_in_order(rows, order@));
    assert(is_stable_sort(row_keys(rows, sort_field@), ascending@, false));
    sorted
}

/// The names that are highlighted in the table of a service: those that
/// several resources share, where colours are asked for.
pub open spec fn highlighted_names(a: ApiView, color: bool) -> Seq<(Seq<char>, Seq<Seq<char>>)> {
    if color {
        crate::api::duplicates(
            crate::api::forest_paths(a.resources, a.resources.len()),
            crate::api::forest_paths(a.resources, a.resources.len()).len(),
        )
    } else {
        Seq::empty()
    }
}

/// The table asked for shows the resources of the service: a row for
/// each, in depth-first order, or sorted where a field is given.
pub open spec fn is_resource_table(
    table: Seq<ResourceRowView>,
    a: ApiView,
    all: bool,
    color: bool,
    sort: Option<Seq<char>>,
    reverse: bool,
) -> bool {
    exists|rows: Seq<ResourceRowView>|
        {
            &&& #[trigger] are_rows_of(
                rows,
                forest_nodes(a.resources, a.resources.len()),
                all,
                highlighted_names(a, color),
            )
            &&& match sort {
                Some(field) => is_sorted_table(table, rows, field, reverse),
                None => table == rows,
            }
        }
}

/// Lays out the table of the resources of a service: a row for each, with
/// the names that several resources share highlighted where colours are
/// asked for, sorted where a field is given.
pub fn resource_table(api: &ZgApi, args: &ListArgs) -> (r: Vec<ResourceRow>)
    ensures
        is_resource_table(
            r.deep_view(),
            api@,
            args.all,
            args.color,
            args.sort.deep_view(),
            args.reverse,
        ),
{
    let duplicated: Vec<(String, Vec<String>)> = if args.color {
        api.duplicated_resources()
    } else {
        Vec::new()
    };
    proof {
        if !args.color {
            assert(duplicated.deep_view() =~= Seq::<(Seq<char>, Seq<Seq<char>>)>::empty());
        }
    }
    let mut rows: Vec<ResourceRow> = Vec::new();
    assert(rows.deep_view() =~= Seq::<ResourceRowView>::empty());
    add_resource_rows(&mut rows, &api.resources, args, &duplicated);
    let ghost laid = rows.deep_view();
    let ghost shown = forest_nodes(api@.resources, api@.resources.len());
    let ghost highlighted = highlighted_names(api@, args.color);
    assert(duplicated.deep_view() == highlighted);
    assert(laid.subrange(0, laid.len() as int) =~= laid);
    assert(are_rows_of(laid, shown, args.all, highlighted));
    match &args.sort {
        Some(field) => {
            let sorted = sort_resources_table(&rows, field.as_str(), args.reverse);
            assert(are_rows_of(laid, shown, args.all, highlighted) && is_sorted_table(
                sorted.deep_view(),
                laid,
                field@,
                args.reverse,
            ));
            sorted
        },
        None => rows,
    }
}

} // verus!
