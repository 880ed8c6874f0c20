//! What a call of a method is made of: the URL that its parameters give,
//! the body, and the command that would send the same request.

use crate::api::{
    find_method, find_resource, method_of, resolved, ApiView, ErrorView, MethodView, ZgApi, ZgError,
    ZgMethod, PATH_PLACEHOLDERS_PROJECT, PATH_PLACEHOLDERS_REGION, PATH_PLACEHOLDERS_ZONE,
};
use crate::outside::{
    compact_json, json_compact, json_pretty, lowercase, parse_url, parse_url_with_params,
    pretty_json, to_lowercase, trim, trimmed, url_parsed, url_parsed_with_params,
};
use crate::text::{
    braced, contains, cut_once, glue, includes, replace_all, replaced, same, split_once,
};
use vstd::prelude::*;

verus! {

/// What a call is asked to do.
#[derive(Debug)]
pub struct ExecArgs {
    /// The service that has the resource.
    pub service: String,
    /// The resource that has the method, by a suffix of its canonical path.
    pub resource: String,
    /// The method to call.
    pub method: String,
    /// Headers to send besides, or in place of, the usual ones.
    pub headers: Option<Vec<(String, String)>>,
    /// Values for the placeholders of the URL, and for its query.
    pub params: Option<Vec<(String, String)>>,
    /// The body: JSON, or `@` and the name of a file that holds it.
    pub data: Option<String>,
    /// Show the command that would send the request, and send nothing.
    pub equivalent_curl: bool,
}

/// The values that stand in for the placeholders of project, region and
/// zone where the caller gave none.
#[derive(Debug)]
pub struct Autofill {
    pub project: Option<String>,
    pub region: Option<String>,
    pub zone: Option<String>,
}

/// Why a call cannot be made up.
#[derive(Debug)]
pub enum ExecError {
    /// The resource or the method is not there.
    NotFound(ZgError),
    /// The body is no JSON.
    InvalidJson,
    /// The base URL and the path together are no URL.
    InvalidUrl,
    /// The method, named first, has a verb that cannot be sent.
    UnsupportedMethod(String, String),
}

/// The model of an [`ExecError`].
pub enum ExecErrorView {
    NotFound(ErrorView),
    InvalidJson,
    InvalidUrl,
    UnsupportedMethod(Seq<char>, Seq<char>),
}

impl View for ExecError {
    type V = ExecErrorView;

    open spec fn view(&self) -> ExecErrorView {
        match self {
            ExecError::NotFound(e) => ExecErrorView::NotFound(e@),
            ExecError::InvalidJson => ExecErrorView::InvalidJson,
            ExecError::InvalidUrl => ExecErrorView::InvalidUrl,
            ExecError::UnsupportedMethod(m, v) => ExecErrorView::UnsupportedMethod(m@, v@),
        }
    }
}

/// What is to be done for a call.
#[derive(Debug)]
pub enum Action {
    /// Show the command that would send the request.
    Show(String),
    /// Send a request with the verb to the URL, with the body where the
    /// verb takes one.
    Send(String, String, Option<String>),
}

/// The model of an [`Action`].
pub enum ActionView {
    Show(Seq<char>),
    Send(Seq<char>, Seq<char>, Option<Seq<char>>),
}

impl View for Action {
    type V = ActionView;

    open spec fn view(&self) -> ActionView {
        match self {
            Action::Show(command) => ActionView::Show(command@),
            Action::Send(verb, url, body) => ActionView::Send(verb@, url@, body.deep_view()),
        }
    }
}

/// What is said of a parameter without `=`.
pub open spec fn missing_equals() -> Seq<char> {
    "No '=' found. Params must '-p Key=Value'"@
}

/// What is said of a header without `:`.
pub open spec fn missing_colon() -> Seq<char> {
    "No ':' found. HTTP headers must be in the form '-H \"Key: Value\"'"@
}

/// Reads a parameter given as `Key=Value`: the key is what stands before
/// the first `=`, the value what stands after it.
pub fn parse_params(s: &str) -> (r: Result<(String, String), String>)
    ensures
        match r {
            Ok(pair) => split_once(s@, '=') == Some((pair.0@, pair.1@)),
            Err(message) => split_once(s@, '=') is None && message@ == missing_equals(),
        },
{
    match cut_once(s, '=') {
        Some(pair) => Ok(pair),
        None => Err("No '=' found. Params must '-p Key=Value'".to_owned()),
    }
}

/// Reads a header given as `Key: Value`: the key is what stands before the
/// first `:`, the value what stands after it, both without the white space
/// around them.
pub fn parse_headers(s: &str) -> (r: Result<(String, String), String>)
    ensures
        match r {
            Ok(pair) => split_once(s@, ':') matches Some(parts) && pair.0@ == trimmed(parts.0)
                && pair.1@ == trimmed(parts.1),
            Err(message) => split_once(s@, ':') is None && message@ == missing_colon(),
        },
{
    match cut_once(s, ':') {
        Some(pair) => {
            let key = trim(pair.0.as_str()).to_owned();
            let value = trim(pair.1.as_str()).to_owned();
            Ok((key, value))
        },
        None => Err(
            "No ':' found. HTTP headers must be in the form '-H \"Key: Value\"'".to_owned(),
        ),
    }
}

/// The placeholder of the parameter `name`: the name in braces.
pub open spec fn placeholder(name: Seq<char>) -> Seq<char> {
    seq!['{'] + name + seq!['}']
}

/// The path after the first `n` parameters: each, in turn, replaces its
/// placeholder wherever the path has it.
pub open spec fn filled(path: Seq<char>, params: Seq<(Seq<char>, Seq<char>)>, n: nat) -> Seq<char>
    decreases n,
{
    if n == 0 || n > params.len() {
        path
    } else {
        replaced(
            filled(path, params, (n - 1) as nat),
            placeholder(params[n - 1].0),
            params[n - 1].1,
        )
    }
}

/// Those of the first `n` parameters that go into the query: each whose
/// placeholder the path does not have when its turn comes.
pub open spec fn for_query(path: Seq<char>, params: Seq<(Seq<char>, Seq<char>)>, n: nat) -> Seq<
    (Seq<char>, Seq<char>),
>
    decreases n,
{
    if n == 0 || n > params.len() {
        Seq::empty()
    } else if contains(filled(path, params, (n - 1) as nat), placeholder(params[n - 1].0)) {
        for_query(path, params, (n - 1) as nat)
    } else {
        for_query(path, params, (n - 1) as nat).push(params[n - 1])
    }
}

/// The parameters that were given; none where none were.
pub open spec fn given(params: Option<Vec<(String, String)>>) -> Seq<(Seq<char>, Seq<char>)> {
    match params {
        Some(p) => p.deep_view(),
        None => Seq::empty(),
    }
}

proof fn lemma_replaced_absent(s: Seq<char>, pat: Seq<char>, with: Seq<char>)
    requires
        !contains(s, pat),
    ensures
        replaced(s, pat, with) == s,
    decreases s.len(),
{
    if pat.len() == 0 || s.len() < pat.len() {
    } else {
        assert(!crate::text::occurs_at(s, pat, 0));
        let t = s.drop_first();
        if contains(t, pat) {
            let at = choose|at: int| crate::text::occurs_at(t, pat, at);
            assert(t.subrange(at, at + pat.len()) =~= s.subrange(at + 1, at + 1 + pat.len()));
            assert(crate::text::occurs_at(s, pat, at + 1));
        }
        lemma_replaced_absent(t, pat, with);
        assert(seq![s[0]] + t =~= s);
    }
}

/// Puts the parameters into the URL template: one whose placeholder the
/// path has replaces it; the others are returned for the query, in order.
pub fn fill_path(flat_path: &str, params: &Option<Vec<(String, String)>>) -> (r: (
    String,
    Vec<(String, String)>,
))
    ensures
        r.0@ == filled(flat_path@, given(*params), given(*params).len()),
        r.1.deep_view() == for_query(flat_path@, given(*params), given(*params).len()),
{
    let mut path = flat_path.to_owned();
    let mut query: Vec<(String, String)> = Vec::new();
    assert(query.deep_view() =~= Seq::<(Seq<char>, Seq<char>)>::empty());
    match params {
        Some(ps) => {
            let ghost all = ps.deep_view();
            let mut i: usize = 0;
            while i < ps.len()
                invariant
                    i <= ps.len(),
                    all == ps.deep_view(),
                    path@ == filled(flat_path@, all, i as nat),
                    query.deep_view() == for_query(flat_path@, all, i as nat),
                decreases ps.len() - i,
            {
                let ghost had = query.deep_view();
                assert(all[i as int] == (ps@[i as int].0@, ps@[i as int].1@));
                let key = ps[i].0.as_str();
                let value = ps[i].1.as_str();
                let token = braced(key);
                if includes(path.as_str(), token.as_str()) {
                    path = replace_all(path.as_str(), token.as_str(), value);
                } else {
                    proof {
                        lemma_replaced_absent(path@, token@, value@);
                    }
                    query.push((ps[i].0.clone(), ps[i].1.clone()));
                    assert(query.deep_view() =~= had.push(all[i as int]));
                }
                i += 1;
            }
        },
        None => {},
    }
    (path, query)
}

/// The path has the placeholder of one of the names.
pub open spec fn mentions_any(path: Seq<char>, names: Seq<Seq<char>>) -> bool {
    exists|i: int| 0 <= i < names.len() && contains(path, placeholder(names[i]))
}

/// The path with the placeholders of the first `n` names replaced by
/// `value`.
pub open spec fn with_value(path: Seq<char>, names: Seq<Seq<char>>, n: nat, value: Seq<char>)
    -> Seq<char>
    decreases n,
{
    if n == 0 || n > names.len() {
        path
    } else {
        replaced(with_value(path, names, (n - 1) as nat, value), placeholder(names[n - 1]), value)
    }
}

/// The path with the placeholders of the names replaced by the value,
/// where there is a value and the path has one of the placeholders; the
/// path as it is otherwise.
pub open spec fn autofilled(path: Seq<char>, names: Seq<Seq<char>>, value: Option<Seq<char>>)
    -> Seq<char> {
    match value {
        Some(v) => if mentions_any(path, names) {
            with_value(path, names, names.len(), v)
        } else {
            path
        },
        None => path,
    }
}

/// Whether the path has the placeholder of one of the names, so that a
/// value is wanted for it.
pub fn mentions_placeholder(path: &str, placeholders: &[&str]) -> (r: bool)
    ensures
        r == mentions_any(path@, placeholders.deep_view()),
{
    let mut i: usize = 0;
    while i < placeholders.len()
        invariant
            i <= placeholders.len(),
            forall|k: int|
                0 <= k < i ==> !contains(path@, placeholder(placeholders.deep_view()[k])),
        decreases placeholders.len() - i,
    {
        assert(placeholders.deep_view()[i as int] == placeholders@[i as int]@);
        let token = braced(placeholders[i]);
        if includes(path, token.as_str()) {
            return true;
        }
        i += 1;
    }
    false
}

/// Replaces the placeholders of the names by the value, where there is a
/// value and the path has one of the placeholders.
pub fn replace_placeholders(path: &str, placeholders: &[&str], value: Option<&str>) -> (r: String)
    ensures
        r@ == autofilled(path@, placeholders.deep_view(), value.deep_view()),
{
    match value {
        Some(v) => {
            if !mentions_placeholder(path, placeholders) {
                return path.to_owned();
            }
            let mut new_path = path.to_owned();
            let mut i: usize = 0;
            while i < placeholders.len()
                invariant
                    i <= placeholders.len(),
                    new_path@ == with_value(path@, placeholders.deep_view(), i as nat, v@),
                decreases placeholders.len() - i,
            {
                assert(placeholders.deep_view()[i as int] == placeholders@[i as int]@);
                let token = braced(placeholders[i]);
                new_path = replace_all(new_path.as_str(), token.as_str(), v);
                i += 1;
            }
            new_path
        },
        None => path.to_owned(),
    }
}

/// The names that a project takes as a placeholder.
pub open spec fn project_names() -> Seq<Seq<char>> {
    seq!["projectsId"@, "project"@, "projectId"@]
}

/// The names that a region takes as a placeholder.
pub open spec fn region_names() -> Seq<Seq<char>> {
    seq!["regionsId"@, "region"@, "locationsId"@, "location"@]
}

/// The names that a zone takes as a placeholder.
pub open spec fn zone_names() -> Seq<Seq<char>> {
    seq!["zonesId"@, "zone"@]
}

/// The path of a call: the template with the parameters put in, then with
/// the values that stand in for project, region and zone.
pub open spec fn call_path(
    flat_path: Seq<char>,
    params: Seq<(Seq<char>, Seq<char>)>,
    project: Option<Seq<char>>,
    region: Option<Seq<char>>,
    zone: Option<Seq<char>>,
) -> Seq<char> {
    autofilled(
        autofilled(
            autofilled(filled(flat_path, params, params.len()), project_names(), project),
            region_names(),
            region,
        ),
        zone_names(),
        zone,
    )
}

/// The URL of a call: the base URL and the path of the call, with the
/// parameters that filled no placeholder as its query.
pub open spec fn call_url(
    base_url: Seq<char>,
    flat_path: Seq<char>,
    params: Seq<(Seq<char>, Seq<char>)>,
    project: Option<Seq<char>>,
    region: Option<Seq<char>>,
    zone: Option<Seq<char>>,
) -> Option<Seq<char>> {
    let text = base_url + call_path(flat_path, params, project, region, zone);
    let query = for_query(flat_path, params, params.len());
    if query.len() == 0 {
        url_parsed(text)
    } else {
        url_parsed_with_params(text, query)
    }
}

fn name_slice<'a, const N: usize>(names: &'a [&'static str; N]) -> (r: &'a [&'static str])
    ensures
        r@ == names@,
{
    names.as_slice()
}

/// Builds the URL to which the call of `method` goes. `None` where the
/// base URL and the path together are no URL.
pub fn build_url(
    base_url: &String,
    method: &ZgMethod,
    params: &Option<Vec<(String, String)>>,
    autofill: &Autofill,
) -> (r: Option<String>)
    ensures
        r.deep_view() == call_url(
            base_url@,
            method@.flat_path,
            given(*params),
            autofill.project.deep_view(),
            autofill.region.deep_view(),
            autofill.zone.deep_view(),
        ),
{
    let (path, query) = fill_path(method.flat_path.as_str(), params);
    let projects = name_slice(&PATH_PLACEHOLDERS_PROJECT);
    let regions = name_slice(&PATH_PLACEHOLDERS_REGION);
    let zones = name_slice(&PATH_PLACEHOLDERS_ZONE);
    assert(projects.deep_view() =~= project_names());
    assert(regions.deep_view() =~= region_names());
    assert(zones.deep_view() =~= zone_names());
    let project = match &autofill.project {
        Some(v) => Some(v.as_str()),
        None => None,
    };
    let region = match &autofill.region {
        Some(v) => Some(v.as_str()),
        None => None,
    };
    let zone = match &autofill.zone {
        Some(v) => Some(v.as_str()),
        None => None,
    };
    let path = replace_placeholders(path.as_str(), projects, project);
    let path = replace_placeholders(path.as_str(), regions, region);
    let path = replace_placeholders(path.as_str(), zones, zone);
    let text = glue(base_url.as_str(), path.as_str());
    assert(query.deep_view().len() == query.len());
    if query.len() == 0 {
        parse_url(text.as_str())
    } else {
        parse_url_with_params(text.as_str(), &query)
    }
}

/// The first position at or after `from` at which `s` has another
/// character than `c`.
pub open spec fn first_other(s: Seq<char>, c: char, from: int) -> int
    decreases s.len() - from,
{
    if from < 0 || from >= s.len() || s[from] != c {
        from
    } else {
        first_other(s, c, from + 1)
    }
}

/// The name of the file that holds the body, where the body is given as
/// `@` and a name: what follows the `@` signs at its start. `None` where
/// the body is given as it is.
pub open spec fn named_file(data: Seq<char>) -> Option<Seq<char>> {
    if data.len() > 0 && data[0] == '@' {
        Some(data.subrange(first_other(data, '@', 0), data.len() as int))
    } else {
        None
    }
}

/// The name of the file that holds the body, where the body is given as
/// `@` and a name.
pub fn data_file(data: &str) -> (r: Option<String>)
    ensures
        r.deep_view() == named_file(data@),
{
    let x = crate::text::to_chars(data);
    if x.len() == 0 || x[0] != '@' {
        return None;
    }
    let mut i: usize = 0;
    while i < x.len() && x[i] == '@'
        invariant
            i <= x.len(),
            first_other(x@, '@', 0) == first_other(x@, '@', i as int),
        decreases x.len() - i,
    {
        i += 1;
    }
    Some(crate::text::from_chars(&x, i, x.len()))
}

/// Brings the body of a request into the form in which it is sent: JSON
/// without white space between its tokens.
pub fn prepare_json_string(data: &str) -> (r: Result<String, ExecError>)
    ensures
        match r {
            Ok(s) => json_compact(data@) == Some(s@),
            Err(e) => json_compact(data@) is None && e is InvalidJson,
        },
{
    match compact_json(data) {
        Some(s) => Ok(s),
        None => Err(ExecError::InvalidJson),
    }
}

/// The line of the command that gives one header.
pub open spec fn header_line(key: Seq<char>, value: Seq<char>) -> Seq<char> {
    " \\\n  -H \""@ + key + ": "@ + value + "\""@
}

/// The lines of the command that give the first `n` headers.
pub open spec fn header_lines(headers: Seq<(Seq<char>, Seq<char>)>, n: nat) -> Seq<char>
    decreases n,
{
    if n == 0 || n > headers.len() {
        Seq::empty()
    } else {
        header_lines(headers, (n - 1) as nat) + header_line(headers[n - 1].0, headers[n - 1].1)
    }
}

/// One of the headers has, in lower case, the name `name`.
pub open spec fn names_header(headers: Seq<(Seq<char>, Seq<char>)>, name: Seq<char>) -> bool {
    exists|i: int| 0 <= i < headers.len() && lowercase(headers[i].0) == name
}

/// The lines of the command that give the headers: those that were asked
/// for, then the usual ones for which none was asked for.
pub open spec fn all_header_lines(headers: Seq<(Seq<char>, Seq<char>)>) -> Seq<char> {
    header_lines(headers, headers.len()) + (if names_header(headers, "authorization"@) {
        Seq::empty()
    } else {
        " \\\n  -H \"Authorization: Bearer $(gcloud auth print-access-token)\""@
    }) + (if names_header(headers, "content-type"@) {
        Seq::empty()
    } else {
        " \\\n  -H \"Content-Type: application/json; charset=utf-8\""@
    })
}

/// The line of the command that gives the body, from the body in its
/// compact form and on several lines: an empty object on the line itself,
/// anything else from the next line on.
pub open spec fn data_line(compact: Seq<char>, pretty: Seq<char>) -> Seq<char> {
    if compact == "{}"@ {
        " \\\n  -d '"@ + pretty + "'"@
    } else {
        " \\\n  -d '"@ + ("\n"@ + pretty) + "'"@
    }
}

/// The command, from its parts.
pub open spec fn curl_text(
    verb: Seq<char>,
    headers: Seq<(Seq<char>, Seq<char>)>,
    data: Seq<char>,
    url: Seq<char>,
) -> Seq<char> {
    "curl -X "@ + verb + all_header_lines(headers) + data + (" \\\n  \""@ + url + "\""@)
}

/// The line of the command that gives the body, from the body as it came;
/// nothing where no body came, and `None` where it is no JSON.
pub open spec fn body_line(body: Option<Seq<char>>) -> Option<Seq<char>> {
    match body {
        Some(text) => match json_compact(text) {
            Some(compact) => match json_pretty(compact) {
                Some(pretty) => Some(data_line(compact, pretty)),
                None => None,
            },
            None => None,
        },
        None => Some(Seq::empty()),
    }
}

/// Writes the line that gives the body.
pub fn write_data_line(compact: &str, pretty: &str) -> (r: String)
    ensures
        r@ == data_line(compact@, pretty@),
{
    let mut r = " \\\n  -d '".to_owned();
    if !same(compact, "{}") {
        r.append("\n");
    }
    r.append(pretty);
    r.append("'");
    assert(r@ =~= data_line(compact@, pretty@));
    r
}

fn write_headers(headers: &Option<Vec<(String, String)>>) -> (r: String)
    ensures
        r@ == all_header_lines(given(*headers)),
{
    let mut out = String::new();
    let mut has_authorization = false;
    let mut has_content_type = false;
    match headers {
        Some(hs) => {
            let ghost all = hs.deep_view();
            let mut i: usize = 0;
            while i < hs.len()
                invariant
                    i <= hs.len(),
                    all == hs.deep_view(),
                    out@ == header_lines(all, i as nat),
                    has_authorization == names_header(all.subrange(0, i as int), "authorization"@),
                    has_content_type == names_header(all.subrange(0, i as int), "content-type"@),
                decreases hs.len() - i,
            {
                let ghost had = out@;
                assert(all[i as int] == (hs@[i as int].0@, hs@[i as int].1@));
                out.append(" \\\n  -H \"");
                out.append(hs[i].0.as_str());
                out.append(": ");
                out.append(hs[i].1.as_str());
                out.append("\"");
                assert(out@ =~= had + header_line(all[i as int].0, all[i as int].1));
                let lowered = to_lowercase(hs[i].0.as_str());
                let ghost before = all.subrange(0, i as int);
                let ghost after = all.subrange(0, i + 1);
                proof {
                    assert(after[i as int] == all[i as int]);
                    assert forall|name: Seq<char>|
                        names_header(after, name) == (names_header(before, name) || lowered@
                            == name) by {
                        if names_header(before, name) {
                            let k = choose|k: int|
                                0 <= k < before.len() && lowercase(before[k].0) == name;
                            assert(after[k] == before[k]);
                        }
                        if names_header(after, name) {
                            let k = choose|k: int|
                                0 <= k < after.len() && lowercase(after[k].0) == name;
                            if k < i {
                                assert(before[k] == after[k]);
                            }
                        }
                    }
                }
                if same(lowered.as_str(), "authorization") {
                    has_authorization = true;
                }
                if same(lowered.as_str(), "content-type") {
                    has_content_type = true;
                }
                i += 1;
            }
            assert(all.subrange(0, hs.len() as int) =~= all);
        },
        None => {
            assert(!names_header(given(*headers), "authorization"@));
            assert(!names_header(given(*headers), "content-type"@));
        },
    }
    if !has_authorization {
        out.append(" \\\n  -H \"Authorization: Bearer $(gcloud auth print-access-token)\"");
    }
    if !has_content_type {
        out.append(" \\\n  -H \"Content-Type: application/json; charset=utf-8\"");
    }
    assert(out@ =~= all_header_lines(given(*headers)));
    out
}

/// Writes the `curl` command that sends the same request as the call of
/// `method` would. `body` is the body as it was given, or as the file that
/// was named holds it.
pub fn generate_curl(
    base_url: &String,
    method: &ZgMethod,
    args: &ExecArgs,
    autofill: &Autofill,
    body: Option<&str>,
) -> (r: Result<String, ExecError>)
    ensures
        match r {
            Ok(command) => curl_of(
                base_url@,
                method@,
                given(args.headers),
                given(args.params),
                autofill.project.deep_view(),
                autofill.region.deep_view(),
                autofill.zone.deep_view(),
                body.deep_view(),
            ) == Ok::<Seq<char>, ExecErrorView>(command@),
            Err(e) => curl_of(
                base_url@,
                method@,
                given(args.headers),
                given(args.params),
                autofill.project.deep_view(),
                autofill.region.deep_view(),
                autofill.zone.deep_view(),
                body.deep_view(),
            ) == Err::<Seq<char>, ExecErrorView>(e@),
        },
{
    let mut command = glue("curl -X ", method.http_method.as_str());
    let headers = write_headers(&args.headers);
    command.append(headers.as_str());
    let data = match body {
        Some(text) => {
            let compact = match compact_json(text) {
                Some(c) => c,
                None => {
                    return Err(ExecError::InvalidJson);
                },
            };
            let pretty = match pretty_json(compact.as_str()) {
                Some(p) => p,
                None => {
                    return Err(ExecError::InvalidJson);
                },
            };
            write_data_line(compact.as_str(), pretty.as_str())
        },
        None => String::new(),
    };
    command.append(data.as_str());
    let url = match build_url(base_url, method, &args.params, autofill) {
        Some(u) => u,
        None => {
            return Err(ExecError::InvalidUrl);
        },
    };
    command.append(" \\\n  \"");
    command.append(url.as_str());
    command.append("\"");
    assert(command@ =~= curl_text(method@.http_method, given(args.headers), data@, url@));
    Ok(command)
}

/// The command that sends the same request as a call of the method, or
/// why there is none.
pub open spec fn curl_of(
    base_url: Seq<char>,
    m: MethodView,
    headers: Seq<(Seq<char>, Seq<char>)>,
    params: Seq<(Seq<char>, Seq<char>)>,
    project: Option<Seq<char>>,
    region: Option<Seq<char>>,
    zone: Option<Seq<char>>,
    body: Option<Seq<char>>,
) -> Result<Seq<char>, ExecErrorView> {
    match body_line(body) {
        None => Err(ExecErrorView::InvalidJson),
        Some(data) => match call_url(base_url, m.flat_path, params, project, region, zone) {
            None => Err(ExecErrorView::InvalidUrl),
            Some(url) => Ok(curl_text(m.http_method, headers, data, url)),
        },
    }
}

/// A method with this verb sends a body.
pub open spec fn takes_body(http_method: Seq<char>) -> bool {
    http_method == "POST"@ || http_method == "PUT"@ || http_method == "PATCH"@
}

/// Whether a method with this verb sends a body.
pub fn sends_body(http_method: &str) -> (r: bool)
    ensures
        r == takes_body(http_method@),
{
    same(http_method, "POST") || same(http_method, "PUT") || same(http_method, "PATCH")
}

/// The request that a call of the method sends, or why there is none. A
/// method with the verb `GET` or `DELETE` sends no body. One with `POST`,
/// `PUT` or `PATCH` sends the body that was given, or an empty object, in
/// its compact form. No other verb is sent.
pub open spec fn request_of(
    base_url: Seq<char>,
    m: MethodView,
    params: Seq<(Seq<char>, Seq<char>)>,
    project: Option<Seq<char>>,
    region: Option<Seq<char>>,
    zone: Option<Seq<char>>,
    body: Option<Seq<char>>,
) -> Result<ActionView, ExecErrorView> {
    match call_url(base_url, m.flat_path, params, project, region, zone) {
        None => Err(ExecErrorView::InvalidUrl),
        Some(url) => if m.http_method == "GET"@ || m.http_method == "DELETE"@ {
            Ok(ActionView::Send(m.http_method, url, None))
        } else if takes_body(m.http_method) {
            match json_compact(
                match body {
                    Some(text) => text,
                    None => "{}"@,
                },
            ) {
                Some(compact) => Ok(ActionView::Send(m.http_method, url, Some(compact))),
                None => Err(ExecErrorView::InvalidJson),
            }
        } else {
            Err(ExecErrorView::UnsupportedMethod(m.name, m.http_method))
        },
    }
}

/// What is to be done for a call of a method of a service: the resource is
/// found, then its method; then either the command is made up that would
/// send the request, or the request itself.
pub open spec fn planned(
    a: ApiView,
    resource: Seq<char>,
    method: Seq<char>,
    equivalent_curl: bool,
    headers: Seq<(Seq<char>, Seq<char>)>,
    params: Seq<(Seq<char>, Seq<char>)>,
    project: Option<Seq<char>>,
    region: Option<Seq<char>>,
    zone: Option<Seq<char>>,
    body: Option<Seq<char>>,
) -> Result<ActionView, ExecErrorView> {
    match resolved(a.id, a.resources, resource) {
        Err(e) => Err(ExecErrorView::NotFound(e)),
        Ok(r) => match method_of(r, method) {
            Err(e) => Err(ExecErrorView::NotFound(e)),
            Ok(m) => if equivalent_curl {
                match curl_of(a.base_url, m, headers, params, project, region, zone, body) {
                    Ok(command) => Ok(ActionView::Show(command)),
                    Err(e) => Err(e),
                }
            } else {
                request_of(a.base_url, m, params, project, region, zone, body)
            },
        },
    }
}

/// Makes up the request that a call of the method sends.
pub fn plan_request(
    base_url: &String,
    method: &ZgMethod,
    params: &Option<Vec<(String, String)>>,
    autofill: &Autofill,
    body: Option<&str>,
) -> (r: Result<Action, ExecError>)
    ensures
        match r {
            Ok(action) => request_of(
                base_url@,
                method@,
                given(*params),
                autofill.project.deep_view(),
                autofill.region.deep_view(),
                autofill.zone.deep_view(),
                body.deep_view(),
            ) == Ok::<ActionView, ExecErrorView>(action@),
            Err(e) => request_of(
                base_url@,
                method@,
                given(*params),
                autofill.project.deep_view(),
                autofill.region.deep_view(),
                autofill.zone.deep_view(),
                body.deep_view(),
            ) == Err::<ActionView, ExecErrorView>(e@),
        },
{
    let url = match build_url(base_url, method, params, autofill) {
        Some(u) => u,
        None => {
            return Err(ExecError::InvalidUrl);
        },
    };
    let verb = method.http_method.as_str();
    if same(verb, "GET") || same(verb, "DELETE") {
        Ok(Action::Send(method.http_method.clone(), url, None))
    } else if sends_body(verb) {
        let text = match body {
            Some(t) => t,
            None => "{}",
        };
        match prepare_json_string(text) {
            Ok(compact) => Ok(Action::Send(method.http_method.clone(), url, Some(compact))),
            Err(e) => Err(ExecError::InvalidJson),
        }
    } else {
        Err(ExecError::UnsupportedMethod(method.name.clone(), method.http_method.clone()))
    }
}

/// Decides what is to be done for a call. `body` is the body as it was
/// given, or as the file that was named holds it; `autofill` holds the
/// values that stand in for project, region and zone.
pub fn plan(api: &ZgApi, args: &ExecArgs, autofill: &Autofill, body: Option<&str>) -> (r: Result<
    Action,
    ExecError,
>)
    ensures
        match r {
            Ok(action) => planned(
                api@,
                args.resource@,
                args.method@,
                args.equivalent_curl,
                given(args.headers),
                given(args.params),
                autofill.project.deep_view(),
                autofill.region.deep_view(),
                autofill.zone.deep_view(),
                body.deep_view(),
            ) == Ok::<ActionView, ExecErrorView>(action@),
            Err(e) => planned(
                api@,
                args.resource@,
                args.method@,
                args.equivalent_curl,
                given(args.headers),
                given(args.params),
                autofill.project.deep_view(),
                autofill.region.deep_view(),
                autofill.zone.deep_view(),
                body.deep_view(),
            ) == Err::<ActionView, ExecErrorView>(e@),
        },
{
    let resource = match find_resource(api.id.as_str(), &api.resources, args.resource.as_str()) {
        Ok(r) => r,
        Err(e) => {
            return Err(ExecError::NotFound(e));
        },
    };
    let method = match find_method(resource, args.method.as_str()) {
        Ok(m) => m,
        Err(e) => {
            return Err(ExecError::NotFound(e));
        },
    };
    if args.equivalent_curl {
        match generate_curl(&api.base_url, &method, args, autofill, body) {
            Ok(command) => Ok(Action::Show(command)),
            Err(e) => Err(e),
        }
    } else {
        plan_request(&api.base_url, &method, &args.params, autofill, body)
    }
}

} // verus!
