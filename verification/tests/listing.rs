use zygen::api::{ZgApi, ZgError, ZgMethod, ZgResource};
use zygen::list::{
    add_resource_rows, list_methods, list_services, resource_table, show_methods,
    sort_resources_table, write_service_line, ListArgs, Listing, ResourceRow,
};
use zygen::sorting::{reversed, sorted_order};
use zygen::supported_apis::SupportedApi;

fn setup_resources() -> Vec<ZgResource> {
    vec![ZgResource {
        name: "projects".to_string(),
        parent_path: None,
        path: Some("container.projects".to_string()),
        methods: vec![],
        resources: Some(vec![
            ZgResource {
                name: "zones".to_string(),
                parent_path: Some("container.projects".to_string()),
                path: Some("container.projects.zones".to_string()),
                methods: vec![],
                resources: Some(vec![ZgResource {
                    name: "clusters".to_string(),
                    parent_path: Some("container.projects.zones".to_string()),
                    path: Some("container.projects.zones.clusters".to_string()),
                    ..ZgResource::testdata()
                }]),
            },
            ZgResource {
                name: "locations".to_string(),
                parent_path: Some("container.projects".to_string()),
                path: Some("container.projects.locations".to_string()),
                methods: vec![],
                resources: Some(vec![ZgResource {
                    name: "clusters".to_string(),
                    parent_path: Some("container.projects.locations".to_string()),
                    path: Some("container.projects.locations.clusters".to_string()),
                    ..ZgResource::testdata()
                }]),
            },
        ]),
    }]
}

fn row(name: &str, depth: usize, path: &str, method_count: usize, method_names: &str) -> ResourceRow {
    ResourceRow {
        name: name.to_string(),
        highlighted: false,
        depth,
        path: path.to_string(),
        method_count,
        method_names: method_names.to_string(),
    }
}

fn lines(listing: Listing) -> String {
    match listing {
        Listing::Lines(text) => text,
        Listing::Table(rows) => panic!("a table: {:?}", rows),
    }
}

fn table(listing: Listing) -> Vec<(String, Vec<String>)> {
    match listing {
        Listing::Table(rows) => rows,
        Listing::Lines(text) => panic!("lines: {:?}", text),
    }
}

fn method(name: &str, verb: &str, flat_path: &str) -> ZgMethod {
    ZgMethod {
        name: name.to_string(),
        http_method: verb.to_string(),
        flat_path: flat_path.to_string(),
        ..ZgMethod::testdata()
    }
}

#[test]
fn test_list_services() {
    let output = lines(list_services(&ListArgs {
        ..Default::default()
    }));

    let expected_services = vec!["compute", "storage", "container"]; // these services are in the catalog
    for service in expected_services {
        assert!(
            output.contains(service),
            "Expected service '{}' not found in output: {}",
            service,
            output
        );
    }
}

#[test]
fn test_add_resource_rows() {
    let mut table: Vec<ResourceRow> = Vec::new();
    let resources = vec![ZgResource {
        name: "projects".to_string(),
        ..ZgResource::testdata()
    }];
    let args = ListArgs {
        long: true,
        ..Default::default()
    };

    add_resource_rows(&mut table, &resources, &args, &vec![]);

    assert_eq!(table.len(), 1);
    assert_eq!(table[0].name, "projects");
}

#[test]
fn test_sort_resources_table() {
    let table = vec![
        row("projects", 0, "compute.projects", 0, ""),
        row("zones", 1, "compute.projects.zones", 2, "get, list"),
        row(
            "instances",
            2,
            "compute.projects.zones.instances",
            48,
            "get, list, stop, reset, start, ...",
        ),
    ];

    let name_sorted_table = sort_resources_table(&table, "name", false);

    assert_eq!(name_sorted_table[0].name, "instances");
    assert_eq!(name_sorted_table[2].name, "zones");

    let depth_reverse_sorted_table = sort_resources_table(&table, "depth", true);

    assert_eq!(depth_reverse_sorted_table[0].name, "instances");
    assert_eq!(depth_reverse_sorted_table[2].name, "projects");
}

#[test]
fn test_list_methods_empty() {
    let top_resources = setup_resources();

    // 'projects' resource has no methods
    let output = lines(
        list_methods(
            &ZgApi {
                id: "container:v1".to_string(),
                resources: top_resources,
                ..ZgApi::testdata()
            },
            "projects",
            &ListArgs {
                service: Some("container".to_string()),
                resource: Some("projects".to_string()),
                sort: Some("path".to_string()),
                ..Default::default()
            },
        )
        .expect("list_methods failed"),
    );

    assert!(
        output.contains(""),
        "Expected '' (blank) output, but got: {}",
        output
    );
    assert_eq!(output, "");
}

#[test]
fn services_are_listed_by_name() {
    let output = lines(list_services(&ListArgs::default()));
    let names: Vec<&str> = output.lines().collect();
    assert_eq!(names.len(), 91);
    assert!(output.ends_with("workstations\n"));
    assert_eq!(names[0], "accessapproval");
    let mut sorted = names.clone();
    sorted.sort();
    assert_eq!(names, sorted);
    assert!(names.contains(&"generativelanguage"));
    let all = lines(list_services(&ListArgs {
        all: true,
        reverse: true,
        ..Default::default()
    }));
    let names: Vec<&str> = all.lines().collect();
    assert_eq!(names.len(), 156);
    assert_eq!(names[0], "workstations");
    assert_eq!(names[155], "accessapproval");
}

#[test]
fn services_are_shown_with_aliases_and_category() {
    let api = SupportedApi::new("container", "Google Kubernetes Engine", "Compute")
        .alias("gke")
        .alias("k8s")
        .version("v1");
    assert_eq!(write_service_line(&api, false, false), "container");
    assert_eq!(write_service_line(&api, true, false), "container (gke, k8s)");
    assert_eq!(
        write_service_line(&api, false, true),
        "[Compute] Google Kubernetes Engine - container"
    );
    assert_eq!(
        write_service_line(&api, true, true),
        "[Compute] Google Kubernetes Engine - container (gke, k8s)"
    );
    let bare = SupportedApi::new("batch", "Batch", "Compute").version("v1");
    assert_eq!(write_service_line(&bare, true, false), "batch");
    let by_category = lines(list_services(&ListArgs {
        category: true,
        sort: Some("category".to_string()),
        ..Default::default()
    }));
    assert!(by_category.starts_with("[AI/ML] Vertex AI - aiplatform\n[AI/ML] "));
}

#[test]
fn services_are_laid_out_in_a_table() {
    let rows = table(list_services(&ListArgs {
        long: true,
        sort: Some("title".to_string()),
        ..Default::default()
    }));
    assert_eq!(rows.len(), 91);
    assert_eq!(
        rows[0],
        (
            String::new(),
            vec![
                "apigateway".to_string(),
                "API Gateway".to_string(),
                "Serverless".to_string(),
                "api-gateway".to_string(),
                "v1beta, v1".to_string(),
                "v1beta".to_string(),
            ]
        )
    );
    let by_versions = table(list_services(&ListArgs {
        long: true,
        sort: Some("versions".to_string()),
        ..Default::default()
    }));
    // one version `v1` comes before `v1` followed by others
    let first_with_more = by_versions
        .iter()
        .position(|r| r.1[4].starts_with("v1, "))
        .unwrap();
    let last_alone = by_versions.iter().rposition(|r| r.1[4] == "v1").unwrap();
    assert!(last_alone < first_with_more);
}

#[test]
fn methods_are_listed_by_path_then_verb() {
    let a = method("get", "GET", "v1/things/{id}");
    let b = method("delete", "DELETE", "v1/things/{id}");
    let c = method("list", "GET", "v1/things");
    let d = method("create", "POST", "v1/things");
    let all = vec![&a, &b, &c, &d];
    assert_eq!(
        lines(show_methods(&all, "path", false, false, false)),
        "list\ncreate\ndelete\nget\n"
    );
    assert_eq!(
        lines(show_methods(&all, "whatever", true, false, false)),
        "get\ndelete\ncreate\nlist\n"
    );
    assert_eq!(
        lines(show_methods(&all, "name", false, false, false)),
        "create\ndelete\nget\nlist\n"
    );
    assert_eq!(
        lines(show_methods(&all, "http", false, false, false)),
        "delete\nlist\nget\ncreate\n"
    );
    let rows = table(show_methods(&all, "http_method", true, true, true));
    assert_eq!(
        rows,
        vec![
            (
                "Fg".to_string(),
                vec!["create".to_string(), "POST".to_string(), "v1/things".to_string()]
            ),
            (
                String::new(),
                vec!["get".to_string(), "GET".to_string(), "v1/things/{id}".to_string()]
            ),
            (
                String::new(),
                vec!["list".to_string(), "GET".to_string(), "v1/things".to_string()]
            ),
            (
                "Fr".to_string(),
                vec![
                    "delete".to_string(),
                    "DELETE".to_string(),
                    "v1/things/{id}".to_string()
                ]
            ),
        ]
    );
    let plain = table(show_methods(&all, "name", false, true, false));
    assert!(plain.iter().all(|r| r.0.is_empty()));
    let put = method("update", "PUT", "x");
    let patch = method("patch", "PATCH", "x");
    let rows = table(show_methods(&vec![&put, &patch], "name", false, true, true));
    assert_eq!(rows[0].0, "Fb");
    assert_eq!(rows[1].0, "Fb");
}

#[test]
fn one_method_may_be_asked_for() {
    let api = ZgApi {
        id: "svc:v1".to_string(),
        resources: vec![ZgResource {
            name: "things".to_string(),
            path: Some("svc.things".to_string()),
            methods: vec![
                method("get", "GET", "v1/things/{id}"),
                method("list", "GET", "v1/things"),
            ],
            ..ZgResource::testdata()
        }],
        ..ZgApi::testdata()
    };
    let only = ListArgs {
        method: Some("get".to_string()),
        ..Default::default()
    };
    assert_eq!(lines(list_methods(&api, "things", &only).unwrap()), "get\n");
    assert_eq!(
        lines(list_methods(&api, "things", &ListArgs::default()).unwrap()),
        "list\nget\n"
    );
    let missing = ListArgs {
        method: Some("put".to_string()),
        ..Default::default()
    };
    match list_methods(&api, "things", &missing) {
        Err(ZgError::MethodNotFound(resource, method)) => {
            assert_eq!(resource, "things");
            assert_eq!(method, "put");
        }
        other => panic!("unexpected result: {:?}", other),
    }
    assert!(matches!(
        list_methods(&api, "other", &ListArgs::default()),
        Err(ZgError::ResourceNotFound(_))
    ));
}

#[test]
fn resources_are_laid_out_in_a_table() {
    let mut resources = setup_resources();
    resources[0].methods = vec![
        method("testIamPermissions", "POST", "a"),
        method("get", "GET", "b"),
        method("list", "GET", "c"),
        method("set", "PUT", "d"),
        method("patch", "PATCH", "e"),
        method("delete", "DELETE", "f"),
        method("add", "POST", "g"),
    ];
    let api = ZgApi {
        id: "container:v1".to_string(),
        resources,
        ..ZgApi::testdata()
    };
    let plain = resource_table(&api, &ListArgs { long: true, ..Default::default() });
    let names: Vec<&str> = plain.iter().map(|r| r.name.as_str()).collect();
    assert_eq!(names, vec!["projects", "zones", "clusters", "locations", "clusters"]);
    assert_eq!(plain[0].depth, 0);
    assert_eq!(plain[0].path, "container.projects");
    assert_eq!(plain[0].method_count, 7);
    assert_eq!(plain[0].method_names, "add, get, set, list, patch, ...");
    assert_eq!(plain[1].depth, 1);
    assert_eq!(plain[2].depth, 2);
    assert_eq!(plain[2].method_names, "list");
    assert!(plain.iter().all(|r| !r.highlighted));
    let all = resource_table(
        &api,
        &ListArgs { long: true, all: true, color: true, ..Default::default() },
    );
    assert_eq!(
        all[0].method_names,
        "add, get, set, list, patch, delete, testIamPermissions"
    );
    let highlighted: Vec<bool> = all.iter().map(|r| r.highlighted).collect();
    assert_eq!(highlighted, vec![false, false, true, false, true]);
    let sorted = resource_table(
        &api,
        &ListArgs { long: true, sort: Some("path".to_string()), reverse: true, ..Default::default() },
    );
    let paths: Vec<&str> = sorted.iter().map(|r| r.path.as_str()).collect();
    assert_eq!(
        paths,
        vec![
            "container.projects.zones.clusters",
            "container.projects.zones",
            "container.projects.locations.clusters",
            "container.projects.locations",
            "container.projects",
        ]
    );
    let by_methods = resource_table(
        &api,
        &ListArgs { long: true, sort: Some("methods".to_string()), ..Default::default() },
    );
    let counts: Vec<usize> = by_methods.iter().map(|r| r.method_count).collect();
    assert_eq!(counts, vec![0, 0, 1, 1, 7]);
    assert_eq!(by_methods[0].name, "locations");
    // a resource without path lies at the top
    let bare = vec![ZgResource { path: None, ..ZgResource::testdata() }];
    let mut rows = Vec::new();
    add_resource_rows(&mut rows, &bare, &ListArgs::default(), &vec![]);
    assert_eq!(rows[0].depth, 0);
    assert_eq!(rows[0].path, "");
}

#[test]
fn sorting_is_stable_in_both_directions() {
    let key = |w: &str, n: usize, m: &str| (vec![w.to_string()], n, vec![m.to_string()]);
    let keys = vec![
        key("b", 1, "x"),
        key("a", 2, "x"),
        key("b", 1, "x"),
        key("a", 1, "y"),
        key("a", 1, "x"),
        key("ab", 0, ""),
        key("B", 9, ""),
    ];
    assert_eq!(sorted_order(&keys, false), vec![6, 4, 3, 1, 5, 0, 2]);
    assert_eq!(sorted_order(&keys, true), vec![0, 2, 5, 1, 3, 4, 6]);
    assert_eq!(reversed(&vec![3, 1, 2]), vec![2, 1, 3]);
    assert_eq!(sorted_order(&Vec::new(), false), Vec::<usize>::new());
    let lists = vec![
        (vec!["v1".to_string(), "v2".to_string()], 0, vec![]),
        (vec!["v1".to_string()], 0, vec![]),
        (vec![], 0, vec![]),
    ];
    assert_eq!(sorted_order(&lists, false), vec![2, 1, 0]);
}
