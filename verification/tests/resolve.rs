use zygen::api::{
    find_method, find_resource, is_ambiguous, select_resource, ZgError, ZgMethod, ZgResource,
};
use zygen::flavors::core_flavors::{
    select_resource_container, select_resource_dataflow, select_resource_spanner,
};

fn named(name: &str, path: &str) -> ZgResource {
    ZgResource {
        name: name.to_string(),
        path: Some(path.to_string()),
        ..ZgResource::testdata()
    }
}

#[test]
fn test_find_resource_clusters() {
    let top_resources = vec![ZgResource {
        name: "clusters".to_string(),
        path: Some("container.projects.locations.clusters".to_string()),
        ..ZgResource::testdata()
    }];
    let result = find_resource("container", &top_resources, "clusters");
    assert!(result.is_ok(), "Expected to find a 'clusters' resource");
    assert_eq!(result.unwrap().name, "clusters");
}

#[test]
fn test_find_resource_locations_clusters() {
    let top_resources = vec![ZgResource {
        name: "clusters".to_string(),
        path: Some("container.projects.locations.clusters".to_string()),
        ..ZgResource::testdata()
    }];
    let result = find_resource("container", &top_resources, "locations.clusters");
    assert!(
        result.is_ok(),
        "Expected to find a 'locations.clusters' resource"
    );
    assert_eq!(result.unwrap().name, "clusters");
}

#[test]
fn test_select_resource_single_match() {
    let top_resources = [ZgResource {
        name: "projects".to_string(),
        path: Some("container.projects".to_string()),
        ..ZgResource::testdata()
    }];
    let found = vec![&top_resources[0]];
    let result = select_resource("any_api_id", "unused_resource_path", found);
    assert!(result.is_some());
    assert_eq!(result.unwrap().name, "projects");
}

#[test]
fn test_select_resource_multiple_matches_default() {
    let top_resources = [ZgResource {
        name: "projects".to_string(),
        path: Some("container.projects".to_string()),
        ..ZgResource::testdata()
    }];
    let found = vec![&top_resources[0], &top_resources[0]];
    let result = select_resource("any_api_id", "unused_resource_path", found);
    assert!(result.is_some());
    assert_eq!(result.unwrap().name, "projects");
}

#[test]
fn test_select_resource_container_v1() {
    let top_resources = vec![
        ZgResource {
            name: "clusters".to_string(),
            path: Some("container.projects.locations.clusters".to_string()),
            ..ZgResource::testdata()
        },
        ZgResource {
            name: "clusters".to_string(),
            path: Some("container.projects.zones.clusters".to_string()),
            ..ZgResource::testdata()
        },
    ];
    let found = vec![
        find_resource("container", &top_resources, "locations.clusters").unwrap(),
        find_resource("container", &top_resources, "zones.clusters").unwrap(),
    ];
    let result = select_resource("container:v1", "unused_resource_path", found);
    assert!(result.is_some());
    assert_eq!(
        result.unwrap().path,
        Some("container.projects.locations.clusters".to_string())
    ); // Should prioritize locations.clusters
}

#[test]
fn test_find_method_success() {
    let resource = ZgResource::testdata();
    let method_name = "list";
    let result = find_method(&resource, method_name);

    assert!(result.is_ok(), "Expected to find the method");
    let method = result.unwrap();
    assert_eq!(method.name, method_name);
}

#[test]
fn test_find_method_not_found() {
    let resource = ZgResource::testdata();
    let method_name = "nonexistent_method";
    let result = find_method(&resource, method_name);

    assert!(result.is_err(), "Expected an error");
}

#[test]
fn test_select_resource_container() {
    let res1 = ZgResource {
        path: Some("container.projects.locations.clusters".to_string()),
        ..ZgResource::testdata()
    };
    let res2 = ZgResource {
        path: Some("container.projects.zones.clusters".to_string()),
        ..ZgResource::testdata()
    };

    let selected = select_resource_container(vec![&res1, &res2]);
    assert_eq!(
        selected.unwrap().path.as_deref(),
        Some("container.projects.locations.clusters")
    );
}

#[test]
fn test_select_resource_dataflow() {
    let resource_path = "templates";

    let res1 = ZgResource {
        path: Some("dataflow.projects.locations.templates".to_string()),
        ..ZgResource::testdata()
    };
    let res2 = ZgResource {
        path: Some("dataflow.projects.templates".to_string()),
        ..ZgResource::testdata()
    };

    let selected = select_resource_dataflow(resource_path, vec![&res1, &res2]);
    assert_eq!(
        selected.unwrap().path.as_deref(),
        Some("dataflow.projects.locations.templates")
    );
}

#[test]
fn test_select_resource_spanner() {
    let op1 = ZgResource {
        path: Some("spanner.projects.instances.operations".to_string()),
        ..ZgResource::testdata()
    };
    let op2 = ZgResource {
        path: Some("spanner.projects.instances.databases.operations".to_string()),
        ..ZgResource::testdata()
    };

    let selected = select_resource_spanner(vec![&op1, &op2]);
    assert_eq!(
        selected.unwrap().path.as_deref(),
        Some("spanner.projects.instances.operations")
    );
}

#[test]
fn find_resource_prefers_regional_clusters() {
    let tree = vec![
        named("clusters", "container.projects.zones.clusters"),
        named("clusters", "container.projects.locations.clusters"),
    ];
    let found = find_resource("container:v1", &tree, "clusters").unwrap();
    assert_eq!(
        found.path.as_deref(),
        Some("container.projects.locations.clusters")
    );
}

#[test]
fn find_resource_reports_a_missing_path() {
    let tree = vec![named("clusters", "container.projects.locations.clusters")];
    match find_resource("container:v1", &tree, "nonexistent") {
        Err(ZgError::ResourceNotFound(path)) => assert_eq!(path, "nonexistent"),
        other => panic!("unexpected result: {:?}", other),
    }
    let empty: Vec<ZgResource> = Vec::new();
    assert!(matches!(
        find_resource("any:v1", &empty, "nonexistent"),
        Err(ZgError::ResourceNotFound(_))
    ));
}

#[test]
fn find_resource_matches_at_label_boundaries_only() {
    let tree = vec![
        named("zclusters", "svc.projects.zclusters"),
        named("clusters", "svc.projects.clusters"),
        named("other", "svc.projects.other"),
    ];
    let found = find_resource("svc:v1", &tree, "clusters").unwrap();
    assert_eq!(found.path.as_deref(), Some("svc.projects.clusters"));
    assert!(find_resource("svc:v1", &tree, "lusters").is_err());
    assert!(find_resource("svc:v1", &tree, "ojects.other").is_err());
    let whole = find_resource("svc:v1", &tree, "svc.projects.other").unwrap();
    assert_eq!(whole.name, "other");
}

#[test]
fn find_resource_returns_the_resource_of_a_full_path() {
    let tree = vec![ZgResource {
        name: "projects".to_string(),
        parent_path: None,
        path: Some("svc.projects".to_string()),
        methods: vec![],
        resources: Some(vec![
            named("jobs", "svc.projects.jobs"),
            named("tables", "svc.projects.tables"),
        ]),
    }];
    let found = find_resource("svc:v1", &tree, "svc.projects.jobs").unwrap();
    assert_eq!(found.name, "jobs");
    let by_suffix = find_resource("svc:v1", &tree, "projects.tables").unwrap();
    assert_eq!(by_suffix.path.as_deref(), Some("svc.projects.tables"));
    let root = find_resource("svc:v1", &tree, "projects").unwrap();
    assert_eq!(root.path.as_deref(), Some("svc.projects"));
}

#[test]
fn find_resource_takes_the_last_candidate_without_a_strategy() {
    let tree = vec![
        named("operations", "iam.projects.locations.operations"),
        named("operations", "iam.projects.operations"),
    ];
    let found = find_resource("iam:v1", &tree, "operations").unwrap();
    assert_eq!(found.path.as_deref(), Some("iam.projects.operations"));
    assert!(zygen::api::lacks_strategy("iam:v1"));
    assert!(!zygen::api::lacks_strategy("spanner:v1"));
}

#[test]
fn strategies_fall_back_when_nothing_is_preferred() {
    let a = named("x", "svc.a.x");
    let b = named("x", "svc.b.x");
    assert_eq!(
        select_resource_container(vec![&a, &b]).unwrap().path.as_deref(),
        Some("svc.a.x")
    );
    assert_eq!(
        select_resource_spanner(vec![&a, &b]).unwrap().path.as_deref(),
        Some("svc.b.x")
    );
    assert_eq!(
        select_resource_dataflow("snapshots", vec![&a, &b])
            .unwrap()
            .path
            .as_deref(),
        Some("svc.b.x")
    );
    assert!(select_resource_spanner(vec![]).is_none());
    let snap1 = named("snapshots", "dataflow.projects.locations.jobs.snapshots");
    let snap2 = named("snapshots", "dataflow.projects.locations.snapshots");
    let snap3 = named("snapshots", "dataflow.projects.snapshots");
    assert_eq!(
        select_resource_dataflow("snapshots", vec![&snap1, &snap2, &snap3])
            .unwrap()
            .path
            .as_deref(),
        Some("dataflow.projects.locations.snapshots")
    );
}

#[test]
fn find_method_names_what_is_missing() {
    let resource = ZgResource::testdata();
    match find_method(&resource, "lis") {
        Err(ZgError::MethodNotFound(resource_name, method_name)) => {
            assert_eq!(resource_name, "testres");
            assert_eq!(method_name, "lis");
        }
        other => panic!("unexpected result: {:?}", other),
    }
    let found: ZgMethod = find_method(&resource, "list").unwrap();
    assert_eq!(found.id, "testapi.projects.testres.list");
}

#[test]
fn several_candidates_make_a_path_ambiguous() {
    let tree = vec![
        named("operations", "iam.projects.locations.operations"),
        named("operations", "iam.projects.operations"),
        named("roles", "iam.projects.roles"),
    ];
    assert!(is_ambiguous(&tree, "operations"));
    assert!(!is_ambiguous(&tree, "locations.operations"));
    assert!(!is_ambiguous(&tree, "roles"));
    assert!(!is_ambiguous(&tree, "nothing"));
}

#[test]
fn paths_are_collected_in_depth_first_order() {
    let api = zygen::api::ZgApi {
        resources: vec![
            ZgResource {
                resources: Some(vec![
                    named("jobs", "svc.projects.jobs"),
                    ZgResource { path: None, ..named("ghost", "") },
                    named("tables", "svc.projects.tables"),
                ]),
                ..named("projects", "svc.projects")
            },
            named("jobs", "svc.jobs"),
            named("tables", "svc.tables"),
            named("jobs", "svc.other.jobs"),
        ],
        ..zygen::api::ZgApi::testdata()
    };
    let pair = |a: &str, b: &str| (a.to_string(), b.to_string());
    assert_eq!(
        api.all_resource_paths(),
        vec![
            pair("projects", "svc.projects"),
            pair("jobs", "svc.projects.jobs"),
            pair("tables", "svc.projects.tables"),
            pair("jobs", "svc.jobs"),
            pair("tables", "svc.tables"),
            pair("jobs", "svc.other.jobs"),
        ]
    );
    assert_eq!(
        api.duplicated_resources(),
        vec![
            (
                "jobs".to_string(),
                vec![
                    "svc.projects.jobs".to_string(),
                    "svc.jobs".to_string(),
                    "svc.other.jobs".to_string()
                ]
            ),
            (
                "tables".to_string(),
                vec!["svc.projects.tables".to_string(), "svc.tables".to_string()]
            ),
        ]
    );
}
