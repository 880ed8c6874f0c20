use zygen::api::{ZgApi, ZgError, ZgMethod, ZgResource};
use zygen::discovery::{ApiDescription, Method, Parameter, Resource, Schema};
use zygen::update::{
    build_parent_resources, collect_query_params, convert_method, convert_resource, extract_api,
    insert_child_resource, is_marked_required, is_valid_flat_path, needs_rebuild,
    rebuild_hierarchy, segments, update_resource_paths,
};

fn strings(items: &[&str]) -> Vec<String> {
    items.iter().map(|s| s.to_string()).collect()
}

fn method(id: &str, name: &str, verb: &str, flat_path: &str) -> ZgMethod {
    ZgMethod {
        id: id.to_string(),
        name: name.to_string(),
        http_method: verb.to_string(),
        flat_path: flat_path.to_string(),
        ..ZgMethod::testdata()
    }
}

fn flat(name: &str, methods: Vec<ZgMethod>) -> ZgResource {
    ZgResource {
        name: name.to_string(),
        parent_path: None,
        path: None,
        methods,
        resources: None,
    }
}

fn raw_method(id: &str, flat_path: Option<&str>, path: &str, verb: &str) -> Method {
    Method {
        description: String::new(),
        flat_path: flat_path.map(|s| s.to_string()),
        http_method: verb.to_string(),
        id: id.to_string(),
        parameter_order: None,
        parameters: None,
        path: path.to_string(),
        request: None,
        response: None,
        scopes: None,
    }
}

fn description(id: &str, name: &str, resources: Vec<(String, Resource)>) -> ApiDescription {
    ApiDescription {
        kind: "discovery#restDescription".to_string(),
        id: id.to_string(),
        name: name.to_string(),
        version: "v1".to_string(),
        revision: "20241022".to_string(),
        canonical_name: None,
        description: String::new(),
        discovery_version: "v1".to_string(),
        base_url: "https://container.googleapis.com/".to_string(),
        base_path: None,
        documentation_link: String::new(),
        parameters: None,
        protocol: "rest".to_string(),
        resources: Some(resources),
        schemas: None,
    }
}

#[test]
fn test_extract_api_nested_resources() {
    let node_pools = Resource {
        methods: Some(vec![(
            "get".to_string(),
            raw_method(
                "container.projects.locations.clusters.nodePools.get",
                Some("v1/projects/{projectId}/locations/{location}/clusters/{clusterId}/nodePools/{nodePoolId}"),
                "v1/{+name}",
                "GET",
            ),
        )]),
        resources: None,
    };
    let clusters = Resource {
        methods: Some(vec![(
            "get".to_string(),
            raw_method(
                "container.projects.locations.clusters.get",
                Some("v1/projects/{projectId}/locations/{location}/clusters/{clusterId}"),
                "v1/{+name}",
                "GET",
            ),
        )]),
        resources: Some(vec![("nodePools".to_string(), node_pools)]),
    };
    let locations = Resource {
        methods: None,
        resources: Some(vec![("clusters".to_string(), clusters)]),
    };
    let projects = Resource {
        methods: None,
        resources: Some(vec![("locations".to_string(), locations)]),
    };
    let api: ZgApi = extract_api(description(
        "container:v1",
        "Container API",
        vec![("projects".to_string(), projects)],
    ))
    .unwrap();

    // Check that the API ID and name are parsed correctly
    assert_eq!(api.id, "container:v1");
    assert_eq!(api.name, "Container API");
    assert_eq!(api.base_url, "https://container.googleapis.com/");

    // Check that the top-level resource is parsed correctly
    assert_eq!(api.resources.len(), 1);
    assert_eq!(api.resources[0].name, "projects");

    // Check the nested resource (locations inside projects)
    let nested_resources = api.resources[0].resources.as_ref().unwrap();
    assert_eq!(nested_resources.len(), 1);
    assert_eq!(nested_resources[0].name, "locations");

    // Check deeper nested resource (clusters inside locations)
    let deeper_nested_resources = nested_resources[0].resources.as_ref().unwrap();
    assert_eq!(deeper_nested_resources.len(), 1);
    assert_eq!(deeper_nested_resources[0].name, "clusters");

    // Check the methods inside the clusters resource
    let methods = &deeper_nested_resources[0].methods;
    assert_eq!(methods.len(), 1);
    assert_eq!(methods[0].name, "get");
    assert_eq!(methods[0].http_method, "GET");
    assert_eq!(
        methods[0].flat_path,
        "v1/projects/{projectId}/locations/{location}/clusters/{clusterId}"
    );

    // Check the next level of nested resource (nodePools inside clusters)
    let node_pools_resources = deeper_nested_resources[0].resources.as_ref().unwrap();
    assert_eq!(node_pools_resources.len(), 1);
    assert_eq!(node_pools_resources[0].name, "nodePools");

    let node_pools_methods = &node_pools_resources[0].methods;
    assert_eq!(node_pools_methods.len(), 1);
    assert_eq!(node_pools_methods[0].name, "get");
    assert_eq!(node_pools_methods[0].http_method, "GET");
    assert_eq!(
        node_pools_methods[0].flat_path,
        "v1/projects/{projectId}/locations/{location}/clusters/{clusterId}/nodePools/{nodePoolId}"
    );
}

#[test]
fn test_convert_resource() {
    // a resource with methods and sub-resources (from container:v1 API)
    let mock_methods = Some(vec![(
        "list".to_string(),
        Method {
            description:
                "Lists all clusters owned by a project in either the specified zone or all zones."
                    .to_string(),
            flat_path: Some("v1/projects/{projectsId}/locations/{locationsId}/clusters".to_string()),
            http_method: "GET".to_string(),
            id: "container.projects.locations.clusters.list".to_string(),
            parameter_order: None,
            parameters: None,
            path: "v1/{+parent}/clusters".to_string(),
            request: None,
            response: None,
            scopes: None,
        },
    )]);

    let mock_sub_resources = Some(vec![(
        "nodePools".to_string(),
        Resource {
            methods: Some(vec![(
                "list".to_string(),
                Method {
                    description: "Lists the node pools for a cluster.".to_string(),
                    flat_path: Some(
                        "v1/projects/{projectsId}/locations/{locationsId}/clusters/{clustersId}/nodePools"
                            .to_string(),
                    ),
                    http_method: "GET".to_string(),
                    id: "container.projects.locations.clusters.nodePools.list".to_string(),
                    parameter_order: None,
                    parameters: None,
                    path: "v1/{+parent}/nodePools".to_string(),
                    request: None,
                    response: None,
                    scopes: None,
                },
            )]),
            resources: None,
        },
    )]);

    // Combine the methods and sub-resources into a resource
    let resource = Resource {
        methods: mock_methods,
        resources: mock_sub_resources,
    };

    // Convert the resource of the document into a resource of the tree
    let zg_resource = convert_resource(
        "container",
        "clusters".to_string(),
        resource,
        Some("container.projects.locations".to_string()),
        &Vec::new(),
    );

    // Assertions
    assert_eq!(zg_resource.name, "clusters");
    assert_eq!(
        zg_resource.path.unwrap(),
        "container.projects.locations.clusters"
    );
    assert_eq!(
        zg_resource.parent_path.unwrap(),
        "container.projects.locations"
    );

    assert_eq!(zg_resource.methods.len(), 1);
    assert_eq!(zg_resource.methods[0].name, "list");
    assert_eq!(
        zg_resource.methods[0].flat_path,
        "v1/projects/{projectsId}/locations/{locationsId}/clusters"
    );
    assert_eq!(zg_resource.methods[0].http_method, "GET");

    // Check sub-resources
    assert!(zg_resource.resources.is_some());
    let sub_resources = zg_resource.resources.as_ref().unwrap();
    assert_eq!(sub_resources.len(), 1);

    assert_eq!(sub_resources[0].name, "nodePools");
    assert_eq!(
        sub_resources[0].path.as_ref().unwrap(),
        "container.projects.locations.clusters.nodePools"
    );
    assert_eq!(
        sub_resources[0].parent_path.as_ref().unwrap(),
        "container.projects.locations.clusters"
    );

    assert_eq!(sub_resources[0].methods.len(), 1);
    assert_eq!(sub_resources[0].methods[0].name, "list");
    assert_eq!(
        sub_resources[0].methods[0].flat_path,
        "v1/projects/{projectsId}/locations/{locationsId}/clusters/{clustersId}/nodePools"
    );
    assert_eq!(sub_resources[0].methods[0].http_method, "GET");
}

#[test]
fn test_build_parent_resources() {
    let methods: Vec<ZgMethod> = vec![ZgMethod {
        id: "bigquery.datasets.list".to_string(),
        name: "list".to_string(),
        flat_path: "projects/{projectsId}/datasets".to_string(),
        ..ZgMethod::testdata()
    }];

    let parent_resources = build_parent_resources("bigquery", "v2", "datasets", &methods);
    assert_eq!(parent_resources, vec!["projects"]);

    let methods: Vec<ZgMethod> = vec![ZgMethod {
        id: "bigquery.projects.datasets.tables.rowAccessPolicies.list".to_string(),
        name: "list".to_string(),
        flat_path:
            "projects/{projectsId}/datasets/{datasetsId}/tables/{tablesId}/rowAccessPolicies"
                .to_string(),
        ..ZgMethod::testdata()
    }];

    let parent_resources =
        build_parent_resources("bigquery", "v2", "rowAccessPolicies", &methods);
    assert_eq!(parent_resources, vec!["projects", "datasets", "tables"]);
}

#[test]
fn test_update_resource_paths() {
    let mut api = ZgApi {
        id: "bigquery:v2".to_string(),
        name: "bigquery".to_string(),
        base_url: "https://bigquery.googleapis.com/bigquery/v2/".to_string(),
        resources: vec![
            ZgResource {
                name: "datasets".to_string(),
                parent_path: None,
                path: Some("bigquery.datasets".to_string()), // no "projects"
                methods: vec![ZgMethod {
                    name: "list".to_string(),
                    id: "bigquery.datasets.list".to_string(), // no "projects"
                    flat_path: "projects/{projectsId}/datasets".to_string(),
                    ..ZgMethod::testdata()
                }],
                resources: None, // no sub-resources
            },
            // bigquery:v2 API definition has all-flat (no nest) resources
            ZgResource {
                name: "tables".to_string(),
                parent_path: None, // looks like top-level
                path: Some("bigquery.tables".to_string()), // no "projects.datasets"
                methods: vec![ZgMethod {
                    name: "delete".to_string(),
                    id: "bigquery.tables.delete".to_string(), // no "projects.datasets"
                    http_method: "DELETE".to_string(),
                    flat_path: "projects/{projectsId}/datasets/{datasetsId}/tables/{tablesId}"
                        .to_string(),
                    ..ZgMethod::testdata()
                }],
                resources: None,
            },
        ],
        ..ZgApi::testdata()
    };

    let updated_api = update_resource_paths(&mut api);

    let datasets = &updated_api.resources[0];
    assert_eq!(
        datasets.path,
        Some("bigquery.projects.datasets".to_string())
    );
    assert_eq!(
        datasets.methods[0].id,
        "bigquery.projects.datasets.list".to_string()
    );

    let tables = &updated_api.resources[1]; // still flat, but path/parent_path/method.id are updated
    assert_eq!(
        tables.path,
        Some("bigquery.projects.datasets.tables".to_string())
    );
    assert_eq!(
        tables.methods[0].id,
        "bigquery.projects.datasets.tables.delete".to_string()
    );
}

#[test]
fn test_update_resource_paths_recursive() {
    let mut api = ZgApi {
        id: "sqladmin:v1".to_string(),
        name: "sqladmin".to_string(),
        base_url: "https://sqladmin.googleapis.com/".to_string(),
        resources: vec![ZgResource {
            name: "projects".to_string(),
            parent_path: None,
            path: None,
            methods: vec![],
            resources: Some(vec![ZgResource {
                name: "instances".to_string(),
                parent_path: None,
                path: None,
                methods: vec![ZgMethod {
                    id: "sql.projects.instances.getDiskShrinkConfig".to_string(),
                    name: "getDiskShrinkConfig".to_string(),
                    flat_path: "v1/projects/{project}/instances/{instance}/getDiskShrinkConfig"
                        .to_string(),
                    ..ZgMethod::testdata()
                }],
                resources: None,
            }]),
        }],
        ..ZgApi::testdata()
    };

    // Call the function to update resource paths
    let updated_api = update_resource_paths(&mut api);

    // Assert the top-level 'projects' resource
    let projects = &updated_api.resources[0];
    assert_eq!(projects.name, "projects");
    assert_eq!(projects.path.as_ref().unwrap(), "sqladmin.projects");
    assert_eq!(projects.parent_path, None);

    // Assert the 'instances' sub-resource under 'projects'
    let instances = &projects.resources.as_ref().unwrap()[0];
    assert_eq!(instances.name, "instances");
    assert_eq!(
        instances.path.as_ref().unwrap(),
        "sqladmin.projects.instances"
    );
    assert_eq!(instances.parent_path.as_ref().unwrap(), "sqladmin.projects");

    // Assert the method under 'instances'
    assert_eq!(instances.methods[0].name, "getDiskShrinkConfig");
    assert_eq!(
        instances.methods[0].id,
        "sqladmin.projects.instances.getDiskShrinkConfig"
    );
    assert_eq!(instances.methods[0].http_method, "GET");
    assert_eq!(
        instances.methods[0].flat_path,
        "v1/projects/{project}/instances/{instance}/getDiskShrinkConfig"
    );
}

#[test]
fn test_insert_child_resource() {
    // Create a mock parent resource
    let parent_resource = ZgResource {
        name: "parent".to_string(),
        path: Some("parent_path".to_string()),
        methods: vec![],
        resources: Some(vec![]),
        parent_path: None,
    };

    // Create a mock child resource
    let child_resource = ZgResource {
        name: "child".to_string(),
        path: Some("parent_path.child_path".to_string()),
        methods: vec![],
        resources: None,
        parent_path: Some("parent_path".to_string()),
    };

    let mut resources = vec![parent_resource];
    let inserted = insert_child_resource(&mut resources, &child_resource);

    assert!(inserted); // The child resource should be inserted successfully
    assert_eq!(resources[0].resources.as_ref().unwrap().len(), 1);
    assert_eq!(resources[0].resources.as_ref().unwrap()[0].name, "child");
    assert_eq!(
        resources[0].resources.as_ref().unwrap()[0].path,
        Some("parent_path.child_path".to_string())
    );
}

#[test]
fn test_insert_child_resource_nested() {
    // Create a mock grandparent resource
    let mut grandparent_resource = ZgResource {
        name: "grandparent".to_string(),
        path: Some("grandparent_path".to_string()),
        methods: vec![],
        resources: Some(vec![]),
        parent_path: None,
    };

    // Create a mock parent resource
    let parent_resource = ZgResource {
        name: "parent".to_string(),
        path: Some("grandparent_path.parent_path".to_string()),
        methods: vec![],
        resources: Some(vec![]),
        parent_path: Some("grandparent_path".to_string()),
    };

    // Add the parent resource to the grandparent resource
    grandparent_resource
        .resources
        .as_mut()
        .unwrap()
        .push(parent_resource);

    // Create a mock child resource
    let child_resource = ZgResource {
        name: "child".to_string(),
        path: Some("grandparent_path.parent_path.child_path".to_string()),
        methods: vec![],
        resources: None,
        parent_path: Some("grandparent_path.parent_path".to_string()),
    };

    let mut resources = vec![grandparent_resource];
    let inserted = insert_child_resource(&mut resources, &child_resource);
    assert!(inserted); // The child resource should be inserted successfully
    let parent_resources = &resources[0].resources.as_ref().unwrap();
    assert_eq!(parent_resources[0].resources.as_ref().unwrap().len(), 1);
    assert_eq!(
        parent_resources[0].resources.as_ref().unwrap()[0].name,
        "child"
    );
    assert_eq!(
        parent_resources[0].resources.as_ref().unwrap()[0].path,
        Some("grandparent_path.parent_path.child_path".to_string())
    );
}

#[test]
fn test_insert_child_resource_not_found() {
    // Create a mock resource without any children
    let resource = ZgResource {
        name: "resource".to_string(),
        path: Some("resource_path".to_string()),
        methods: vec![],
        resources: Some(vec![]),
        parent_path: None,
    };

    // Create a mock child resource
    let child_resource = ZgResource {
        name: "child".to_string(),
        path: Some("resource_path.child_path".to_string()),
        methods: vec![],
        resources: None,
        parent_path: Some("still_unknown_parent_path".to_string()),
    };

    // Attempt to insert the child resource into a non-existent parent resource
    let mut resources = vec![resource];
    let result = insert_child_resource(&mut resources, &child_resource);

    assert!(!result);
    assert!(resources[0].resources.as_ref().unwrap().is_empty());
}

#[test]
fn test_insert_child_resource_merge_methods_instances() {
    // Create a mock parent resource "projects"
    let parent_resource = ZgResource {
        name: "projects".to_string(),
        path: Some("projects".to_string()),
        methods: vec![],
        resources: Some(vec![]),
        parent_path: None,
    };

    // Create a mock child resource "instances" with the first method "get"
    let instances1 = ZgResource {
        name: "instances".to_string(),
        path: Some("projects.instances".to_string()),
        methods: vec![ZgMethod {
            id: "sqladmin.projects.instances.get".to_string(),
            name: "get".to_string(),
            flat_path: "v1/projects/{project}/instances/{instance}".to_string(),
            ..ZgMethod::testdata()
        }],
        resources: None,
        parent_path: Some("projects".to_string()),
    };

    // Create another mock child resource "instances" with a second method "performDiskShrink"
    let instances2 = ZgResource {
        name: "instances".to_string(),
        path: Some("projects.instances".to_string()),
        methods: vec![ZgMethod {
            id: "sqladmin.projects.instances.performDiskShrink".to_string(),
            name: "performDiskShrink".to_string(),
            flat_path: "v1/projects/{project}/instances/{instance}/performDiskShrink".to_string(),
            http_method: "POST".to_string(),
            ..ZgMethod::testdata()
        }],
        resources: None,
        parent_path: Some("projects".to_string()),
    };

    let mut resources = vec![parent_resource];

    let inserted_first = insert_child_resource(&mut resources, &instances1);
    assert!(
        inserted_first,
        "First child resource should be inserted successfully"
    );
    assert_eq!(resources[0].resources.as_ref().unwrap().len(), 1);
    assert_eq!(
        resources[0].resources.as_ref().unwrap()[0].name,
        "instances"
    );

    let inserted_second = insert_child_resource(&mut resources, &instances2);
    assert!(
        inserted_second,
        "Second child resource should be inserted successfully"
    );

    // Ensure the methods are merged into the same child resource
    let child_resources = &resources[0].resources.as_ref().unwrap();
    let child = &child_resources[0];
    assert_eq!(
        child.methods.len(),
        2,
        "Methods should be merged for the same resource path"
    );
    assert_eq!(child.methods[0].name, "get", "First method should exist");
    assert_eq!(
        child.methods[1].name, "performDiskShrink",
        "Second method should exist"
    );
}

#[test]
fn segments_drop_placeholders_the_last_segment_and_the_version() {
    assert_eq!(
        segments("v1/projects/{projectsId}/datasets", "v1"),
        strings(&["projects"])
    );
    assert_eq!(
        segments("v1/projects/{projectsId}/datasets/{datasetsId}", "v1"),
        strings(&["projects"])
    );
    assert_eq!(segments("datasets", "v2"), strings(&[]));
    assert_eq!(segments("", "v2"), strings(&[]));
    assert_eq!(segments("{a}/{b}", "v2"), strings(&[]));
    assert_eq!(
        segments("/resource1/{param1}/method1", "v1"),
        strings(&["", "resource1"])
    );
    assert_eq!(
        segments("v1/a/v1/b/c", "v1"),
        strings(&["a", "b"])
    );
    assert_eq!(segments("a/{b/c}/d", "v1"), strings(&["a", "{b", "c}"]));
}

#[test]
fn flat_paths_with_actions_are_not_used() {
    assert!(is_valid_flat_path("bigquery", "projects/{projectsId}/datasets"));
    assert!(!is_valid_flat_path("bigquery", "projects/{projectsId}/datasets:undelete"));
    assert!(is_valid_flat_path("bigquery", "projects/aggregated/datasets"));
    assert!(!is_valid_flat_path("compute", "projects/{project}/aggregated/disks"));
    assert!(is_valid_flat_path("compute", "projects/{project}/aggregated"));
}

#[test]
fn parents_come_from_the_first_usable_method() {
    let methods = vec![
        method("a", "act", "POST", "projects/{p}/things/{t}:act"),
        method("b", "get", "GET", "projects/{p}/things/{t}/parts/{q}"),
        method("c", "list", "GET", "projects/{p}/zones/{z}/things"),
    ];
    // the first template has an action; the segments of the second end in
    // the resource's own name
    assert_eq!(
        build_parent_resources("svc", "v1", "things", &methods),
        strings(&["projects", "zones"])
    );
    assert_eq!(
        build_parent_resources("svc", "v1", "other", &methods),
        strings(&["projects", "things"])
    );
    assert_eq!(
        build_parent_resources("svc", "v1", "things", &Vec::new()),
        strings(&[])
    );
    let own = vec![method("b", "get", "GET", "projects/{p}/things/{t}/parts")];
    assert_eq!(build_parent_resources("svc", "v1", "things", &own), strings(&[]));
    let storage = vec![method("s", "get", "GET", "b/{bucket}/o/{object}/acl/{entity}")];
    assert_eq!(
        build_parent_resources("storage", "v1", "objectAccessControls", &storage),
        strings(&["projects", "buckets", "objects"])
    );
    let sql = vec![method("s", "get", "GET", "sql/v1beta4/projects/{project}/instances/{instance}/databases")];
    assert_eq!(
        build_parent_resources("sqladmin", "v1beta4", "databases", &sql),
        strings(&["projects", "instances"])
    );
}

#[test]
fn rebuilding_bigquery_datasets() {
    let mut api = ZgApi {
        id: "bigquery:v2".to_string(),
        name: "bigquery".to_string(),
        resources: vec![
            ZgResource {
                path: Some("bigquery.datasets".to_string()),
                ..flat(
                    "datasets",
                    vec![method(
                        "bigquery.datasets.list",
                        "list",
                        "GET",
                        "v1/projects/{projectsId}/datasets",
                    )],
                )
            },
            flat(
                "projects",
                vec![method(
                    "bigquery.projects.list",
                    "list",
                    "GET",
                    "projects",
                )],
            ),
        ],
        ..ZgApi::testdata()
    };
    // the version token of this service is v2, so v1 stays a segment
    let rebuilt = rebuild_hierarchy(&mut api).unwrap_err();
    assert!(matches!(rebuilt, ZgError::StructuralInconsistency(ref name) if name == "datasets"));

    let mut api = ZgApi {
        id: "bigquery:v2".to_string(),
        name: "bigquery".to_string(),
        resources: vec![
            flat(
                "datasets",
                vec![method(
                    "bigquery.datasets.list",
                    "list",
                    "GET",
                    "v2/projects/{projectsId}/datasets",
                )],
            ),
            flat(
                "projects",
                vec![method("bigquery.projects.list", "list", "GET", "projects")],
            ),
        ],
        ..ZgApi::testdata()
    };
    let rebuilt = rebuild_hierarchy(&mut api).unwrap();
    assert_eq!(rebuilt.resources.len(), 1);
    let projects = &rebuilt.resources[0];
    assert_eq!(projects.path.as_deref(), Some("bigquery.projects"));
    assert_eq!(projects.parent_path, None);
    let datasets = &projects.resources.as_ref().unwrap()[0];
    assert_eq!(datasets.name, "datasets");
    assert_eq!(datasets.path.as_deref(), Some("bigquery.projects.datasets"));
    assert_eq!(datasets.parent_path.as_deref(), Some("bigquery.projects"));
    assert_eq!(datasets.methods.len(), 1);
    assert_eq!(datasets.methods[0].id, "bigquery.projects.datasets.list");
    assert_eq!(
        datasets.methods[0].original_id.as_deref(),
        Some("bigquery.datasets.list")
    );
    // the service that was given keeps its flat forest, with paths inferred
    assert_eq!(api.resources.len(), 2);
    assert_eq!(
        api.resources[0].path.as_deref(),
        Some("bigquery.projects.datasets")
    );
}

#[test]
fn rebuilding_places_children_before_their_parents_are_placed() {
    let mut api = ZgApi {
        id: "bigquery:v2".to_string(),
        resources: vec![
            flat(
                "tables",
                vec![method("t", "get", "GET", "projects/{p}/datasets/{d}/tables/{t}")],
            ),
            flat("projects", vec![method("p", "list", "GET", "projects")]),
            flat(
                "datasets",
                vec![method("d", "list", "GET", "projects/{p}/datasets")],
            ),
            flat(
                "routines",
                vec![method("r", "list", "GET", "projects/{p}/datasets/{d}/routines")],
            ),
        ],
        ..ZgApi::testdata()
    };
    let rebuilt = rebuild_hierarchy(&mut api).unwrap();
    assert_eq!(rebuilt.resources.len(), 1);
    let projects = &rebuilt.resources[0];
    let datasets = &projects.resources.as_ref().unwrap()[0];
    assert_eq!(datasets.path.as_deref(), Some("bigquery.projects.datasets"));
    let nested: Vec<&str> = datasets
        .resources
        .as_ref()
        .unwrap()
        .iter()
        .map(|r| r.name.as_str())
        .collect();
    assert_eq!(nested.len(), 2);
    assert!(nested.contains(&"tables"));
    assert!(nested.contains(&"routines"));
}

#[test]
fn rebuilding_fails_on_a_parent_that_never_comes() {
    let mut api = ZgApi {
        id: "bigquery:v2".to_string(),
        resources: vec![
            flat("projects", vec![method("p", "list", "GET", "projects")]),
            flat(
                "tables",
                vec![method("t", "get", "GET", "projects/{p}/datasets/{d}/tables/{t}")],
            ),
            flat(
                "jobs",
                vec![method("j", "list", "GET", "projects/{p}/jobs")],
            ),
        ],
        ..ZgApi::testdata()
    };
    match rebuild_hierarchy(&mut api) {
        Err(ZgError::StructuralInconsistency(name)) => assert_eq!(name, "tables"),
        other => panic!("unexpected result: {:?}", other),
    }
}

#[test]
fn rebuilding_fails_on_parents_that_wait_for_each_other() {
    let mut api = ZgApi {
        id: "bigquery:v2".to_string(),
        resources: vec![
            flat("a", vec![method("a", "list", "GET", "b/{b}/a")]),
            flat("b", vec![method("b", "list", "GET", "a/{a}/b")]),
        ],
        ..ZgApi::testdata()
    };
    assert!(matches!(
        rebuild_hierarchy(&mut api),
        Err(ZgError::StructuralInconsistency(_))
    ));
}

#[test]
fn rebuilding_merges_resources_that_come_to_the_same_path() {
    let mut api = ZgApi {
        id: "sqladmin:v1".to_string(),
        resources: vec![
            flat("projects", vec![]),
            flat(
                "instances",
                vec![method(
                    "sql.instances.get",
                    "get",
                    "GET",
                    "v1/projects/{project}/instances/{instance}",
                )],
            ),
            flat(
                "instances",
                vec![method(
                    "sql.projects.instances.performDiskShrink",
                    "performDiskShrink",
                    "POST",
                    "sql/v1/projects/{project}/instances",
                )],
            ),
        ],
        ..ZgApi::testdata()
    };
    let rebuilt = rebuild_hierarchy(&mut api).unwrap();
    assert_eq!(rebuilt.resources.len(), 1);
    let instances = rebuilt.resources[0].resources.as_ref().unwrap();
    assert_eq!(instances.len(), 1);
    assert_eq!(instances[0].name, "instances");
    assert_eq!(
        instances[0].path.as_deref(),
        Some("sqladmin.projects.instances")
    );
    let names: Vec<&str> = instances[0].methods.iter().map(|m| m.name.as_str()).collect();
    assert_eq!(names.len(), 2);
    assert!(names.contains(&"get"));
    assert!(names.contains(&"performDiskShrink"));
    let ids: Vec<&str> = instances[0].methods.iter().map(|m| m.id.as_str()).collect();
    assert!(ids.contains(&"sqladmin.projects.instances.get"));
    assert!(ids.contains(&"sqladmin.projects.instances.performDiskShrink"));
}

#[test]
fn rewriting_keeps_the_id_that_was_there() {
    let mut api = ZgApi {
        id: "bigquery:v2".to_string(),
        resources: vec![flat(
            "datasets",
            vec![
                method("bigquery.datasets.list", "list", "GET", "projects/{p}/datasets"),
                method("bigquery.datasets.get", "get", "GET", "projects/{p}/datasets/{d}"),
            ],
        )],
        ..ZgApi::testdata()
    };
    let once = update_resource_paths(&mut api);
    assert_eq!(
        once.resources[0].methods[1].original_id.as_deref(),
        Some("bigquery.datasets.get")
    );
    assert_eq!(once.resources[0].methods[1].id, "bigquery.projects.datasets.get");
    let twice = update_resource_paths(&mut api);
    assert_eq!(
        twice.resources[0].methods[1].original_id.as_deref(),
        Some("bigquery.projects.datasets.get")
    );
    assert_eq!(twice.resources[0].methods[1].id, "bigquery.projects.datasets.get");
    assert_eq!(twice.resources[0].path, once.resources[0].path);
}

#[test]
fn rebuilding_twice_changes_nothing_but_the_original_ids() {
    let mut api = ZgApi {
        id: "bigquery:v2".to_string(),
        resources: vec![
            flat(
                "tables",
                vec![method("t", "get", "GET", "projects/{p}/datasets/{d}/tables/{t}")],
            ),
            flat("projects", vec![method("p", "list", "GET", "projects")]),
            flat(
                "datasets",
                vec![method("d", "list", "GET", "projects/{p}/datasets")],
            ),
        ],
        ..ZgApi::testdata()
    };
    let mut once = rebuild_hierarchy(&mut api).unwrap();
    let twice = rebuild_hierarchy(&mut once.clone()).unwrap();
    let mut again = rebuild_hierarchy(&mut twice.clone()).unwrap();
    assert_eq!(format!("{:?}", twice), format!("{:?}", again));
    // apart from the original ids, the first rebuilding gave the same tree
    fn forget(resources: &mut Vec<ZgResource>) {
        for r in resources.iter_mut() {
            for m in r.methods.iter_mut() {
                m.original_id = None;
            }
            if let Some(c) = r.resources.as_mut() {
                forget(c);
            }
        }
    }
    forget(&mut once.resources);
    forget(&mut again.resources);
    assert_eq!(format!("{:?}", once), format!("{:?}", again));
}

#[test]
fn extracting_a_flat_service_rebuilds_it() {
    let datasets = Resource {
        methods: Some(vec![(
            "list".to_string(),
            raw_method("bigquery.datasets.list", Some("projects/{projectsId}/datasets"), "projects/{+projectId}/datasets", "GET"),
        )]),
        resources: None,
    };
    let projects = Resource {
        methods: Some(vec![(
            "list".to_string(),
            raw_method("bigquery.projects.list", None, "projects", "GET"),
        )]),
        resources: None,
    };
    let mut d = description(
        "bigquery:v2",
        "bigquery",
        vec![("datasets".to_string(), datasets), ("projects".to_string(), projects)],
    );
    d.version = "v2".to_string();
    assert!(needs_rebuild("bigquery:v2"));
    assert!(needs_rebuild("sqladmin:v1beta4"));
    assert!(!needs_rebuild("container:v1"));
    let api = extract_api(d).unwrap();
    assert_eq!(api.resources.len(), 1);
    assert_eq!(api.resources[0].name, "projects");
    assert_eq!(api.resources[0].methods[0].flat_path, "projects");
    let nested = api.resources[0].resources.as_ref().unwrap();
    assert_eq!(nested[0].path.as_deref(), Some("bigquery.projects.datasets"));
    assert_eq!(nested[0].methods[0].id, "bigquery.projects.datasets.list");
}

#[test]
fn query_parameters_are_collected() {
    fn parameter(location: &str, required: Option<bool>, description: Option<&str>) -> Parameter {
        Parameter {
            description: description.map(|s| s.to_string()),
            location: location.to_string(),
            param_type: "string".to_string(),
            enum_values: None,
            enum_descriptions: None,
            default: None,
            format: None,
            pattern: None,
            required,
        }
    }
    let parameters = Some(vec![
        ("project".to_string(), parameter("path", Some(true), None)),
        ("filter".to_string(), parameter("query", None, Some("Optional. A filter."))),
        ("parent".to_string(), parameter("query", None, Some("  REQUIRED. The parent."))),
        ("view".to_string(), parameter("query", Some(false), Some("Required. The view."))),
        ("mask".to_string(), parameter("query", Some(true), None)),
        ("a.b".to_string(), parameter("query", Some(true), None)),
        ("late".to_string(), parameter("query", None, Some("It is Required. Or not."))),
        ("bare".to_string(), parameter("query", None, None)),
    ]);
    let found = collect_query_params(&parameters);
    let summary: Vec<(&str, bool)> = found.iter().map(|q| (q.name.as_str(), q.required)).collect();
    assert_eq!(
        summary,
        vec![
            ("filter", false),
            ("parent", true),
            ("view", false),
            ("mask", true),
            ("late", false),
            ("bare", false),
        ]
    );
    assert_eq!(found[0].description.as_deref(), Some("Optional. A filter."));
    assert!(collect_query_params(&None).is_empty());
    assert!(is_marked_required(Some(true), Some(Some(false))));
    assert!(!is_marked_required(Some(false), Some(Some(true))));
    assert!(is_marked_required(None, Some(Some(true))));
    assert!(!is_marked_required(None, Some(Some(false))));
    assert!(!is_marked_required(None, Some(None)));
    assert!(!is_marked_required(None, None));
}

#[test]
fn methods_take_the_path_where_there_is_no_flat_path() {
    let schemas = vec![
        ("Bucket".to_string(), Schema::testdata()),
        (
            "Object".to_string(),
            Schema {
                id: Some("Object".to_string()),
                ..Schema::testdata()
            },
        ),
    ];
    let mut insert = raw_method("storage.objects.insert", None, "b/{bucket}/o", "POST");
    insert.request = Some(zygen::discovery::Request {
        ref_name: Some("Object".to_string()),
    });
    let converted = convert_method("insert".to_string(), &insert, &schemas);
    assert_eq!(converted.flat_path, "b/{bucket}/o");
    assert_eq!(converted.id, "storage.objects.insert");
    assert_eq!(converted.original_id, None);
    assert_eq!(converted.name, "insert");
    assert_eq!(
        converted.request_data_schema.unwrap().id.as_deref(),
        Some("Object")
    );
    insert.http_method = "DELETE".to_string();
    assert!(convert_method("insert".to_string(), &insert, &schemas)
        .request_data_schema
        .is_none());
    insert.http_method = "PUT".to_string();
    insert.request = Some(zygen::discovery::Request {
        ref_name: Some("Missing".to_string()),
    });
    assert!(convert_method("insert".to_string(), &insert, &schemas)
        .request_data_schema
        .is_none());
}

#[test]
fn resources_without_methods_are_named_after_their_parent() {
    let empty = Resource { methods: None, resources: None };
    let top = convert_resource("svc", "projects".to_string(), empty, None, &Vec::new());
    assert_eq!(top.path.as_deref(), Some("svc.projects"));
    assert_eq!(top.parent_path, None);
    assert_eq!(top.resources.as_ref().map(|c| c.len()), Some(0));
    let empty = Resource { methods: None, resources: None };
    let nested = convert_resource(
        "svc",
        "zones".to_string(),
        empty,
        Some("svc.projects".to_string()),
        &Vec::new(),
    );
    assert_eq!(nested.path.as_deref(), Some("svc.projects.zones"));
}
