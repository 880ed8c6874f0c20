use zygen::api::{ZgApi, ZgError, ZgMethod, ZgResource};
use zygen::desc::{
    describe, describe_method, describe_resource, describe_service, minimum_data_suggestion,
    payload_suggestion, write_shown_body, DescArgs, DescError,
};
use zygen::discovery::{
    apis_to_download, definition_file_name, find_schema, standalone_discovery_url,
    tree_file_name, DiscoveryDirectoryItem, Schema, SchemaProperty, SchemaPropertyAnnotation,
};
use zygen::exec::{plan, plan_request, Action, Autofill, ExecArgs, ExecError};
use zygen::flavors::desc_flavors::{
    bigquery_jobs_insert, container_clusters_create, generate_minimum_data_and_notes,
    sqladmin_instances_insert,
};
use zygen::json::{sort_json, JsonValue};
use zygen::supported_apis::{standalone_apis, supported_apis, SupportedApi};

fn no_autofill() -> Autofill {
    Autofill { project: None, region: None, zone: None }
}

#[test]
fn test_single_data_no_title_no_notes() {
    let data_patterns = vec![(None, "{\"key\": \"value\"}")];
    let notes = vec![];
    let result = generate_minimum_data_and_notes(&data_patterns, &notes).unwrap();
    let expected = "\nminimum_data:\n--data '{\n  \"key\": \"value\"\n}'\n\n";
    assert_eq!(result, expected);
}

#[test]
fn test_multiple_data_with_titles_and_notes() {
    let data_patterns = vec![
        (Some("Title 1"), "{\"key1\": \"value1\"}"),
        (Some("Title 2"), "{\"key2\": \"value2\"}"),
    ];
    let notes = vec!["Note 1", "Note 2"];
    let result = generate_minimum_data_and_notes(&data_patterns, &notes).unwrap();
    let expected = "\nminimum_data:\n\
                    ### Title 1\n--data '{\n  \"key1\": \"value1\"\n}'\n\n\
                    ### Title 2\n--data '{\n  \"key2\": \"value2\"\n}'\n\n\
                    notes:\n- Note 1\n- Note 2\n";
    assert_eq!(result, expected);
}

#[test]
fn test_payload_suggestion_default() {
    let mut properties = Vec::new();

    // read_only: false, and required
    properties.push((
        "requiredField".to_string(),
        SchemaProperty {
            description: Some("Required. And something happens.".to_string()),
            ..SchemaProperty::testdata()
        },
    ));

    // read_only: false, but not required
    properties.push((
        "optionalField".to_string(),
        SchemaProperty {
            description: Some("Optional. It's up to you.".to_string()),
            ..SchemaProperty::testdata()
        },
    ));

    // read_only: true
    properties.push((
        "outputField".to_string(),
        SchemaProperty {
            description: Some("Output only. You don't specify it when executing API.".to_string()),
            read_only: true,
            ..SchemaProperty::testdata()
        },
    ));

    let method = ZgMethod {
        request_data_schema: Some(Schema {
            properties: Some(properties),
            ..Schema::testdata()
        }),
        ..ZgMethod::testdata()
    };

    // The result should only contain the required field
    let result = payload_suggestion(&method, &ZgApi::testdata());
    assert!(result.is_some());
    assert_eq!(
        result.unwrap(),
        "\nminimum_data:\n--data '{\n  \"requiredField\": \"\"\n}'"
    );
}

#[test]
fn test_sort_json() {
    let text = |s: &str| JsonValue::Text(s.to_string());
    let unsorted_json = JsonValue::Object(vec![
        ("b".to_string(), text("value_b")),
        (
            "a".to_string(),
            JsonValue::Object(vec![
                ("d".to_string(), text("value_d")),
                ("c".to_string(), text("value_c")),
            ]),
        ),
    ]);

    let sorted_json = sort_json(&unsorted_json);

    let expected_json = JsonValue::Object(vec![
        (
            "a".to_string(),
            JsonValue::Object(vec![
                ("c".to_string(), text("value_c")),
                ("d".to_string(), text("value_d")),
            ]),
        ),
        ("b".to_string(), text("value_b")),
    ]);

    assert_eq!(format!("{:?}", sorted_json), format!("{:?}", expected_json));
}

#[test]
fn sorting_json_leaves_arrays_as_they_are() {
    let inner = JsonValue::Object(vec![
        ("z".to_string(), JsonValue::Null),
        ("y".to_string(), JsonValue::Bool(true)),
    ]);
    let value = JsonValue::Object(vec![
        ("list".to_string(), JsonValue::Array(vec![inner.clone(), JsonValue::Number("1.50".to_string())])),
        ("Z".to_string(), JsonValue::Null),
    ]);
    let sorted = sort_json(&value);
    let expected = JsonValue::Object(vec![
        ("Z".to_string(), JsonValue::Null),
        ("list".to_string(), JsonValue::Array(vec![inner, JsonValue::Number("1.50".to_string())])),
    ]);
    assert_eq!(format!("{:?}", sorted), format!("{:?}", expected));
    assert_eq!(
        format!("{:?}", sort_json(&JsonValue::Array(vec![]))),
        format!("{:?}", JsonValue::Array(vec![]))
    );
}

#[test]
fn bodies_that_are_written_down() {
    let bigquery = bigquery_jobs_insert().unwrap();
    assert!(bigquery.starts_with(
        "\nminimum_data:\n### Pattern (1). Query Job\n--data '{\n  \"configuration\": {\n    \"query\": {\n      \"query\": \"\"\n    }\n  }\n}'\n\n### Pattern (2). Load Job\n"
    ));
    assert!(bigquery.ends_with(
        "notes:\n- You have to pick one from desired job type: query, load, copy, or extract. https://cloud.google.com/bigquery/docs/reference/rest/v2/Job#JobConfiguration\n"
    ));
    assert_eq!(
        sqladmin_instances_insert().unwrap(),
        "\nminimum_data:\n--data '{\n  \"name\": \"\",\n  \"settings\": {\n    \"tier\": \"\"\n  }\n}'\n\nnotes:\n- You can find a valid 'tier' by executing `zg ex sql tiers list`\n"
    );
    let container = container_clusters_create().unwrap();
    assert!(container.contains("### Pattern (2). Autopilot Cluster\n--data '{\n  \"cluster\": {\n    \"autopilot\": {\n      \"enabled\": true\n    },\n    \"name\": \"\"\n  }\n}'\n\n"));
    assert!(generate_minimum_data_and_notes(&vec![(None, "{")], &vec![]).is_none());
    assert_eq!(
        generate_minimum_data_and_notes(&vec![], &vec![]).unwrap(),
        "\nminimum_data:\n"
    );
    let named = ZgMethod {
        id: "sqladmin.projects.instances.insert".to_string(),
        http_method: "POST".to_string(),
        ..ZgMethod::testdata()
    };
    assert_eq!(
        payload_suggestion(&named, &ZgApi::testdata()),
        sqladmin_instances_insert()
    );
    let zonal = ZgMethod {
        id: "container.projects.zones.clusters.create".to_string(),
        ..ZgMethod::testdata()
    };
    assert_eq!(payload_suggestion(&zonal, &ZgApi::testdata()), container_clusters_create());
    assert_eq!(
        payload_suggestion(&ZgMethod::testdata(), &ZgApi::testdata()).unwrap(),
        "\nminimum_data:\n--data '{}'"
    );
    assert_eq!(write_shown_body("[]"), "\nminimum_data:\n--data '[]'");
}

fn property(prop_type: Option<&str>, ref_name: Option<&str>) -> SchemaProperty {
    SchemaProperty {
        description: Some("Required.".to_string()),
        prop_type: prop_type.map(|s| s.to_string()),
        ref_name: ref_name.map(|s| s.to_string()),
        ..SchemaProperty::testdata()
    }
}

#[test]
fn least_bodies_follow_the_schemas() {
    let settings = Schema {
        properties: Some(vec![("tier".to_string(), property(Some("string"), None))]),
        ..Schema::testdata()
    };
    let endless = Schema {
        properties: Some(vec![
            ("again".to_string(), property(None, Some("Endless"))),
            ("n".to_string(), property(Some("integer"), None)),
        ]),
        ..Schema::testdata()
    };
    let schemas = vec![
        ("Settings".to_string(), settings),
        ("Endless".to_string(), endless),
    ];
    let body = Schema {
        properties: Some(vec![
            ("name".to_string(), property(Some("string"), None)),
            ("count".to_string(), property(Some("integer"), None)),
            ("flag".to_string(), property(Some("boolean"), None)),
            ("list".to_string(), property(Some("array"), None)),
            ("settings".to_string(), property(None, Some("Settings"))),
            ("missing".to_string(), property(None, Some("Nowhere"))),
            ("untyped".to_string(), property(None, None)),
            (
                "skipped".to_string(),
                SchemaProperty { description: Some("Optional.".to_string()), ..SchemaProperty::testdata() },
            ),
            (
                "annotated".to_string(),
                SchemaProperty {
                    description: None,
                    annotations: Some(SchemaPropertyAnnotation {
                        required: vec!["old.id".to_string()],
                    }),
                    ..SchemaProperty::testdata()
                },
            ),
        ]),
        ..Schema::testdata()
    };
    let method = ZgMethod {
        original_id: Some("old.id".to_string()),
        http_method: "POST".to_string(),
        ..ZgMethod::testdata()
    };
    assert_eq!(
        minimum_data_suggestion(&method, &body, &schemas).unwrap(),
        "{\"annotated\":\"\",\"count\":0,\"flag\":false,\"list\":\"<<See API Reference for details>>\",\"missing\":\"<<See API Reference for details>>\",\"name\":\"\",\"settings\":{\"tier\":\"\"},\"untyped\":\"<<See API Reference for details>>\"}"
    );
    // a schema that refers to itself is followed as many times as there are schemas
    let looping = Schema {
        properties: Some(vec![("again".to_string(), property(None, Some("Endless")))]),
        ..Schema::testdata()
    };
    assert_eq!(
        minimum_data_suggestion(&method, &looping, &schemas).unwrap(),
        "{\"again\":{\"again\":{\"again\":\"<<See API Reference for details>>\",\"n\":0},\"n\":0}}"
    );
    let empty = Schema { properties: None, ..Schema::testdata() };
    assert_eq!(minimum_data_suggestion(&method, &empty, &schemas).unwrap(), "{}");
    assert_eq!(find_schema(&schemas, "Settings").unwrap().properties.as_ref().unwrap().len(), 1);
    assert!(find_schema(&schemas, "settings").is_none());
}

fn sample_api() -> ZgApi {
    ZgApi {
        id: "svc:v1".to_string(),
        name: "svc".to_string(),
        resources: vec![ZgResource {
            name: "things".to_string(),
            parent_path: None,
            path: Some("svc.things".to_string()),
            methods: vec![
                ZgMethod {
                    id: "svc.things.get".to_string(),
                    original_id: Some("svc.get".to_string()),
                    name: "get".to_string(),
                    flat_path: "v1/projects/{projectsId}/things/{thingsId}".to_string(),
                    ..ZgMethod::testdata()
                },
                ZgMethod {
                    id: "svc.things.create".to_string(),
                    name: "create".to_string(),
                    http_method: "POST".to_string(),
                    flat_path: "v1/projects/{projectsId}/things".to_string(),
                    ..ZgMethod::testdata()
                },
                ZgMethod {
                    id: "svc.things.watch".to_string(),
                    name: "watch".to_string(),
                    http_method: "OPTIONS".to_string(),
                    flat_path: "v1/things".to_string(),
                    ..ZgMethod::testdata()
                },
            ],
            resources: Some(vec![ZgResource {
                name: "parts".to_string(),
                parent_path: Some("svc.things".to_string()),
                path: Some("svc.things.parts".to_string()),
                methods: vec![],
                resources: None,
            }]),
        }],
        ..ZgApi::testdata()
    }
}

#[test]
fn services_resources_and_methods_are_described() {
    let api = sample_api();
    assert_eq!(
        describe_service(&api),
        "service: svc\nversion: v1\nrevision: 2024-11-11\nbase_url: https://example.com/\ntop_level_resources:\n- things\n"
    );
    assert_eq!(
        describe_resource(&api.resources[0]),
        "resource_name: things\nresource_path: svc.things\nparent_path: N/A\nmethods:\n- get\n- create\n- watch\n\nchild_resources:\n- parts\n"
    );
    let parts = &api.resources[0].resources.as_ref().unwrap()[0];
    assert_eq!(
        describe_resource(parts),
        "resource_name: parts\nresource_path: svc.things.parts\nparent_path: svc.things\n"
    );
    assert_eq!(
        describe_method(&api.resources[0].methods[0], &api).unwrap(),
        "method_name: get\nmethod_id: svc.things.get\noriginal_method_id: svc.get\nhttp_method: GET\nrequest_url: https://example.com/v1/projects/{projectsId}/things/{thingsId}\nautofill_params: projectsId\n\nrequired_params: \n-p thingsId=\"\"\n\nFind API Reference: https://cloud.google.com/s/results/svc/docs?q=%22Method%3A%22%20things%20get\n"
    );
    assert_eq!(
        describe_method(&api.resources[0].methods[1], &api).unwrap(),
        "method_name: create\nmethod_id: svc.things.create\nhttp_method: POST\nrequest_url: https://example.com/v1/projects/{projectsId}/things\nautofill_params: projectsId\n\nrequired_params: None\n\nminimum_data:\n--data '{}'\n\nFind API Reference: https://cloud.google.com/s/results/svc/docs?q=%22Method%3A%22%20things%20create\n"
    );
    let args = |resource: Option<&str>, method: Option<&str>| DescArgs {
        service: "svc".to_string(),
        resource: resource.map(|s| s.to_string()),
        method: method.map(|s| s.to_string()),
    };
    assert_eq!(describe(&api, &args(None, None)).unwrap(), describe_service(&api));
    assert_eq!(
        describe(&api, &args(Some("parts"), None)).unwrap(),
        describe_resource(parts)
    );
    assert_eq!(
        describe(&api, &args(Some("things"), Some("get"))).unwrap(),
        describe_method(&api.resources[0].methods[0], &api).unwrap()
    );
    assert!(matches!(
        describe(&api, &args(Some("nothing"), None)),
        Err(DescError::NotFound(ZgError::ResourceNotFound(_)))
    ));
    assert!(matches!(
        describe(&api, &args(Some("things"), Some("nothing"))),
        Err(DescError::NotFound(ZgError::MethodNotFound(_, _)))
    ));
}

#[test]
fn calls_are_planned() {
    let api = sample_api();
    let args = |method: &str, curl: bool| ExecArgs {
        service: "svc".to_string(),
        resource: "things".to_string(),
        method: method.to_string(),
        headers: None,
        params: Some(vec![("thingsId".to_string(), "t1".to_string())]),
        data: None,
        equivalent_curl: curl,
    };
    let autofill = Autofill { project: Some("p1".to_string()), region: None, zone: None };
    match plan(&api, &args("get", false), &autofill, None).unwrap() {
        Action::Send(verb, url, body) => {
            assert_eq!(verb, "GET");
            assert_eq!(url, "https://example.com/v1/projects/p1/things/t1");
            assert_eq!(body, None);
        }
        other => panic!("unexpected action: {:?}", other),
    }
    match plan(&api, &args("create", false), &autofill, None).unwrap() {
        Action::Send(verb, url, body) => {
            assert_eq!(verb, "POST");
            assert_eq!(url, "https://example.com/v1/projects/p1/things?thingsId=t1");
            assert_eq!(body.as_deref(), Some("{}"));
        }
        other => panic!("unexpected action: {:?}", other),
    }
    match plan(&api, &args("create", false), &autofill, Some("{ \"a\" : 1 }")).unwrap() {
        Action::Send(_, _, body) => assert_eq!(body.as_deref(), Some("{\"a\":1}")),
        other => panic!("unexpected action: {:?}", other),
    }
    match plan(&api, &args("get", true), &autofill, None).unwrap() {
        Action::Show(command) => assert!(command.starts_with("curl -X GET \\\n")),
        other => panic!("unexpected action: {:?}", other),
    }
    assert!(matches!(
        plan(&api, &args("create", false), &autofill, Some("{")),
        Err(ExecError::InvalidJson)
    ));
    match plan(&api, &args("watch", false), &autofill, None) {
        Err(ExecError::UnsupportedMethod(name, verb)) => {
            assert_eq!(name, "watch");
            assert_eq!(verb, "OPTIONS");
        }
        other => panic!("unexpected result: {:?}", other),
    }
    assert!(matches!(
        plan(&api, &args("nothing", false), &autofill, None),
        Err(ExecError::NotFound(ZgError::MethodNotFound(_, _)))
    ));
    let elsewhere = ExecArgs { resource: "nothing".to_string(), ..args("get", false) };
    assert!(matches!(
        plan(&api, &elsewhere, &autofill, None),
        Err(ExecError::NotFound(ZgError::ResourceNotFound(_)))
    ));
    assert!(matches!(
        plan_request(
            &"not a url".to_string(),
            &api.resources[0].methods[0],
            &None,
            &no_autofill(),
            None
        ),
        Err(ExecError::InvalidUrl)
    ));
}

#[test]
fn discovery_names_and_addresses() {
    let gemini = standalone_apis().remove(0);
    assert_eq!(
        standalone_discovery_url(gemini, "KEY".to_string()).unwrap(),
        "https://generativelanguage.googleapis.com/$discovery/rest?version=v1beta&key=KEY"
    );
    let other = SupportedApi::new("other", "Other", "None").version("v1");
    assert_eq!(standalone_discovery_url(other, "KEY".to_string()), None);
    let unversioned = SupportedApi::new("generativelanguage", "Gemini", "AI/ML");
    assert_eq!(standalone_discovery_url(unversioned, "KEY".to_string()), None);
    assert_eq!(definition_file_name("container:v1"), "container_v1.json");
    assert_eq!(tree_file_name("container:v1"), "container_v1.msgpack");
    assert_eq!(tree_file_name("a:b:c"), "a_b_c.msgpack");
    let item = |id: &str| DiscoveryDirectoryItem {
        kind: "discovery#directoryItem".to_string(),
        id: id.to_string(),
        name: String::new(),
        version: String::new(),
        title: String::new(),
        description: String::new(),
        discovery_rest_url: String::new(),
        documentation_link: None,
        preferred: true,
    };
    let items = vec![
        item("container:v1"),
        item("container:v9"),
        item("unknown:v1"),
        item("cloudbilling:v1"),
        item("sqladmin:v1beta4"),
        item("container"),
    ];
    assert_eq!(apis_to_download(&items, &supported_apis(true)), vec![0, 3, 4]);
    assert_eq!(apis_to_download(&items, &supported_apis(false)), vec![0, 4]);
}
