use zygen::api::ZgMethod;
use zygen::desc::{
    autofill_params, build_required_params_string, generate_documentation_link, keep_present,
    required_params_line, select_autofill, write_documentation_url,
};
use zygen::exec::{
    build_url, data_file, fill_path, generate_curl, mentions_placeholder, parse_headers,
    parse_params, prepare_json_string, replace_placeholders, sends_body, write_data_line,
    Autofill, ExecArgs, ExecError,
};

fn no_autofill() -> Autofill {
    Autofill {
        project: None,
        region: None,
        zone: None,
    }
}

fn pairs(items: &[(&str, &str)]) -> Vec<(String, String)> {
    items
        .iter()
        .map(|(k, v)| (k.to_string(), v.to_string()))
        .collect()
}

#[test]
fn test_build_url_with_path_params() {
    let base_url = "https://example.com/".to_string();
    let method = ZgMethod {
        flat_path: "v1/{xyzId}/{locationId}/instances".to_string(),
        ..ZgMethod::testdata()
    };
    let params = Some(vec![
        ("xyzId".to_string(), "my-project".to_string()),
        ("locationId".to_string(), "us-central1".to_string()),
    ]);
    let url = build_url(&base_url, &method, &params, &no_autofill()).unwrap();
    assert_eq!(
        url,
        "https://example.com/v1/my-project/us-central1/instances"
    );
}

#[test]
fn test_build_url_with_query_params() {
    let base_url = "https://example.com/".to_string();
    let method = ZgMethod {
        flat_path: "v1/instances".to_string(),
        ..ZgMethod::testdata()
    };
    let params = Some(vec![
        ("filter".to_string(), "active".to_string()),
        ("pageSize".to_string(), "10".to_string()),
    ]);
    let url = build_url(&base_url, &method, &params, &no_autofill()).unwrap();
    assert_eq!(
        url,
        "https://example.com/v1/instances?filter=active&pageSize=10"
    );
}

#[test]
fn test_build_url_with_mixed_params() {
    let base_url = "https://example.com/".to_string();
    let method = ZgMethod {
        flat_path: "v1/{xyzId}/instances".to_string(),
        ..ZgMethod::testdata()
    };
    let params = Some(vec![
        ("xyzId".to_string(), "my-project".to_string()),
        ("filter".to_string(), "active".to_string()),
    ]);
    let url = build_url(&base_url, &method, &params, &no_autofill()).unwrap();
    assert_eq!(
        url,
        "https://example.com/v1/my-project/instances?filter=active"
    );
}

#[test]
fn test_prepare_json_string_from_string() {
    let json_str = r#"{"key": "value"}"#;
    let result = prepare_json_string(json_str).unwrap();
    assert_eq!(result, r#"{"key":"value"}"#);
}

#[test]
fn test_prepare_json_string_invalid_json() {
    let invalid_json_str = r#"{"key": "value""#; // Missing closing brace
    let result = prepare_json_string(invalid_json_str);
    assert!(result.is_err());
}

#[test]
fn test_generate_curl() {
    let base_url = "https://example.com/".to_string();
    let method = ZgMethod {
        http_method: "PUT".to_string(),
        flat_path: "v1/resources/{resourcesId}".to_string(),
        ..ZgMethod::testdata()
    };
    let args = ExecArgs {
        service: "test_service".to_string(),
        resource: "test_resource".to_string(),
        method: "test_method".to_string(),
        headers: Some(vec![(
            "X-Custom-Header".to_string(),
            "CustomValue".to_string(),
        )]),
        params: Some(vec![
            ("resourcesId".to_string(), "myResourceId".to_string()),
            ("qp1".to_string(), "value1".to_string()),
            ("qp2".to_string(), "value2".to_string()),
        ]),
        data: Some("{\"key\":\"value\"}".to_string()),
        equivalent_curl: false,
    };

    let curl_command =
        generate_curl(&base_url, &method, &args, &no_autofill(), args.data.as_deref()).unwrap();

    let expected_command = [
        "curl -X PUT \\\n",
        "  -H \"X-Custom-Header: CustomValue\" \\\n",
        "  -H \"Authorization: Bearer $(gcloud auth print-access-token)\" \\\n",
        "  -H \"Content-Type: application/json; charset=utf-8\" \\\n",
        "  -d '\n{\n  \"key\": \"value\"\n}' \\\n",
        "  \"https://example.com/v1/resources/myResourceId?qp1=value1&qp2=value2\"",
    ]
    .concat();

    assert_eq!(curl_command, expected_command);
}

#[test]
fn test_build_required_params_string() {
    let method = ZgMethod {
        flat_path: "/resource1/{param1}/method1".to_string(),
        ..ZgMethod::testdata()
    };

    let result = build_required_params_string(&method);
    assert_eq!(result, "\n-p param1=\"\"");
}

#[test]
fn test_generate_documentation_link() {
    let method_id = "compute.instances.insert";
    let result = generate_documentation_link(method_id);
    assert!(result.is_some());
    assert_eq!(
        result.unwrap(),
        "https://cloud.google.com/s/results/compute/docs?q=%22Method%3A%22%20instances%20insert"
    );
}

#[test]
fn curl_keeps_custom_headers_in_place_of_the_usual_ones() {
    let base_url = "https://example.com/".to_string();
    let method = ZgMethod {
        http_method: "POST".to_string(),
        flat_path: "v1/things".to_string(),
        ..ZgMethod::testdata()
    };
    let mut args = ExecArgs {
        service: String::new(),
        resource: String::new(),
        method: String::new(),
        headers: Some(pairs(&[
            ("AUTHORIZATION", "Bearer abc"),
            ("content-type", "text/plain"),
        ])),
        params: None,
        data: None,
        equivalent_curl: true,
    };
    let command = generate_curl(&base_url, &method, &args, &no_autofill(), None).unwrap();
    assert_eq!(
        command,
        "curl -X POST \\\n  -H \"AUTHORIZATION: Bearer abc\" \\\n  -H \"content-type: text/plain\" \\\n  \"https://example.com/v1/things\""
    );
    args.headers = None;
    let command = generate_curl(&base_url, &method, &args, &no_autofill(), Some(" { } ")).unwrap();
    assert_eq!(
        command,
        "curl -X POST \\\n  -H \"Authorization: Bearer $(gcloud auth print-access-token)\" \\\n  -H \"Content-Type: application/json; charset=utf-8\" \\\n  -d '{}' \\\n  \"https://example.com/v1/things\""
    );
    assert!(matches!(
        generate_curl(&base_url, &method, &args, &no_autofill(), Some("{")),
        Err(ExecError::InvalidJson)
    ));
    assert!(matches!(
        generate_curl(&"no url".to_string(), &method, &args, &no_autofill(), None),
        Err(ExecError::InvalidUrl)
    ));
    assert_eq!(write_data_line("{}", "{}"), " \\\n  -d '{}'");
    assert_eq!(write_data_line("[]", "[]"), " \\\n  -d '\n[]'");
}

#[test]
fn urls_take_the_values_that_stand_in() {
    let base_url = "https://example.com/".to_string();
    let method = ZgMethod {
        flat_path: "v1/projects/{projectsId}/locations/{locationsId}/zones/{zone}/x/{project}"
            .to_string(),
        ..ZgMethod::testdata()
    };
    let autofill = Autofill {
        project: Some("p1".to_string()),
        region: Some("r1".to_string()),
        zone: None,
    };
    let url = build_url(&base_url, &method, &None, &autofill).unwrap();
    assert_eq!(
        url,
        "https://example.com/v1/projects/p1/locations/r1/zones/%7Bzone%7D/x/p1"
    );
    // what is given explicitly comes first
    let params = Some(pairs(&[("projectsId", "mine"), ("a b", "c&d")]));
    let url = build_url(&base_url, &method, &params, &autofill).unwrap();
    assert_eq!(
        url,
        "https://example.com/v1/projects/mine/locations/r1/zones/%7Bzone%7D/x/p1?a+b=c%26d"
    );
    assert!(build_url(&"nothing".to_string(), &method, &None, &autofill).is_none());
}

#[test]
fn paths_are_filled_in_the_order_of_the_parameters() {
    let (path, query) = fill_path("a/{x}/b/{x}/{y}", &Some(pairs(&[("x", "{y}"), ("y", "1"), ("x", "2")])));
    assert_eq!(path, "a/1/b/1/1");
    assert_eq!(query, pairs(&[("x", "2")]));
    let (path, query) = fill_path("a/{x}", &None);
    assert_eq!(path, "a/{x}");
    assert!(query.is_empty());
    let (path, query) = fill_path("a/{x}", &Some(pairs(&[("", "v")])));
    assert_eq!(path, "a/{x}");
    assert_eq!(query, pairs(&[("", "v")]));
}

#[test]
fn placeholders_are_replaced_where_there_is_a_value() {
    let names = ["zonesId", "zone"];
    assert!(mentions_placeholder("v1/zones/{zone}", &names));
    assert!(!mentions_placeholder("v1/zones/zone/{zones}", &names));
    assert_eq!(
        replace_placeholders("v1/{zonesId}/{zone}/{zone}", &names, Some("z")),
        "v1/z/z/z"
    );
    assert_eq!(
        replace_placeholders("v1/{zonesId}/{zone}", &names, None),
        "v1/{zonesId}/{zone}"
    );
    assert_eq!(replace_placeholders("v1/{region}", &names, Some("z")), "v1/{region}");
}

#[test]
fn parameters_and_headers_are_read() {
    assert_eq!(
        parse_params("key=value=more"),
        Ok(("key".to_string(), "value=more".to_string()))
    );
    assert_eq!(parse_params("="), Ok((String::new(), String::new())));
    assert_eq!(
        parse_params("key"),
        Err("No '=' found. Params must '-p Key=Value'".to_string())
    );
    assert_eq!(
        parse_headers(" Key :  Value: more "),
        Ok(("Key".to_string(), "Value: more".to_string()))
    );
    assert_eq!(
        parse_headers("Key"),
        Err("No ':' found. HTTP headers must be in the form '-H \"Key: Value\"'".to_string())
    );
}

#[test]
fn bodies_may_be_named_by_file() {
    assert_eq!(data_file("@body.json"), Some("body.json".to_string()));
    assert_eq!(data_file("@@x@"), Some("x@".to_string()));
    assert_eq!(data_file("@"), Some(String::new()));
    assert_eq!(data_file("{}"), None);
    assert_eq!(data_file(""), None);
    assert_eq!(
        prepare_json_string("[1, 2,\n {\"b\": null, \"a\": \"x y\"}]").unwrap(),
        "[1,2,{\"a\":\"x y\",\"b\":null}]"
    );
}

#[test]
fn placeholders_of_project_region_and_zone_are_filled_in() {
    let method = ZgMethod {
        flat_path: "v1/projects/{projectsId}/locations/{location}/things/{thingsId}/{zone}/{}"
            .to_string(),
        ..ZgMethod::testdata()
    };
    assert_eq!(autofill_params(&method), vec!["projectsId", "location", "zone"]);
    assert_eq!(
        build_required_params_string(&method),
        "\n-p thingsId=\"\""
    );
    let names: Vec<String> = vec!["a".to_string(), "region".to_string(), "b".to_string()];
    assert_eq!(select_autofill(&names), vec!["region"]);
    let with_query = ZgMethod {
        query_params: vec![
            zygen::api::ZgQueryParam {
                name: "q1".to_string(),
                description: None,
                required: true,
            },
            zygen::api::ZgQueryParam {
                name: "q2".to_string(),
                description: None,
                required: false,
            },
        ],
        ..ZgMethod::testdata()
    };
    assert_eq!(
        required_params_line(&names, &with_query),
        "\n-p a=\"\" -p b=\"\" -p q1=\"\""
    );
    assert_eq!(build_required_params_string(&ZgMethod::testdata()), "\n-p testresId=\"\"");
    let none = ZgMethod {
        flat_path: "v1/projects/{project}".to_string(),
        ..ZgMethod::testdata()
    };
    assert_eq!(build_required_params_string(&none), "None");
}

#[test]
fn documentation_links_need_a_service_and_a_method() {
    assert_eq!(generate_documentation_link("compute"), None);
    assert_eq!(generate_documentation_link(""), None);
    assert_eq!(
        generate_documentation_link("compute.insert").unwrap(),
        "https://cloud.google.com/s/results/compute/docs?q=%22Method%3A%22%20%20insert"
    );
    assert_eq!(
        generate_documentation_link("a.b.c.d").unwrap(),
        "https://cloud.google.com/s/results/a/docs?q=%22Method%3A%22%20b.c%20d"
    );
    assert_eq!(
        write_documentation_url("svc", "q%20r"),
        "https://cloud.google.com/s/results/svc/docs?q=q%20r"
    );
}

#[test]
fn only_some_verbs_send_a_body() {
    assert!(sends_body("POST"));
    assert!(sends_body("PUT"));
    assert!(sends_body("PATCH"));
    assert!(!sends_body("GET"));
    assert!(!sends_body("DELETE"));
    assert!(!sends_body("post"));
    assert!(!sends_body(""));
}

#[test]
fn groups_that_took_no_part_are_left_out() {
    assert_eq!(
        keep_present(vec![Some("a".to_string()), None, Some("b".to_string()), None]),
        vec!["a", "b"]
    );
    assert!(keep_present(vec![None]).is_empty());
    assert!(keep_present(Vec::new()).is_empty());
}
