use zygen::api::{ZgApi, ZgMethod, ZgResource};
use zygen::desc::{is_required, says_optional};
use zygen::discovery::{SchemaProperty, SchemaPropertyAnnotation};
use zygen::list::{list_resources, render_resources_tree, ListArgs};

fn setup_resources() -> Vec<ZgResource> {
    vec![ZgResource {
        name: "projects".to_string(),
        parent_path: None,
        path: Some("container.projects".to_string()),
        methods: vec![],
        resources: Some(vec![
            ZgResource {
                name: "zones".to_string(),
                parent_path: Some("container.projects".to_string()),
                path: Some("container.projects.zones".to_string()),
                methods: vec![],
                resources: Some(vec![ZgResource {
                    name: "clusters".to_string(),
                    parent_path: Some("container.projects.zones".to_string()),
                    path: Some("container.projects.zones.clusters".to_string()),
                    ..ZgResource::testdata()
                }]),
            },
            ZgResource {
                name: "locations".to_string(),
                parent_path: Some("container.projects".to_string()),
                path: Some("container.projects.locations".to_string()),
                methods: vec![],
                resources: Some(vec![ZgResource {
                    name: "clusters".to_string(),
                    parent_path: Some("container.projects.locations".to_string()),
                    path: Some("container.projects.locations.clusters".to_string()),
                    ..ZgResource::testdata()
                }]),
            },
        ]),
    }]
}

#[test]
fn test_list_resources() {
    let api = ZgApi {
        resources: setup_resources(),
        ..ZgApi::testdata()
    };

    let output = list_resources(
        &api,
        &ListArgs {
            ..Default::default()
        },
    )
    .expect("list_resources failed");

    let expected = "projects\n  zones\n    clusters\n  locations\n    clusters\n";
    assert_eq!(output, expected)
}

#[test]
fn test_is_required_description() {
    // Case where description contains "Required"
    let prop = SchemaProperty {
        description: Some("Fully qualified name. Required when ...".to_string()),
        read_only: false,
        ..SchemaProperty::testdata()
    };
    assert!(
        is_required(
            &ZgMethod::testdata(),
            &String::from("myfield"),
            &prop,
            false
        ),
        "Expected true due to 'Required' in description."
    );

    let prop2 = SchemaProperty {
        description: Some("Identifier. The resource name of ...".to_string()),
        read_only: false,
        ..SchemaProperty::testdata()
    };

    assert!(
        is_required(
            &ZgMethod::testdata(),
            &String::from("myfield2"),
            &prop2,
            false
        ),
        "Expected true as description starts with 'Identifier.'"
    );
}

#[test]
fn test_is_required_annotations_match() {
    // Case where annotations contain the method ID "compute.instances.insert"
    let prop = SchemaProperty {
        description: Some("The name of the resource.".to_string()),
        read_only: false,
        annotations: Some(SchemaPropertyAnnotation {
            required: vec!["compute.instances.insert".to_string()],
        }),
        ..SchemaProperty::testdata()
    };

    let meth = &ZgMethod {
        id: "compute.projects.zones.instances.insert".to_string(),
        original_id: Some("compute.instances.insert".to_string()),
        ..ZgMethod::testdata()
    };

    assert!(
        is_required(meth, &String::from("myfield"), &prop, false),
        "Expected true due to matching annotation method ID."
    );
}

#[test]
fn properties_that_need_not_be_sent() {
    let method = ZgMethod::testdata();
    let field = String::from("f");
    let with = |description: Option<&str>, read_only: bool| SchemaProperty {
        description: description.map(|s| s.to_string()),
        read_only,
        ..SchemaProperty::testdata()
    };
    // read only, whatever the description says
    assert!(!is_required(&method, &field, &with(Some("Required."), true), true));
    // alone in its schema
    assert!(is_required(&method, &field, &with(Some("Anything."), false), true));
    assert!(is_required(&method, &field, &with(None, false), true));
    assert!(!is_required(&method, &field, &with(Some("OPTIONAL. Anything."), false), true));
    assert!(!is_required(
        &method,
        &field,
        &with(Some("Output Only. Required for nothing."), false),
        true
    ));
    // one of several
    assert!(!is_required(&method, &field, &with(Some("Anything."), false), false));
    assert!(!is_required(&method, &field, &with(None, false), false));
    assert!(!is_required(
        &method,
        &field,
        &with(Some("Optional. Required in some cases."), false),
        false
    ));
    assert!(!is_required(&method, &field, &with(Some("An Identifier. Of sorts."), false), false));
    assert!(!is_required(&method, &field, &with(Some("required"), false), false));
    // the annotation names the id that the document gave
    let annotated = SchemaProperty {
        annotations: Some(SchemaPropertyAnnotation {
            required: vec!["testapi.projects.testres.list".to_string()],
        }),
        ..with(Some("A name."), false)
    };
    assert!(!is_required(&method, &field, &annotated, false));
    assert!(says_optional("optional. a thing"));
    assert!(says_optional("output only"));
    assert!(!says_optional("Optional"));
    assert!(!says_optional("an optional thing"));
}

#[test]
fn trees_are_rendered_with_the_given_indent() {
    let resources = setup_resources();
    assert_eq!(
        render_resources_tree(&resources, "> "),
        "> projects\n>   zones\n>     clusters\n>   locations\n>     clusters\n"
    );
    assert_eq!(render_resources_tree(&Vec::new(), "  "), "");
    let api = ZgApi {
        resources,
        ..ZgApi::testdata()
    };
    let long = ListArgs {
        long: true,
        ..Default::default()
    };
    assert!(list_resources(&api, &long).is_none());
}
