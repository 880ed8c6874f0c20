use zygen::supported_apis::{lookup_api, standalone_apis, supported_apis, SupportedApi};

#[test]
fn test_lookup_api() {
    // the expected answers, in short
    fn ans(n: &str, v: &str) -> Option<(String, String)> {
        Some((n.to_string(), v.to_string()))
    }

    // Valid cases
    assert_eq!(lookup_api("container:v1"), ans("container", "v1"));
    assert_eq!(lookup_api("container"), ans("container", "v1"));
    assert_eq!(lookup_api("gke"), ans("container", "v1"));
    assert_eq!(lookup_api("gke:v1"), ans("container", "v1"));

    // Invalid name
    assert_eq!(lookup_api("unknown"), None);
    assert_eq!(lookup_api("unknown:v1"), None);

    // Invalid versions
    assert_eq!(lookup_api("container:v9999"), None);
    assert_eq!(lookup_api("container:heyhey"), None);
}

#[test]
fn test_alias_overlaps() {
    let all_services = supported_apis(true);

    // Map to track all names and aliases to their corresponding service names
    let mut name_to_service = std::collections::HashMap::new();

    for service in all_services.iter() {
        // Check for duplicate service names
        if let Some(existing_service) =
            name_to_service.insert(service.name.clone(), service.name.clone())
        {
            if existing_service != service.name {
                panic!(
                    "Service name '{}' conflicts with another service name '{}'",
                    service.name, existing_service
                );
            }
        }

        // Check for overlapping aliases
        for alias in service.aliases.iter() {
            if let Some(existing_service) =
                name_to_service.insert(alias.clone(), service.name.clone())
            {
                if existing_service != service.name {
                    panic!(
                        "Alias '{}' for service '{}' conflicts with alias or name of another service '{}'",
                        alias, service.name, existing_service
                    );
                }
            }
        }
    }
}

#[test]
fn the_catalog_has_its_three_parts() {
    let some = supported_apis(false);
    let all = supported_apis(true);
    let standalone = standalone_apis();
    assert_eq!(some.len(), 91);
    assert_eq!(all.len(), 156);
    assert_eq!(standalone.len(), 1);
    assert_eq!(some[0].name, "accessapproval");
    assert_eq!(some[0].aliases, vec!["access-approval"]);
    assert_eq!(some[89].name, "workstations");
    assert_eq!(some[90].name, "generativelanguage");
    assert_eq!(all[90].name, "advisorynotifications");
    assert_eq!(all[155].name, "generativelanguage");
    assert_eq!(standalone[0].title, "Gemini");
    assert_eq!(standalone[0].versions, vec!["v1beta"]);
    let hub = all.iter().find(|a| a.name == "gkehub").unwrap();
    assert_eq!(hub.category, "Compute");
    assert_eq!(hub.aliases, vec!["gke-hub", "fleet"]);
    assert_eq!(
        hub.versions,
        vec!["v2", "v1beta1", "v2beta", "v2alpha", "v1", "v1beta", "v1alpha"]
    );
    assert_eq!(hub.default_version(), "v2");
    assert!(all.iter().all(|a| !a.versions.is_empty()));
}

#[test]
fn lookup_takes_the_first_version_by_default() {
    let sql = lookup_api("sql").unwrap();
    assert_eq!(sql, ("sqladmin".to_string(), "v1beta4".to_string()));
    assert_eq!(
        lookup_api("sql:v1"),
        Some(("sqladmin".to_string(), "v1".to_string()))
    );
    assert_eq!(
        lookup_api("gemini"),
        Some(("generativelanguage".to_string(), "v1beta".to_string()))
    );
    // a service of the second rank
    assert_eq!(
        lookup_api("billing:v1"),
        Some(("cloudbilling".to_string(), "v1".to_string()))
    );
    assert_eq!(lookup_api("container:"), None);
    assert_eq!(lookup_api(""), None);
    assert_eq!(lookup_api("container:v1:x"), None);
}

#[test]
fn services_are_built_step_by_step() {
    let api: SupportedApi = SupportedApi::new("name", "Title", "Category")
        .alias("a")
        .version("v1")
        .version("v2");
    assert_eq!(api.name, "name");
    assert_eq!(api.title, "Title");
    assert_eq!(api.category, "Category");
    assert_eq!(api.aliases, vec!["a"]);
    assert_eq!(api.versions, vec!["v1", "v2"]);
    assert_eq!(api.clone().default_version(), "v1");
}
