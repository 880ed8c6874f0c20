use zygen::flavors::update_flavors::{
    transform_compute_parents, transform_sqladmin_parents, transform_storage_parents,
};

fn strings(items: &[&str]) -> Vec<String> {
    items.iter().map(|s| s.to_string()).collect()
}

#[test]
fn test_transform_storage_parents_buckets() {
    let resource_name = "buckets";
    let segments = strings(&["any", "segments", "here"]);
    let result = transform_storage_parents(resource_name, segments);
    assert_eq!(result, strings(&["projects"]));
}

#[test]
fn test_transform_storage_parents_object_access_controls() {
    let resource_name = "objectAccessControls";
    let segments = strings(&["b", "o"]);
    let result = transform_storage_parents(resource_name, segments);
    assert_eq!(result, strings(&["projects", "buckets", "objects"]));
}

#[test]
fn storage_has_fixed_parents_for_some_resources() {
    assert_eq!(
        transform_storage_parents("objects", strings(&["b"])),
        strings(&["projects", "buckets"])
    );
    assert_eq!(
        transform_storage_parents("managedFolders", strings(&[])),
        strings(&["projects", "buckets"])
    );
    assert_eq!(
        transform_storage_parents("projects", strings(&["b", "x"])),
        strings(&["b", "x"])
    );
    assert_eq!(
        transform_storage_parents("notifications", strings(&[])),
        strings(&["projects"])
    );
}

#[test]
fn compute_drops_segments_that_are_no_resources() {
    assert_eq!(
        transform_compute_parents("instances", strings(&["projects", "zones"])),
        strings(&["projects", "zones"])
    );
    assert_eq!(
        transform_compute_parents("firewalls", strings(&["projects", "global"])),
        strings(&["projects"])
    );
    assert_eq!(
        transform_compute_parents("x", strings(&["locations", "global", "a", "locations"])),
        strings(&["a"])
    );
}

#[test]
fn compute_has_fixed_parents_for_some_resources() {
    let any = || strings(&["any", "global"]);
    assert_eq!(
        transform_compute_parents("globalOrganizationOperations", any()),
        strings(&[])
    );
    assert_eq!(
        transform_compute_parents("globalAddresses", any()),
        strings(&["projects"])
    );
    assert_eq!(
        transform_compute_parents("networkFirewallPolicies", any()),
        strings(&["projects"])
    );
    assert_eq!(
        transform_compute_parents("instanceGroupManagerResizeRequests", any()),
        strings(&["projects", "zones", "instanceGroupManagers"])
    );
    assert_eq!(
        transform_compute_parents("zoneOperations", any()),
        strings(&["projects", "zones"])
    );
    assert_eq!(
        transform_compute_parents("regionDisks", any()),
        strings(&["projects", "regions"])
    );
    assert_eq!(
        transform_compute_parents("regions", strings(&["projects"])),
        strings(&["projects"])
    );
}

#[test]
fn sqladmin_drops_the_sql_segment() {
    assert_eq!(
        transform_sqladmin_parents(strings(&["sql", "projects", "instances"])),
        strings(&["projects", "instances"])
    );
    assert_eq!(
        transform_sqladmin_parents(strings(&["projects"])),
        strings(&["projects"])
    );
}
