use stickerbomb::discovery::{
    discover_target_resources, kinds_match, parse_api_version, resolve_kind, CatalogEntry,
};
use stickerbomb::{Error, Labeler, LabelerSpec, LabelerStatus, Labels, ObjectMeta};

fn entry(kind: &str, plural: &str, namespaced: bool) -> CatalogEntry {
    CatalogEntry {
        kind: kind.to_string(),
        plural: plural.to_string(),
        namespaced,
        verbs: ["get", "list", "watch", "create", "update", "patch", "delete"]
            .iter()
            .map(|verb| verb.to_string())
            .collect(),
    }
}

fn labeler(api: &str, kind: &str) -> Labeler {
    Labeler {
        metadata: ObjectMeta::default(),
        spec: LabelerSpec {
            resource_api: api.to_string(),
            resource_kind: kind.to_string(),
            rego: None,
            labels: Labels::default(),
        },
        status: Some(LabelerStatus::default()),
    }
}

#[test]
fn test_discover_target_resources_with_mock() {
    let labeler = labeler("v1", "Pod");
    let catalog = vec![entry("Pod", "pods", true)];

    let result = discover_target_resources(&labeler, &catalog);
    assert!(result.is_ok());

    let target = result.unwrap();
    assert_eq!(target.group, "");
    assert_eq!(target.version, "v1");
    assert_eq!(target.kind, "Pod");
    assert_eq!(target.plural, "pods");
    assert!(target.namespaced);
    assert_eq!(
        target.verbs,
        vec!["get", "list", "watch", "create", "update", "patch", "delete"]
    );
}

#[test]
fn group_and_version_are_split_at_the_first_slash() {
    let gv = parse_api_version("apps/v1").unwrap();
    assert_eq!((gv.group.as_str(), gv.version.as_str()), ("apps", "v1"));

    let gv = parse_api_version("cert-manager.io/v1").unwrap();
    assert_eq!(
        (gv.group.as_str(), gv.version.as_str()),
        ("cert-manager.io", "v1")
    );

    let gv = parse_api_version("a/b/c").unwrap();
    assert_eq!((gv.group.as_str(), gv.version.as_str()), ("a", "b/c"));
}

#[test]
fn version_without_group_belongs_to_the_core_group() {
    let gv = parse_api_version("v1").unwrap();
    assert_eq!((gv.group.as_str(), gv.version.as_str()), ("", "v1"));

    let gv = parse_api_version("not a version").unwrap();
    assert_eq!(
        (gv.group.as_str(), gv.version.as_str()),
        ("", "not a version")
    );

    let gv = parse_api_version("").unwrap();
    assert_eq!((gv.group.as_str(), gv.version.as_str()), ("", ""));
}

#[test]
fn kinds_match_without_regard_to_ascii_case() {
    assert!(kinds_match("Pod", "Pod"));
    assert!(kinds_match("Pod", "pod"));
    assert!(kinds_match("POD", "pOd"));
    assert!(kinds_match("", ""));
    assert!(!kinds_match("Pod", "Pods"));
    assert!(!kinds_match("Pod", "Pot"));
    assert!(!kinds_match("Pod", ""));
    assert!(!kinds_match("K8s", "K9s"));
    assert!(!kinds_match("[", "{"));
    assert!(!kinds_match("@", "`"));
    assert!(!kinds_match("É", "é"));
}

#[test]
fn first_entry_of_the_kind_is_resolved() {
    let catalog = vec![
        entry("Service", "services", true),
        entry("pod", "lowerpods", true),
        entry("Pod", "pods", true),
    ];
    assert_eq!(resolve_kind(&catalog, "Pod"), Some(1));
    assert_eq!(resolve_kind(&catalog, "SERVICE"), Some(0));
    assert_eq!(resolve_kind(&catalog, "Node"), None);
    assert_eq!(resolve_kind(&Vec::new(), "Pod"), None);
}

#[test]
fn resolved_target_takes_group_version_and_entry() {
    let labeler = labeler("apps/v1", "deployment");
    let catalog = vec![
        entry("StatefulSet", "statefulsets", true),
        entry("Deployment", "deployments", true),
    ];
    let target = discover_target_resources(&labeler, &catalog).unwrap();
    assert_eq!(target.group, "apps");
    assert_eq!(target.version, "v1");
    assert_eq!(target.kind, "Deployment");
    assert_eq!(target.plural, "deployments");
    assert!(target.namespaced);
}

#[test]
fn cluster_scoped_target_is_reported_as_such() {
    let labeler = labeler("v1", "Namespace");
    let catalog = vec![entry("Namespace", "namespaces", false)];
    let target = discover_target_resources(&labeler, &catalog).unwrap();
    assert!(!target.namespaced);
}

#[test]
fn unknown_kind_is_a_discovery_failure() {
    let labeler = labeler("v1", "Pods");
    let catalog = vec![entry("Pod", "pods", true)];
    match discover_target_resources(&labeler, &catalog) {
        Err(Error::Discovery(text)) => assert_eq!(text, "Unable to find API kind"),
        other => panic!("unexpected outcome: {other:?}"),
    }
}
