use serde_json::Value;
use stickerbomb::planner::{merge_patch_body, patch_resource_labels, plan_labels};
use stickerbomb::{Labeler, LabelerSpec, LabelerStatus, Labels, ObjectMeta};

fn labels_of(pairs: &[(&str, &str)]) -> Labels {
    let mut labels = Labels::new();
    for (key, value) in pairs {
        labels.insert(key.to_string(), value.to_string());
    }
    labels
}

fn sorted_pairs(labels: &Labels) -> Vec<(String, String)> {
    let mut pairs = labels.to_pairs();
    pairs.sort();
    pairs
}

fn owned(pairs: &[(&str, &str)]) -> Vec<(String, String)> {
    pairs.iter().map(|(k, v)| (k.to_string(), v.to_string())).collect()
}

fn labeler_with(labels: Labels) -> Labeler {
    Labeler {
        metadata: ObjectMeta::default(),
        spec: LabelerSpec {
            resource_api: "v1".to_string(),
            resource_kind: "Pods".to_string(),
            rego: None,
            labels,
        },
        status: Some(LabelerStatus::default()),
    }
}

fn patch_json(pairs: &[(&str, &str)]) -> Value {
    let mut labels = serde_json::Map::new();
    for (key, value) in pairs {
        labels.insert(key.to_string(), Value::String(value.to_string()));
    }
    let mut metadata = serde_json::Map::new();
    metadata.insert("labels".to_string(), Value::Object(labels));
    let mut root = serde_json::Map::new();
    root.insert("metadata".to_string(), Value::Object(metadata));
    Value::Object(root)
}

fn apply(current: &Labels, plan: &Option<Labels>) -> Labels {
    let mut result = current.clone();
    if let Some(patch) = plan {
        result.extend(patch);
    }
    result
}

#[test]
fn test_patch_empty_resource_labels() {
    let om = ObjectMeta::default();
    let labeler = labeler_with(Labels::default());

    assert_eq!(patch_resource_labels(&labeler, &om), None);
}

#[test]
fn test_patch_resource_labels() {
    let mut labels = Labels::new();
    labels.insert("myLabel".to_string(), "value".to_string());

    let om = ObjectMeta::default();
    let labeler = labeler_with(labels);

    assert_eq!(
        patch_resource_labels(&labeler, &om),
        Some(patch_json(&[("myLabel", "value")]))
    );
}

#[test]
fn patch_keeps_unrelated_labels_and_overrides_collisions() {
    let labeler = labeler_with(labels_of(&[("team", "x"), ("tier", "web")]));
    let mut om = ObjectMeta::default();
    om.labels = Some(labels_of(&[("env", "prod"), ("team", "y")]));

    assert_eq!(
        patch_resource_labels(&labeler, &om),
        Some(patch_json(&[("env", "prod"), ("team", "x"), ("tier", "web")]))
    );
}

#[test]
fn patch_is_none_when_required_labels_are_present() {
    let labeler = labeler_with(labels_of(&[("team", "x")]));
    let mut om = ObjectMeta::default();
    om.labels = Some(labels_of(&[("team", "x"), ("env", "prod")]));

    assert_eq!(patch_resource_labels(&labeler, &om), None);
}

#[test]
fn patch_is_issued_when_a_value_differs() {
    let labeler = labeler_with(labels_of(&[("team", "x")]));
    let mut om = ObjectMeta::default();
    om.labels = Some(labels_of(&[("team", "X")]));

    assert_eq!(
        patch_resource_labels(&labeler, &om),
        Some(patch_json(&[("team", "x")]))
    );
}

#[test]
fn planning_twice_is_planning_once() {
    let required = labels_of(&[("team", "x"), ("tier", "web")]);
    let current = labels_of(&[("env", "prod"), ("team", "y")]);

    let first = plan_labels(&required, Some(&current));
    let once = apply(&current, &first);
    let second = plan_labels(&required, Some(&once));
    let twice = apply(&once, &second);

    assert!(first.is_some());
    assert!(second.is_none());
    assert_eq!(sorted_pairs(&once), sorted_pairs(&twice));
    assert_eq!(
        sorted_pairs(&once),
        owned(&[("env", "prod"), ("team", "x"), ("tier", "web")])
    );
}

#[test]
fn planning_never_removes_a_key() {
    let required = labels_of(&[("team", "x")]);
    let current = labels_of(&[("a", "1"), ("b", "2")]);

    let plan = plan_labels(&required, Some(&current));
    let after = apply(&current, &plan);

    for key in ["a", "b", "team"] {
        assert!(after.contains_key(key), "{key} is missing");
    }
    assert_eq!(after.get("a"), Some(&"1".to_string()));
    assert_eq!(after.get("b"), Some(&"2".to_string()));
    assert_eq!(after.get("team"), Some(&"x".to_string()));
    assert_eq!(after.len(), 3);
}

#[test]
fn planning_without_current_labels_gives_the_required_ones() {
    let required = labels_of(&[("team", "x")]);
    let plan = plan_labels(&required, None).unwrap();
    assert_eq!(sorted_pairs(&plan), owned(&[("team", "x")]));
}

#[test]
fn merge_patch_body_nests_labels_under_metadata() {
    let labels = labels_of(&[("b", "2"), ("a", "1")]);
    let body = merge_patch_body(&labels);
    assert_eq!(body, patch_json(&[("a", "1"), ("b", "2")]));
    assert_eq!(
        serde_json::to_string(&body).unwrap(),
        r#"{"metadata":{"labels":{"a":"1","b":"2"}}}"#
    );
}

#[test]
fn merge_patch_body_of_no_labels_is_an_empty_object() {
    let body = merge_patch_body(&Labels::new());
    assert_eq!(body, patch_json(&[]));
}

#[test]
fn labels_insert_replaces_and_reports_the_old_value() {
    let mut labels = Labels::new();
    assert!(labels.is_empty());
    assert_eq!(labels.insert("k".to_string(), "1".to_string()), None);
    assert_eq!(
        labels.insert("k".to_string(), "2".to_string()),
        Some("1".to_string())
    );
    assert_eq!(labels.len(), 1);
    assert!(!labels.is_empty());
    assert_eq!(labels.get("k"), Some(&"2".to_string()));
    assert_eq!(labels.get("other"), None);
    assert!(!labels.contains_key("other"));
}

#[test]
fn labels_from_pairs_keeps_the_last_value_of_a_key() {
    let labels = Labels::from_pairs(owned(&[("k", "1"), ("j", "0"), ("k", "2")]));
    assert_eq!(sorted_pairs(&labels), owned(&[("j", "0"), ("k", "2")]));
}

#[test]
fn labels_extend_prefers_the_argument() {
    let mut labels = labels_of(&[("a", "1"), ("b", "2")]);
    labels.extend(&labels_of(&[("b", "3"), ("c", "4")]));
    assert_eq!(
        sorted_pairs(&labels),
        owned(&[("a", "1"), ("b", "3"), ("c", "4")])
    );
}

#[test]
fn labels_covers_is_inclusion_with_equal_values() {
    let all = labels_of(&[("a", "1"), ("b", "2")]);
    assert!(all.covers(&labels_of(&[("a", "1")])));
    assert!(all.covers(&Labels::new()));
    assert!(!all.covers(&labels_of(&[("a", "2")])));
    assert!(!all.covers(&labels_of(&[("c", "1")])));
}
