use stickerbomb::diagnostics::Diagnostics;
use stickerbomb::events::{EventType, Notification};
use stickerbomb::json::{json_string_object, json_wrap};
use stickerbomb::lease::{lease_params, LeaderGate, LEASE_TTL_SECS, RENEW_INTERVAL_SECS};
use stickerbomb::telemetry::{is_otel_enabled, log_format, LogFormat};
use stickerbomb::text::{count_text, decimal_text};
use stickerbomb::{Error, LabelerSpec, LabelerStatus, Labels, RegoRule, Timestamp};

#[test]
fn test_is_otel_enabled_when_endpoint_set() {
    assert!(is_otel_enabled(Some("http://localhost:4317")));
}

#[test]
fn test_is_otel_disabled_when_endpoint_not_set() {
    assert!(!is_otel_enabled(None));
}

#[test]
fn otel_is_enabled_by_an_empty_endpoint() {
    assert!(is_otel_enabled(Some("")));
}

#[test]
fn log_format_is_json_only_for_json() {
    assert_eq!(log_format(Some("json")), LogFormat::Json);
    assert_eq!(log_format(Some("JSON")), LogFormat::Plain);
    assert_eq!(log_format(Some("text")), LogFormat::Plain);
    assert_eq!(log_format(Some("")), LogFormat::Plain);
    assert_eq!(log_format(None), LogFormat::Plain);
}

#[test]
fn error_messages_carry_the_prefix_of_their_variant() {
    assert_eq!(Error::Discovery("d".to_string()).message(), "d");
    assert_eq!(
        Error::PredicateLoad("l".to_string()).message(),
        "Rego Error: l"
    );
    assert_eq!(
        Error::PredicateEval("e".to_string()).message(),
        "Rego Error: e"
    );
    assert_eq!(Error::Identity("i".to_string()).message(), "i");
    assert_eq!(Error::Api("a".to_string()).message(), "Kube Error: a");
    assert_eq!(
        Error::Serialization("s".to_string()).message(),
        "Serialization Error: s"
    );
    assert_eq!(
        Error::Conversion("c".to_string()).message(),
        "Conversion Error: c"
    );
    assert_eq!(Error::Api(String::new()).message(), "Kube Error: ");
}

#[test]
fn error_clone_keeps_variant_and_text() {
    let error = Error::Serialization("s".to_string());
    match error.clone() {
        Error::Serialization(text) => assert_eq!(text, "s"),
        other => panic!("unexpected clone: {other:?}"),
    }
}

#[test]
fn decimal_text_has_no_leading_zeros() {
    assert_eq!(decimal_text(0), "0");
    assert_eq!(decimal_text(7), "7");
    assert_eq!(decimal_text(10), "10");
    assert_eq!(decimal_text(1234567890), "1234567890");
    assert_eq!(decimal_text(u32::MAX), "4294967295");
}

#[test]
fn count_text_writes_the_sign() {
    assert_eq!(count_text(0), "0");
    assert_eq!(count_text(42), "42");
    assert_eq!(count_text(-1), "-1");
    assert_eq!(count_text(i32::MAX), "2147483647");
    assert_eq!(count_text(i32::MIN), "-2147483648");
}

#[test]
fn notifications_carry_reason_action_and_note() {
    let labeling = Notification::labeling(&Some("Pod".to_string()), "web", "rule");
    assert_eq!(labeling.type_, EventType::Normal);
    assert_eq!(labeling.reason, "AdjustingLabels");
    assert_eq!(labeling.action, "Labeling");
    assert_eq!(
        labeling.note,
        Some("Labeling Pod: web with rule: rule".to_string())
    );

    let nameless = Notification::labeling(&None, "", "");
    assert_eq!(
        nameless.note,
        Some("Labeling resource:  with rule: ".to_string())
    );

    let completed = Notification::completed(&LabelerStatus {
        resources_matched: 12,
        resources_labeled: 5,
        resources_skipped: 7,
    });
    assert_eq!(completed.type_, EventType::Normal);
    assert_eq!(completed.reason, "ReconciliationComplete");
    assert_eq!(completed.action, "Reconcile");
    assert_eq!(
        completed.note,
        Some("Labeled 5 of 12 resources (7 skipped)".to_string())
    );

    let failed = Notification::failed(&Error::PredicateEval("no value".to_string()));
    assert_eq!(failed.type_, EventType::Warning);
    assert_eq!(failed.reason, "ReconciliationFailed");
    assert_eq!(failed.action, "Reconcile");
    assert_eq!(
        failed.note,
        Some("Error: Rego Error: no value".to_string())
    );
}

#[test]
fn lease_is_named_and_held_for_fifteen_seconds() {
    let params = lease_params(Some("replica-0".to_string()));
    assert_eq!(params.holder_id, "replica-0");
    assert_eq!(params.lease_name, "stickerbomb-lease");
    assert_eq!(params.lease_ttl_secs, 15);
    assert_eq!(LEASE_TTL_SECS, 15);

    let params = lease_params(None);
    assert_eq!(params.holder_id, "unknown");
}

#[test]
fn gate_publishes_successful_attempts_only() {
    let mut gate = LeaderGate::new();
    assert!(!gate.is_leader());

    assert_eq!(gate.observe(&Ok(true)), (Some(true), 5));
    assert!(gate.is_leader());

    assert_eq!(
        gate.observe(&Err("lease unreachable".to_string())),
        (None, RENEW_INTERVAL_SECS)
    );
    assert!(gate.is_leader());

    assert_eq!(gate.observe(&Ok(false)), (Some(false), 5));
    assert!(!gate.is_leader());

    assert_eq!(gate.observe(&Err("again".to_string())), (None, 5));
    assert!(!gate.is_leader());
}

#[test]
fn diagnostics_record_the_time_of_success() {
    let start = Timestamp { seconds: 10, nanos: 1 };
    let later = Timestamp { seconds: 20, nanos: 2 };
    let mut diagnostics = Diagnostics::new(start);
    assert_eq!(diagnostics.last_event, start);
    assert_eq!(diagnostics.reporter, "strickerbomb");
    diagnostics.record_success(later);
    assert_eq!(diagnostics.last_event, later);
    assert_eq!(diagnostics.reporter, "strickerbomb");
    let copy = diagnostics.clone();
    assert_eq!(copy.last_event, later);
    assert_eq!(copy.reporter, "strickerbomb");
}

#[test]
fn status_defaults_to_zero() {
    assert_eq!(
        LabelerStatus::default(),
        LabelerStatus {
            resources_matched: 0,
            resources_labeled: 0,
            resources_skipped: 0,
        }
    );
}

#[test]
fn document_needs_a_label_and_a_complete_predicate() {
    let mut labels = Labels::new();
    labels.insert("team".to_string(), "x".to_string());
    let mut spec = LabelerSpec {
        resource_api: "v1".to_string(),
        resource_kind: "Pod".to_string(),
        rego: None,
        labels,
    };
    assert!(spec.validate());

    spec.rego = Some(RegoRule {
        policy: "package p".to_string(),
        query: String::new(),
    });
    assert!(!spec.validate());

    spec.rego = Some(RegoRule {
        policy: String::new(),
        query: "data.p".to_string(),
    });
    assert!(!spec.validate());

    spec.rego = Some(RegoRule {
        policy: "package p".to_string(),
        query: "data.p".to_string(),
    });
    assert!(spec.validate());

    spec.labels = Labels::new();
    assert!(!spec.validate());
}

#[test]
fn predicate_limits_are_counted_in_characters() {
    let rule = RegoRule {
        policy: "p".repeat(65536),
        query: "é".repeat(1024),
    };
    assert!(rule.validate());
    let long_policy = RegoRule {
        policy: "p".repeat(65537),
        query: "q".to_string(),
    };
    assert!(!long_policy.validate());
    let long_query = RegoRule {
        policy: "p".to_string(),
        query: "q".repeat(1025),
    };
    assert!(!long_query.validate());
}

#[test]
fn json_wrappers_build_objects() {
    let pairs = vec![
        ("a".to_string(), "1".to_string()),
        ("a".to_string(), "2".to_string()),
        ("b".to_string(), "".to_string()),
    ];
    let object = json_string_object(&pairs);
    assert_eq!(
        serde_json::to_string(&object).unwrap(),
        r#"{"a":"2","b":""}"#
    );
    let wrapped = json_wrap("outer", object);
    assert_eq!(
        serde_json::to_string(&wrapped).unwrap(),
        r#"{"outer":{"a":"2","b":""}}"#
    );
}
