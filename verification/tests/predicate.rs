use stickerbomb::predicate::{
    evaluate_candidate, handle_rego_rule, input_outcome, load_outcome, predicate_request,
    query_outcome,
};
use stickerbomb::{Error, RegoRule};

fn pod_rule() -> RegoRule {
    RegoRule {
        policy: r#"package stickerbomb
default allow = false
allow if {
    input.spec.resourceKind == "Pod"
}"#
        .to_string(),
        query: "data.stickerbomb.allow".to_string(),
    }
}

#[test]
fn test_handle_rego_rule() {
    let mut engine = regorus::Engine::new();
    let uid = "test";
    let rule = pod_rule();

    assert_eq!(handle_rego_rule(&mut engine, None, uid).unwrap(), ());
    assert_eq!(handle_rego_rule(&mut engine, Some(&rule), uid).unwrap(), ());
    assert_eq!(engine.get_policies().unwrap().len(), 1);
}

#[test]
fn rule_is_loaded_once_under_the_path_of_the_uid() {
    let mut engine = regorus::Engine::new();
    let rule = pod_rule();

    handle_rego_rule(&mut engine, Some(&rule), "abc").unwrap();
    handle_rego_rule(&mut engine, Some(&rule), "abc").unwrap();

    let policies = engine.get_policies().unwrap();
    assert_eq!(policies.len(), 1);
    assert_eq!(policies[0].get_path(), "abc.rego");
    assert_eq!(policies[0].get_contents(), &rule.policy);
}

#[test]
fn rules_of_two_documents_are_both_loaded() {
    let mut engine = regorus::Engine::new();
    let first = pod_rule();
    let second = RegoRule {
        policy: "package other\nallow := true".to_string(),
        query: "data.other.allow".to_string(),
    };

    handle_rego_rule(&mut engine, Some(&first), "a").unwrap();
    handle_rego_rule(&mut engine, Some(&second), "b").unwrap();

    let policies = engine.get_policies().unwrap();
    assert_eq!(policies.len(), 2);
    assert_eq!(policies[0].get_path(), "a.rego");
    assert_eq!(policies[1].get_path(), "b.rego");
}

#[test]
fn no_rule_loads_nothing() {
    let mut engine = regorus::Engine::new();
    handle_rego_rule(&mut engine, None, "abc").unwrap();
    assert_eq!(engine.get_policies().unwrap().len(), 0);
}

#[test]
fn malformed_rule_source_is_a_load_failure() {
    let mut engine = regorus::Engine::new();
    let rule = RegoRule {
        policy: "this is not rego {".to_string(),
        query: "data.x".to_string(),
    };
    let outcome = handle_rego_rule(&mut engine, Some(&rule), "abc");
    assert!(matches!(outcome, Err(Error::PredicateLoad(_))));
}

#[test]
fn candidate_without_rule_is_eligible() {
    let mut engine = regorus::Engine::new();
    let document = Ok("{}".to_string());
    assert!(matches!(
        evaluate_candidate(&mut engine, None, &document),
        Ok(true)
    ));
    let unreadable = Err("broken".to_string());
    assert!(matches!(
        evaluate_candidate(&mut engine, None, &unreadable),
        Ok(true)
    ));
}

#[test]
fn rule_decides_by_the_input_document() {
    let mut engine = regorus::Engine::new();
    let rule = pod_rule();
    handle_rego_rule(&mut engine, Some(&rule), "abc").unwrap();

    let pod = Ok(r#"{"spec":{"resourceKind":"Pod"}}"#.to_string());
    let other = Ok(r#"{"spec":{"resourceKind":"Service"}}"#.to_string());

    assert!(matches!(
        evaluate_candidate(&mut engine, Some(&rule), &pod),
        Ok(true)
    ));
    assert!(matches!(
        evaluate_candidate(&mut engine, Some(&rule), &other),
        Ok(false)
    ));
    assert!(matches!(
        evaluate_candidate(&mut engine, Some(&rule), &pod),
        Ok(true)
    ));
    assert_eq!(engine.get_policies().unwrap().len(), 1);
}

#[test]
fn query_that_is_not_boolean_is_an_evaluation_failure() {
    let mut engine = regorus::Engine::new();
    let rule = RegoRule {
        policy: "package p\nvalue := 3".to_string(),
        query: "data.p.value".to_string(),
    };
    handle_rego_rule(&mut engine, Some(&rule), "abc").unwrap();
    let document = Ok("{}".to_string());
    assert!(matches!(
        evaluate_candidate(&mut engine, Some(&rule), &document),
        Err(Error::PredicateEval(_))
    ));
}

#[test]
fn malformed_input_is_a_serialization_failure() {
    let mut engine = regorus::Engine::new();
    let rule = pod_rule();
    handle_rego_rule(&mut engine, Some(&rule), "abc").unwrap();
    let document = Ok("{not json".to_string());
    assert!(matches!(
        evaluate_candidate(&mut engine, Some(&rule), &document),
        Err(Error::Serialization(_))
    ));
}

#[test]
fn candidate_that_was_not_serialized_is_a_serialization_failure() {
    let mut engine = regorus::Engine::new();
    let rule = pod_rule();
    handle_rego_rule(&mut engine, Some(&rule), "abc").unwrap();
    let document = Err("key must be a string".to_string());
    match evaluate_candidate(&mut engine, Some(&rule), &document) {
        Err(Error::Serialization(text)) => assert_eq!(text, "key must be a string"),
        other => panic!("unexpected outcome: {other:?}"),
    }
}

#[test]
fn outcomes_map_each_result() {
    assert!(matches!(load_outcome(Ok("data.p".to_string())), Ok(())));
    match load_outcome(Err("bad".to_string())) {
        Err(Error::PredicateLoad(text)) => assert_eq!(text, "bad"),
        other => panic!("unexpected outcome: {other:?}"),
    }
    assert!(matches!(input_outcome(Ok(())), Ok(())));
    match input_outcome(Err("bad".to_string())) {
        Err(Error::Serialization(text)) => assert_eq!(text, "bad"),
        other => panic!("unexpected outcome: {other:?}"),
    }
    assert!(matches!(query_outcome(Ok(true)), Ok(true)));
    assert!(matches!(query_outcome(Ok(false)), Ok(false)));
    match query_outcome(Err("bad".to_string())) {
        Err(Error::PredicateEval(text)) => assert_eq!(text, "bad"),
        other => panic!("unexpected outcome: {other:?}"),
    }
}

#[test]
fn request_hands_over_the_document_and_the_query() {
    let rule = pod_rule();
    let document = Ok(r#"{"spec":{"resourceKind":"Pod"}}"#.to_string());
    let request = predicate_request(&rule, &document).unwrap();
    assert_eq!(request.input, r#"{"spec":{"resourceKind":"Pod"}}"#);
    assert_eq!(request.query, "data.stickerbomb.allow");

    let unwritten = Err("key must be a string".to_string());
    match predicate_request(&rule, &unwritten) {
        Err(Error::Serialization(text)) => assert_eq!(text, "key must be a string"),
        other => panic!("unexpected outcome: {other:?}"),
    }
}

#[test]
fn refused_rule_source_reports_the_reason_of_the_engine() {
    let source = "this is not rego {".to_string();
    let mut reference = regorus::Engine::new();
    let reason = reference
        .add_policy("abc.rego".to_string(), source.clone())
        .unwrap_err()
        .to_string();

    let mut engine = regorus::Engine::new();
    let rule = RegoRule {
        policy: source,
        query: "data.x".to_string(),
    };
    match handle_rego_rule(&mut engine, Some(&rule), "abc") {
        Err(Error::PredicateLoad(text)) => assert_eq!(text, reason),
        other => panic!("unexpected outcome: {other:?}"),
    }
}

#[test]
fn refused_input_reports_the_reason_of_the_engine() {
    let mut reference = regorus::Engine::new();
    let reason = reference.set_input_json("{not json").unwrap_err().to_string();

    let mut engine = regorus::Engine::new();
    let rule = pod_rule();
    handle_rego_rule(&mut engine, Some(&rule), "abc").unwrap();
    let document = Ok("{not json".to_string());
    match evaluate_candidate(&mut engine, Some(&rule), &document) {
        Err(Error::Serialization(text)) => assert_eq!(text, reason),
        other => panic!("unexpected outcome: {other:?}"),
    }
}

#[test]
fn rule_of_the_old_dialect_is_refused_by_a_new_engine() {
    let mut engine = regorus::Engine::new();
    let rule = RegoRule {
        policy: "package p\nallow { 1 < 2 }".to_string(),
        query: "data.p.allow".to_string(),
    };
    assert!(matches!(
        handle_rego_rule(&mut engine, Some(&rule), "abc"),
        Err(Error::PredicateLoad(_))
    ));
}
