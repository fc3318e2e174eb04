use llm_wiki_desktop::relations::{prerequisite_cycle, relationship_endpoints};
use llm_wiki_desktop::task::{
    content_hash, readiness, validate_relationship, validate_state_transition, ReadinessOverride,
};

#[test]
fn lifecycle_requires_explicit_reopen() {
    assert_eq!(
        validate_state_transition("task", "in_progress").unwrap(),
        "in_progress"
    );
    assert!(validate_state_transition("completed", "task").is_err());
    assert_eq!(
        validate_state_transition("completed", "reopen").unwrap(),
        "in_progress"
    );
}

#[test]
fn relationship_rejects_self() {
    assert!(validate_relationship("a", "a", "related").is_err());
}

#[test]
fn transition_errors_name_both_states() {
    assert_eq!(
        validate_state_transition("task", "completed").unwrap_err(),
        "transition_invalid: task to completed"
    );
    assert_eq!(
        validate_state_transition("in_progress", "completed").unwrap(),
        "completed"
    );
}

#[test]
fn unsupported_relationship_kinds_are_refused() {
    assert_eq!(
        validate_relationship("a", "b", "blocks").unwrap_err(),
        "relationship_invalid: unsupported relationship"
    );
    assert!(validate_relationship("a", "b", "split_from").is_ok());
}

#[test]
fn related_links_are_stored_in_byte_order() {
    assert_eq!(
        relationship_endpoints("b", "a", "related").unwrap(),
        ("a".to_string(), "b".to_string())
    );
    assert_eq!(
        relationship_endpoints("a", "b", "related").unwrap(),
        ("a".to_string(), "b".to_string())
    );
    assert_eq!(
        relationship_endpoints("b", "a", "prerequisite").unwrap(),
        ("b".to_string(), "a".to_string())
    );
    assert_eq!(
        relationship_endpoints("a", "a", "related").unwrap_err(),
        "relationship_invalid: self links are not allowed"
    );
}

#[test]
fn prerequisite_cycles_are_detected_through_chains() {
    let edges = vec![
        ("a".to_string(), "b".to_string()),
        ("b".to_string(), "c".to_string()),
        ("x".to_string(), "y".to_string()),
    ];
    // Adding c -> a would close a -> b -> c -> a.
    assert!(prerequisite_cycle(&edges, "c", "a"));
    // Adding a -> c only shortcuts the chain.
    assert!(!prerequisite_cycle(&edges, "a", "c"));
    assert!(!prerequisite_cycle(&edges, "y", "a"));
    assert!(prerequisite_cycle(&edges, "y", "x"));
}

#[test]
fn content_hash_joins_fields_with_unit_separator() {
    // SHA-256 of "a\u{1f}b".
    let joined = content_hash(&["a", "b"]);
    assert_eq!(joined.len(), 64);
    assert_ne!(joined, content_hash(&["ab"]));
    assert_eq!(
        content_hash(&[""]),
        "e3b0c44298fc1c149afbf4c8996fb92427ae41e4649b934ca495991b7852b855"
    );
}

#[test]
fn readiness_resolves_present_fields_and_honours_decisions() {
    let values = vec!["Ship it".to_string(), String::new(), "Tests pass".to_string()];
    let decisions = vec![
        None,
        None,
        Some(ReadinessOverride {
            status: "not_applicable".to_string(),
            reason: "Covered elsewhere".to_string(),
            evidence_refs: "[]".to_string(),
        }),
        Some(ReadinessOverride {
            status: "calculated".to_string(),
            reason: "Blocked".to_string(),
            evidence_refs: "[\"e\"]".to_string(),
        }),
    ];
    let entries = readiness(&values, &decisions);
    assert_eq!(entries.len(), 4);
    assert_eq!(entries[0].key, "outcome");
    assert_eq!(entries[0].status, "resolved");
    assert_eq!(entries[1].status, "missing");
    assert_eq!(entries[2].status, "not_applicable");
    assert_eq!(entries[2].reason, "Covered elsewhere");
    assert_eq!(entries[3].key, "prerequisites");
    assert_eq!(entries[3].status, "missing");
    let plain = readiness(&values, &vec![None, None, None, None]);
    assert_eq!(plain[3].status, "resolved");
    assert_eq!(plain[3].reason, "No explicit prerequisite");
}
