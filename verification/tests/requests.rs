use llm_wiki_desktop::evidence::Json;
use llm_wiki_desktop::requests::{
    advance_evidence, advisory_lists, append_request, evidence_ref, legacy_recovery,
    request_field, LegacyRecovery,
};
use llm_wiki_desktop::work_state::EventKind;

fn text(s: &str) -> Json {
    Json::Text(s.to_string())
}

fn obj(fields: Vec<(&str, Json)>) -> Json {
    Json::Object(fields.into_iter().map(|(k, v)| (k.to_string(), v)).collect())
}

fn append_input(event: Json) -> Json {
    obj(vec![
        ("operationId", text("op-1")),
        ("sessionId", text("session-1")),
        ("event", event),
    ])
}

#[test]
fn appended_events_need_a_known_kind_and_no_authority_fields() {
    let ok = append_request(&append_input(obj(vec![("kind", text("work_log_checkpoint"))])), Some(3)).unwrap();
    assert_eq!(ok.kind, EventKind::WorkLogCheckpoint);
    assert_eq!(ok.operation_id, "op-1");
    assert_eq!(ok.session_id, "session-1");
    assert_eq!(ok.expected_head_revision, 3);
    let missing = append_request(&obj(vec![("operationId", text("op"))]), Some(1)).unwrap_err();
    assert_eq!(missing.message, "event is required");
    assert_eq!(
        append_request(&append_input(text("not an object")), Some(1)).unwrap_err().message,
        "event is required"
    );
    assert_eq!(
        append_request(&append_input(obj(vec![])), Some(1)).unwrap_err().message,
        "event.kind is required"
    );
    assert_eq!(
        append_request(&append_input(obj(vec![("kind", text("approval"))])), Some(1)).unwrap_err().message,
        "Unsupported event kind"
    );
    let authority = obj(vec![("kind", text("problem_draft")), ("approved", Json::Bool(true))]);
    assert_eq!(
        append_request(&append_input(authority), Some(1)).unwrap_err().message,
        "Caller authority fields are not accepted"
    );
    assert_eq!(
        append_request(&append_input(obj(vec![("kind", text("problem_draft"))])), None).unwrap_err().message,
        "expectedHeadRevision is required"
    );
    let no_session = obj(vec![("operationId", text("op")), ("event", obj(vec![("kind", text("problem_draft"))]))]);
    assert_eq!(append_request(&no_session, Some(1)).unwrap_err().message, "sessionId is required");
}

#[test]
fn advisories_bound_their_findings_and_evidence() {
    let items = |n: usize| Json::Array((0..n).map(|_| Json::Null).collect());
    assert_eq!(advisory_lists(&obj(vec![("findings", items(2)), ("evidenceRefs", items(0))])).unwrap(), (2, 0));
    assert_eq!(advisory_lists(&obj(vec![("evidenceRefs", items(0))])).unwrap_err().message, "findings is required");
    assert_eq!(advisory_lists(&obj(vec![("findings", items(0))])).unwrap_err().message, "evidenceRefs is required");
    assert_eq!(
        advisory_lists(&obj(vec![("findings", text("x")), ("evidenceRefs", items(0))])).unwrap_err().message,
        "findings must be an array"
    );
    assert_eq!(
        advisory_lists(&obj(vec![("findings", items(51)), ("evidenceRefs", items(0))])).unwrap_err().message,
        "Too many advisory findings or evidence references"
    );
    assert!(advisory_lists(&obj(vec![("findings", items(50)), ("evidenceRefs", items(100))])).is_ok());
    let r = evidence_ref(&obj(vec![("evidenceId", text("ev_1")), ("revision", text("h"))])).unwrap();
    assert_eq!(r.evidence_id, "ev_1");
    assert_eq!(evidence_ref(&obj(vec![("evidenceId", text("ev_1"))])).unwrap_err().message, "revision is required");
    assert_eq!(request_field(&obj(vec![("taskId", text("  "))]), "taskId").unwrap_err().message, "taskId is required");
}

#[test]
fn accepted_conflict_advances_read_their_cited_evidence() {
    let cited = |items: Vec<Json>| {
        obj(vec![
            ("action", text("resolve_conflict")),
            ("proposedPayload", obj(vec![("evidence", Json::Array(items))])),
        ])
    };
    let good = obj(vec![("evidenceId", text("ev_1")), ("revision", text("r"))]);
    let refs = advance_evidence(&cited(vec![good]), "accept").unwrap();
    assert_eq!(refs.len(), 1);
    assert_eq!(refs[0].evidence_id, "ev_1");
    assert!(advance_evidence(&cited(vec![obj(vec![])]), "reject").unwrap().is_empty());
    assert_eq!(
        advance_evidence(&cited(vec![obj(vec![("evidenceId", text("ev_2"))])]), "accept").unwrap_err().message,
        "revision is required"
    );
    let other = obj(vec![("action", text("task.create")), ("proposedPayload", obj(vec![("evidence", Json::Array(vec![obj(vec![])]))]))]);
    assert!(advance_evidence(&other, "accept").unwrap().is_empty());
}

#[test]
fn legacy_publications_recover_only_from_their_approved_state() {
    assert_eq!(legacy_recovery(true, "published", None).unwrap(), LegacyRecovery::Withdraw);
    assert_eq!(legacy_recovery(true, "draft", None).unwrap_err().code, "workflow_precondition");
    assert_eq!(legacy_recovery(false, "withdrawn", Some("a.md")).unwrap_err().message, "Withdrawn legacy draft cannot be republished");
    assert_eq!(legacy_recovery(false, "draft", None).unwrap_err().message, "Approved legacy publication path is unavailable");
    assert_eq!(legacy_recovery(false, "draft", Some("a.md")).unwrap(), LegacyRecovery::Publish);
}
