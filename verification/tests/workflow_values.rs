use llm_wiki_desktop::codex::{
    advance_server, answers_response, approval_response, execution_error, initialization_failure,
    safe_rpc_error, start_step, stopped_server, validate_answers, ApprovalAnswer, FormalQuestion,
    ServerEvent, StartStep, SubmittedAnswers,
};
use llm_wiki_desktop::digest::{hash_text, request_hash};
use llm_wiki_desktop::evidence::Json;
use llm_wiki_desktop::overview::{
    board_document, board_revision, cursor_bytes, next_cursor, order_items, snapshot_revision,
    OverviewItem,
};
use llm_wiki_desktop::review::{check_task_problem_link, writes_entity, ActionStep};
use llm_wiki_desktop::run::{
    halt_unfinished_runs, imported_session, DispatchState, RunError, RunEvent, RunState, RunStatus,
};
use llm_wiki_desktop::review_preview::knowledge_subject;
use llm_wiki_desktop::session::{
    append_request_document, declined_answer, existing_session_answer, open_request_document,
    open_review, open_session_step, opened_session, operation_replay, preview_answer,
    replay_response, resource_uri, ExistingSession, OpenStep, ReviewStage, ReviewStep,
    StoredReview,
};
use llm_wiki_desktop::task::content_hash;
use llm_wiki_desktop::task_ops::task_operation_replay;
use llm_wiki_desktop::task_context::task_context;

fn entry(kind: &str, id: &str, at: &str) -> OverviewItem {
    OverviewItem {
        entity_ref: Some(id.to_string()),
        kind: kind.to_string(),
        state: "active".to_string(),
        updated_at: Some(at.to_string()),
    }
}

#[test]
fn overview_ties_keep_their_input_order() {
    let items = vec![
        entry("capture", "same", "2024-01-01"),
        entry("task", "newer", "2024-03-01"),
        entry("problem", "same", "2024-01-01"),
        entry("feature", "same", "2024-01-01"),
    ];
    let ordered = order_items(items);
    let kinds: Vec<&str> = ordered.iter().map(|i| i.kind.as_str()).collect();
    assert_eq!(kinds, vec!["task", "capture", "problem", "feature"]);
}

#[test]
fn task_proposals_link_only_an_exact_existing_problem_revision() {
    assert_eq!(check_task_problem_link(None, None, false).unwrap(), None);
    let missing = check_task_problem_link(Some("p"), None, true).unwrap_err();
    assert_eq!(missing.code, "invalid_input");
    assert_eq!(missing.message, "Task proposal requires an exact Problem revision");
    let gone = check_task_problem_link(Some("p"), Some(3), false).unwrap_err();
    assert_eq!(gone.code, "not_found_or_not_visible");
    assert_eq!(gone.message, "Problem revision is unavailable");
    assert_eq!(check_task_problem_link(Some("p"), Some(3), true).unwrap(), Some(("p".to_string(), 3)));
    assert!(!writes_entity(ActionStep::AcceptCheckpoint));
    assert!(writes_entity(ActionStep::CreateTask));
}

#[test]
fn authentication_initialization_failure_is_safe_and_not_reused() {
    let error = initialization_failure(&safe_rpc_error(Some("authentication required")));
    assert_eq!(error, "Codex app-server initialization failed: authentication required");
    assert!(!error.contains("do-not-expose"));
    assert_eq!(execution_error(&error).0, "authentication_required");
    let other = initialization_failure("handshake closed");
    assert_eq!(execution_error(&other).0, "initialization_failed");
}

fn run_in(status: RunStatus, dispatch: DispatchState) -> RunState {
    RunState { status, dispatch, error: None, stop_requested: false, revision: 4 }
}

#[test]
fn restart_recovery_halts_every_unfinished_run_and_nothing_else() {
    let mut runs = vec![
        run_in(RunStatus::Queued, DispatchState::NotDispatched),
        run_in(RunStatus::Running, DispatchState::DispatchRecorded),
        run_in(RunStatus::Succeeded, DispatchState::Accepted),
        run_in(RunStatus::AwaitingResponse, DispatchState::Accepted),
    ];
    let halted = halt_unfinished_runs(&mut runs, RunEvent::ServiceRestarted);
    assert_eq!(halted, 3);
    assert_eq!(runs.len(), 4);
    assert_eq!(runs[0].status, RunStatus::Interrupted);
    assert_eq!(runs[1].status, RunStatus::NeedsAttention);
    assert_eq!(runs[1].dispatch, DispatchState::Uncertain);
    assert_eq!(runs[2], run_in(RunStatus::Succeeded, DispatchState::Accepted));
    assert_eq!(runs[3].status, RunStatus::NeedsAttention);
    assert_eq!(runs[3].error, Some(RunError::ExecutionServiceRestarted));
    assert_eq!(runs[3].revision, 5);
    assert_eq!(halt_unfinished_runs(&mut runs, RunEvent::ServiceRestarted), 0);
}

#[test]
fn task_context_hashes_the_complete_snapshot_before_cutting() {
    let long = "x".repeat(4001);
    let snapshot = Json::Object(vec![("title".to_string(), Json::Text(long.clone()))]);
    let rendered = format!("{{\"title\":\"{long}\"}}");
    let prepared = task_context(&snapshot, &rendered);
    assert!(prepared.truncated);
    assert_eq!(prepared.source_hash, hash_text(&rendered));
    match &prepared.context {
        Json::Object(entries) => match &entries[0].1 {
            Json::Text(t) => assert_eq!(t.chars().count(), 4000),
            _ => panic!("title is text"),
        },
        _ => panic!("context is an object"),
    }
}

#[test]
fn new_sessions_start_active_at_revision_one() {
    let capture = opened_session("s-1", false);
    assert_eq!(capture.head_revision, 1);
    assert_eq!(capture.state, "active");
    assert!(capture.created && !capture.deduplicated);
    assert_eq!(capture.persistence_status, "durable");
    assert_eq!(capture.projection_status, "queued");
    assert_eq!(capture.resource_uri, "llm-wiki://work-session/s-1");
    assert_eq!(opened_session("s-2", true).projection_status, "not_required");
    assert_eq!(resource_uri("abc"), "llm-wiki://work-session/abc");
}

#[test]
fn imported_conversations_get_a_user_reviewed_session() {
    let s = imported_session("task", "  ", None, "/work", "thread-1");
    assert_eq!(s.title, "Imported Codex conversation");
    assert_eq!(s.provider, "codex");
    assert_eq!(s.model, "gpt-5.6-sol");
    assert_eq!(s.approval_mode, "ask");
    assert_eq!(s.approvals_reviewer, "user");
    assert_eq!(s.workspace_path, "/work");
    assert_eq!(s.thread_id, "thread-1");
    assert!(s.context_hash.is_none());
}

#[test]
fn overview_cursors_decode_to_what_they_encode() {
    let fields = b"{\"offset\":50,\"snapshotRevision\":7}";
    let cursor = next_cursor(Some(50), None, fields).unwrap();
    assert_eq!(cursor_bytes(&cursor).unwrap(), fields.to_vec());
    assert!(next_cursor(None, None, fields).is_none());
}

#[test]
fn only_a_completed_adopted_task_becomes_knowledge() {
    let unlinked = knowledge_subject(None, Some((2, "c-1"))).unwrap_err();
    assert_eq!(unlinked.code, "workflow_precondition");
    assert_eq!(unlinked.message, "A canonical Task must be linked before Knowledge can be drafted");
    let open = knowledge_subject(Some("t-1"), None).unwrap_err();
    assert_eq!(open.message, "A completed current Task is required before Knowledge can be drafted");
    let subject = knowledge_subject(Some("t-1"), Some((2, "c-1"))).unwrap();
    assert_eq!(subject.task_id, "t-1");
    assert_eq!(subject.expected_task_revision, 2);
    assert_eq!(subject.completion_id, "c-1");
}

#[test]
fn reopening_a_session_replays_the_stored_answer_as_deduplicated() {
    let stored = Json::Object(vec![
        ("sessionId".to_string(), Json::Text("s-1".to_string())),
        ("deduplicated".to_string(), Json::Bool(false)),
        ("created".to_string(), Json::Bool(true)),
    ]);
    let replay = replay_response(Some(("h".to_string(), stored)), "h").unwrap().unwrap();
    assert_eq!(
        replay,
        Json::Object(vec![
            ("sessionId".to_string(), Json::Text("s-1".to_string())),
            ("created".to_string(), Json::Bool(true)),
            ("deduplicated".to_string(), Json::Bool(true)),
        ])
    );
    let other = Json::Object(vec![]);
    assert_eq!(
        replay_response(Some(("h".to_string(), other)), "h2").unwrap_err().code,
        "idempotency_conflict"
    );
    assert_eq!(replay_response(None, "h").unwrap(), None);
}

fn serde_text(doc: &str) -> String {
    serde_json::from_str::<serde_json::Value>(doc).unwrap().to_string()
}

#[test]
fn requests_are_hashed_as_serde_json_writes_them() {
    let doc = open_request_document("lineage-1", "new", None, None, None, Some("task-1"));
    let expected = serde_text(
        "{\"lineageKey\":\"lineage-1\",\"mode\":\"new\",\"capture\":null,\"parentSessionId\":null,\"reviewContext\":null,\"taskId\":\"task-1\"}",
    );
    assert_eq!(request_hash(&doc), hash_text(&expected));
    let append = append_request_document("s-1", 3, "checkpoint", Json::Null, None, None);
    let expected = serde_text(
        "{\"sessionId\":\"s-1\",\"expectedHeadRevision\":3,\"kind\":\"checkpoint\",\"event\":null,\"observedAt\":null,\"supersedesEventId\":null}",
    );
    assert_eq!(request_hash(&append), hash_text(&expected));
    let stored = Json::Object(vec![("sessionId".to_string(), Json::Text("s-1".to_string()))]);
    let replay = operation_replay(Some((request_hash(&doc), stored)), &doc).unwrap().unwrap();
    assert_eq!(
        replay,
        Json::Object(vec![
            ("sessionId".to_string(), Json::Text("s-1".to_string())),
            ("deduplicated".to_string(), Json::Bool(true)),
        ])
    );
    let changed = open_request_document("lineage-1", "new", None, None, None, Some("task-2"));
    let stored = Json::Object(vec![]);
    assert_eq!(
        operation_replay(Some((request_hash(&doc), stored)), &changed).unwrap_err().code,
        "idempotency_conflict"
    );
}

#[test]
fn previews_and_declines_create_nothing() {
    let preview = preview_answer(ReviewStage::Capture, "r-1", Json::Text("idea".into()), "2030-01-01");
    assert_eq!(
        serialize(&preview),
        serde_text("{\"reviewState\":\"r-1\",\"stage\":\"capture\",\"preview\":\"idea\",\"expiresAt\":\"2030-01-01\",\"created\":false,\"decisionRequired\":true}")
    );
    let declined = declined_answer("reject");
    assert_eq!(serialize(&declined), serde_text("{\"decision\":\"reject\",\"created\":false}"));
}

fn serialize(doc: &Json) -> String {
    let bytes_text = match doc {
        Json::Object(entries) => {
            let mut map = serde_json::Map::new();
            for (k, v) in entries {
                map.insert(k.clone(), to_value(v));
            }
            serde_json::Value::Object(map)
        }
        other => to_value(other),
    };
    bytes_text.to_string()
}

fn to_value(doc: &Json) -> serde_json::Value {
    match doc {
        Json::Null => serde_json::Value::Null,
        Json::Bool(b) => serde_json::Value::Bool(*b),
        Json::Number(n) => serde_json::from_str(n).unwrap(),
        Json::Text(t) => serde_json::Value::String(t.clone()),
        Json::Array(items) => serde_json::Value::Array(items.iter().map(to_value).collect()),
        Json::Object(entries) => serde_json::Value::Object(
            entries.iter().map(|(k, v)| (k.clone(), to_value(v))).collect(),
        ),
    }
}

#[test]
fn formal_responses_carry_what_was_decided() {
    let decision = approval_response(ApprovalAnswer::Decision, "acceptForSession", None);
    assert_eq!(serialize(&decision), serde_text("{\"decision\":\"acceptForSession\"}"));
    let nothing = approval_response(ApprovalAnswer::GrantNothing, "decline", None);
    assert_eq!(serialize(&nothing), serde_text("{\"permissions\":{},\"scope\":\"turn\"}"));
    let asked = Json::Object(vec![("network".to_string(), Json::Bool(true))]);
    let granted = approval_response(ApprovalAnswer::GrantRequested, "accept", Some(asked));
    assert_eq!(serialize(&granted), serde_text("{\"permissions\":{\"network\":true},\"scope\":\"turn\"}"));
    let questions = vec![FormalQuestion {
        id: Some("q1".to_string()),
        is_secret: false,
        labels: vec!["Yes".to_string()],
        allow_other: false,
    }];
    let answers: Vec<SubmittedAnswers> = vec![Some(vec![Some("Yes".to_string())])];
    assert!(validate_answers(&questions, &answers).is_ok());
    let response = answers_response(&questions, &answers);
    assert_eq!(serialize(&response), serde_text("{\"answers\":{\"q1\":{\"answers\":[\"Yes\"]}}}"));
}

#[test]
fn a_failed_start_is_never_reused() {
    let server = stopped_server();
    assert_eq!(start_step(&server), StartStep::Spawn);
    let started = advance_server(server, ServerEvent::Spawned(7));
    assert_eq!(start_step(&started), StartStep::Reuse);
    let failed = advance_server(started, ServerEvent::InitializeFailed);
    assert_eq!(failed.generation, None);
    assert!(!failed.structured_input);
    assert_eq!(start_step(&failed), StartStep::Spawn);
    let ready = advance_server(advance_server(failed, ServerEvent::Spawned(8)), ServerEvent::Initialized);
    assert_eq!(ready.generation, Some(8));
    assert!(ready.structured_input);
    assert_eq!(start_step(&advance_server(ready, ServerEvent::Exited)), StartStep::Spawn);
}

#[test]
fn board_revisions_hash_the_board_as_serde_json_writes_it() {
    let doc = board_document(Json::Array(vec![]), Json::Array(vec![]));
    let text = serde_text("{\"board\":[],\"attention\":[]}");
    assert_eq!(board_revision(&doc), snapshot_revision(text.as_bytes()));
}

#[test]
fn task_operations_replay_only_their_own_request() {
    let input = Json::Object(vec![("operationId".to_string(), Json::Text("op-1".to_string()))]);
    let stored = content_hash(&["task.create", &serde_text("{\"operationId\":\"op-1\"}")]);
    assert_eq!(task_operation_replay(Some(&stored), "task.create", &input).unwrap(), true);
    assert_eq!(task_operation_replay(Some("other"), "task.create", &input).unwrap_err(), "operation_conflict");
    assert_eq!(task_operation_replay(None, "task.create", &input).unwrap(), false);
}

#[test]
fn openings_check_connection_replay_lineage_and_mode() {
    let request = open_request_document("l", "new", None, None, None, None);
    let refused = open_session_step(false, None, &request, false, "new", None, None).unwrap_err();
    assert_eq!(refused.message, "Connection is unavailable");
    let stored = Json::Object(vec![("sessionId".to_string(), Json::Text("s-1".to_string()))]);
    match open_session_step(true, Some((request_hash(&request), stored)), &request, true, "new", None, None).unwrap() {
        OpenStep::Replay(answer) => assert_eq!(serialize(&answer), serde_text("{\"sessionId\":\"s-1\",\"deduplicated\":true}")),
        _ => panic!("a replay"),
    }
    assert!(matches!(open_session_step(true, None, &request, true, "new", None, None).unwrap(), OpenStep::Existing));
    assert_eq!(
        open_session_step(true, None, &request, false, "continue_task", None, None).unwrap_err().message,
        "taskId is required"
    );
    assert!(matches!(
        open_session_step(true, None, &request, false, "continue_task", Some("t-1"), None).unwrap(),
        OpenStep::ContinueTask(t) if t == "t-1"
    ));
    assert_eq!(
        open_session_step(true, None, &request, false, "resume", None, None).unwrap_err().message,
        "Work session is unavailable"
    );
    assert_eq!(
        open_session_step(true, None, &request, false, "new", None, None).unwrap_err().message,
        "capture is required"
    );
    assert_eq!(
        open_session_step(true, None, &request, false, "new", None, Some((Some(" "), Some("s")))).unwrap_err().message,
        "title is required"
    );
    assert!(matches!(
        open_session_step(true, None, &request, false, "new", None, Some((Some(" Idea "), Some("Why")))).unwrap(),
        OpenStep::Capture { title, summary } if title == "Idea" && summary == "Why"
    ));
    let existing = ExistingSession {
        session_id: "s-9".to_string(),
        capture_id: Some("c-9".to_string()),
        head_event_id: "e-9".to_string(),
        head_revision: 4,
        state: "active".to_string(),
    };
    assert_eq!(
        serialize(&existing_session_answer(&existing)),
        serde_text("{\"sessionId\":\"s-9\",\"captureId\":\"c-9\",\"headEventId\":\"e-9\",\"headRevision\":4,\"state\":\"active\",\"created\":false,\"deduplicated\":false,\"resourceUri\":\"llm-wiki://work-session/s-9\"}")
    );
}

#[test]
fn opening_reviews_preview_then_decide() {
    let request = open_request_document("l", "new", None, None, None, None);
    assert_eq!(open_review(ReviewStage::Capture, None, &request, "2026", None).unwrap(), ReviewStep::Preview);
    assert_eq!(
        open_review(ReviewStage::Capture, None, &request, "2026", Some(("r", "accept"))).unwrap_err().message,
        "Capture review is unavailable"
    );
    let stored = StoredReview {
        id: "r-1".to_string(),
        payload_hash: request_hash(&request),
        state: "pending".to_string(),
        expires_at: "2030".to_string(),
    };
    assert_eq!(open_review(ReviewStage::Capture, Some(&stored), &request, "2026", Some(("r-1", "accept"))).unwrap(), ReviewStep::Accepted);
    assert_eq!(open_review(ReviewStage::Capture, Some(&stored), &request, "2026", Some(("r-1", "reject"))).unwrap(), ReviewStep::Declined);
    let changed = open_request_document("l", "new", None, None, None, Some("t"));
    assert_eq!(
        open_review(ReviewStage::Capture, Some(&stored), &changed, "2026", None).unwrap_err().code,
        "idempotency_conflict"
    );
}
