use llm_wiki_desktop::codex::{
    classify_spawn_error, execution_error, formal_kind, route_message, safe_rpc_error,
    validate_answers, validate_decision, ApprovalAnswer, FormalKind, FormalQuestion,
    MessageRoute,
};
use llm_wiki_desktop::overview::{cursor_bytes, next_cursor};
use llm_wiki_desktop::redact::{redact_text, safe_text};
use llm_wiki_desktop::review::{check_challenge, check_decision_replay, replayed_review_state};
use llm_wiki_desktop::run::{imported_session_names, link_plan, place_item, RunStatus, ThreadLink};
use llm_wiki_desktop::session::{plan_fan_out, LinkedSession};
use llm_wiki_desktop::task_ops::activity_key;
use llm_wiki_desktop::targets::{
    resolve_target, target_source, LinkEntry, TargetLookups, TargetPayload, TargetSource,
};

#[test]
fn rpc_errors_expose_only_the_bounded_message() {
    assert_eq!(safe_rpc_error(Some("authentication required")), "authentication required");
    assert_eq!(safe_rpc_error(None), "Codex app-server request failed");
    let long = "x".repeat(600);
    assert_eq!(safe_rpc_error(Some(&long)).chars().count(), 500);
}

#[test]
fn protocol_messages_are_routed_by_shape() {
    assert_eq!(route_message(true, true, false), MessageRoute::Response);
    assert_eq!(route_message(true, true, true), MessageRoute::Request);
    assert_eq!(route_message(false, true, true), MessageRoute::Request);
    assert_eq!(route_message(false, false, true), MessageRoute::Notification);
    assert_eq!(route_message(false, true, false), MessageRoute::Ignored);
    assert_eq!(
        classify_spawn_error(true, "/bin/codex", "missing"),
        "Codex CLI is not installed or could not be found"
    );
    assert_eq!(
        classify_spawn_error(false, "/bin/codex", "denied"),
        "Could not start Codex app-server from /bin/codex: denied"
    );
}

#[test]
fn execution_failures_map_to_stable_codes_and_statuses() {
    assert_eq!(
        execution_error("Codex CLI is not installed or could not be found"),
        ("missing_executable".to_string(), 503)
    );
    assert_eq!(
        execution_error("Codex app-server initialization failed: Authentication required"),
        ("authentication_required".to_string(), 503)
    );
    assert_eq!(
        execution_error("Codex app-server initialization failed: boom"),
        ("initialization_failed".to_string(), 503)
    );
    assert_eq!(
        execution_error("invalid_input: instruction is too long"),
        ("invalid_input".to_string(), 400)
    );
    assert_eq!(
        execution_error("ownership_failure: Task not found"),
        ("ownership_failure".to_string(), 404)
    );
    assert_eq!(
        execution_error("stale_run: turn was not accepted"),
        ("stale_run".to_string(), 409)
    );
    assert_eq!(
        execution_error("unsupported_decision: no"),
        ("unsupported_decision".to_string(), 422)
    );
    assert_eq!(
        execution_error("something odd"),
        ("execution_unavailable".to_string(), 503)
    );
}

#[test]
fn file_and_permission_denials_use_request_specific_provider_shapes() {
    let offered = vec!["accept".to_string(), "decline".to_string()];
    assert_eq!(
        validate_decision(FormalKind::FileChangeApproval, Some(&offered), "decline").unwrap(),
        ApprovalAnswer::Decision
    );
    assert_eq!(
        validate_decision(FormalKind::FileChangeApproval, Some(&offered), "cancel").unwrap_err(),
        "unsupported_decision: response is not offered by this request"
    );
    assert_eq!(
        validate_decision(FormalKind::PermissionsApproval, None, "decline").unwrap(),
        ApprovalAnswer::GrantNothing
    );
    assert_eq!(
        validate_decision(FormalKind::PermissionsApproval, None, "accept").unwrap(),
        ApprovalAnswer::GrantRequested
    );
    assert!(validate_decision(FormalKind::PermissionsApproval, None, "acceptForSession").is_err());
    assert_eq!(
        validate_decision(FormalKind::CommandApproval, None, "acceptForSession").unwrap(),
        ApprovalAnswer::Decision
    );
    assert_eq!(
        formal_kind("item/permissions/requestApproval"),
        Some(FormalKind::PermissionsApproval)
    );
    assert_eq!(formal_kind("item/agentMessage/delta"), None);
}

fn question(id: &str, labels: &[&str], other: bool, secret: bool) -> FormalQuestion {
    FormalQuestion {
        id: Some(id.to_string()),
        is_secret: secret,
        labels: labels.iter().map(|l| l.to_string()).collect(),
        allow_other: other,
    }
}

#[test]
fn user_input_answers_are_checked_against_the_question() {
    let questions = vec![question("free", &[], false, false), question("pick", &["Safe"], false, false)];
    let good = vec![Some(vec![Some("text".to_string())]), Some(vec![Some("Safe".to_string())])];
    assert!(validate_answers(&questions, &good).is_ok());
    let unoffered = vec![Some(vec![Some("text".to_string())]), Some(vec![Some("Risky".to_string())])];
    assert_eq!(
        validate_answers(&questions, &unoffered).unwrap_err(),
        "unsupported_answer: answer was not offered by this request"
    );
    let missing = vec![None, Some(vec![Some("Safe".to_string())])];
    assert_eq!(
        validate_answers(&questions, &missing).unwrap_err(),
        "invalid_response: every question requires an answer"
    );
    let empty = vec![Some(vec![]), Some(vec![Some("Safe".to_string())])];
    assert_eq!(
        validate_answers(&questions, &empty).unwrap_err(),
        "invalid_response: every question requires a nonempty answer"
    );
    let secret = vec![question("pin", &[], false, true)];
    assert_eq!(
        validate_answers(&secret, &vec![None]).unwrap_err(),
        "secret_input_unsupported: use the existing Codex secret-entry flow"
    );
    let other = vec![question("pick", &["Safe"], true, false)];
    assert!(validate_answers(&other, &vec![Some(vec![Some("Mine".to_string())])]).is_ok());
}

#[test]
fn completed_items_and_terminal_replays_are_idempotent_and_report_is_final_phase_only() {
    assert_eq!(
        redact_text("Finished with bearer should-redact", 20000),
        "[redacted credential-like content]"
    );
    assert_eq!(
        place_item(false, Some(RunStatus::Succeeded), 0, 2).unwrap_err(),
        "stale_run: completed item arrived after terminal state"
    );
    assert_eq!(place_item(true, Some(RunStatus::Succeeded), 0, 2).unwrap(), None);
}

#[test]
fn safe_text_cuts_at_a_character_boundary() {
    assert_eq!(safe_text("a\0b", 10), "ab");
    assert_eq!(safe_text("abcdef", 3), "abc\u{2026}");
    assert_eq!(safe_text("ééé", 3), "é\u{2026}");
    assert_eq!(safe_text("", 0), "");
    assert_eq!(redact_text("Inspect without token=very-secret-value", 500), "[redacted credential-like content]");
    assert_eq!(redact_text("use sk-abcdefghijklmnop now", 500), "[redacted credential-like content]");
    assert_eq!(redact_text("use sk-short now", 500), "use sk-short now");
    assert_eq!(redact_text("Authorization: Basic", 500), "[redacted credential-like content]");
    assert_eq!(redact_text("plain words", 5), "plain\u{2026}");
}

#[test]
fn external_thread_link_is_atomic_idempotent_and_never_rebinds_history() {
    assert_eq!(
        link_plan(true, None, "task", None, None, "thread", false).unwrap(),
        ThreadLink::CreateSession
    );
    assert_eq!(
        link_plan(true, Some(("task", "s1")), "task", None, None, "thread", false).unwrap(),
        ThreadLink::AlreadyLinked("s1".to_string())
    );
    assert_eq!(
        link_plan(true, Some(("other", "s1")), "task", None, None, "thread", false).unwrap_err(),
        "ownership_failure: conversation belongs to another Task"
    );
    assert_eq!(
        link_plan(true, Some(("task", "s1")), "task", Some("s2"), None, "thread", false).unwrap_err(),
        "session_history_conflict: conversation is already linked to work session s1"
    );
    assert_eq!(
        link_plan(true, None, "task", Some("s2"), Some(Some("another")), "thread", false).unwrap_err(),
        "session_history_conflict: work session is already linked to a different conversation"
    );
    assert_eq!(
        link_plan(true, None, "task", Some("s2"), Some(None), "thread", true).unwrap_err(),
        "session_history_conflict: create an empty work session before linking an existing conversation"
    );
    assert_eq!(
        link_plan(true, None, "task", Some("s2"), Some(None), "thread", false).unwrap(),
        ThreadLink::BindSession
    );
    assert_eq!(
        link_plan(false, None, "task", None, None, "thread", false).unwrap_err(),
        "ownership_failure: Task not found"
    );
    assert_eq!(
        imported_session_names("  ", Some(" ")),
        ("Imported Codex conversation".to_string(), "gpt-5.6-sol".to_string())
    );
    assert_eq!(
        imported_session_names(" Existing VS Code conversation ", Some(" gpt-external ")),
        ("Existing VS Code conversation".to_string(), "gpt-external".to_string())
    );
}

fn linked(id: &str, head: i64, present: bool) -> LinkedSession {
    LinkedSession {
        id: id.to_string(),
        head_revision: head,
        already_present: present,
        next_sequence: 1,
    }
}

#[test]
fn tracking_origin_session_is_suppressed_but_other_linked_sessions_receive_the_change() {
    let sessions = vec![linked("source-session", 3, false), linked("other-session", 1, false)];
    let plan = plan_fan_out(&sessions, Some("source-session"));
    assert_eq!(plan.len(), 1);
    assert_eq!(plan[0].session_id, "other-session");
    assert_eq!(plan[0].revision, 2);
}

#[test]
fn desktop_task_mutation_appends_one_applied_event_per_linked_session_and_replays_cleanly() {
    let sessions = vec![linked("session-a", 1, false), linked("session-b", 4, false)];
    let first = plan_fan_out(&sessions, None);
    assert_eq!(first.len(), 2);
    assert_eq!(first[1].revision, 5);
    let replayed = vec![linked("session-a", 2, true), linked("session-b", 5, true)];
    assert!(plan_fan_out(&replayed, None).is_empty());
}

fn payload() -> TargetPayload {
    TargetPayload {
        task_id: None,
        problem_id: None,
        expected_problem_revision: None,
        problem_revision: None,
        entry_id: None,
        target_task_id: None,
        relationship_id: None,
        link_id: None,
        entity_type: None,
        entity_id: None,
        related_task_id: None,
        problem_links: None,
    }
}

fn lookups() -> TargetLookups {
    TargetLookups {
        adopted_task: Some("adopted".to_string()),
        entry_task: None,
        relationship: None,
        problem_link: None,
    }
}

#[test]
fn governed_targets_collect_tasks_and_problems_in_order() {
    assert_eq!(target_source("task.create"), TargetSource::Nothing);
    assert_eq!(target_source("task.revision"), TargetSource::PrimaryTask);
    let mut p = payload();
    p.target_task_id = Some(" b-task ".to_string());
    p.related_task_id = Some("a-task".to_string());
    p.problem_links = Some(vec![
        LinkEntry { problem_id: Some("p2".to_string()), problem_revision: Some(3) },
        LinkEntry { problem_id: Some("p1".to_string()), problem_revision: Some(1) },
        LinkEntry { problem_id: Some("p2".to_string()), problem_revision: Some(4) },
    ]);
    let target = resolve_target("task.relationship.create", &p, &lookups()).unwrap();
    assert_eq!(target.tasks.ids(), &vec!["a-task".to_string(), "adopted".to_string(), "b-task".to_string()]);
    assert_eq!(target.problems.ids(), &vec!["p1".to_string(), "p2".to_string()]);
    assert_eq!(target.pins.get("p2"), Some(4));
    assert_eq!(target.pins.get("p9"), None);
    let mut exact = payload();
    exact.problem_id = Some("p1".to_string());
    assert_eq!(
        resolve_target("problem.revision", &exact, &lookups()).unwrap_err().message,
        "An exact Problem revision is required"
    );
    let mut bad_link = payload();
    bad_link.problem_links = Some(vec![LinkEntry { problem_id: Some("p".to_string()), problem_revision: None }]);
    assert_eq!(
        resolve_target("task.create", &bad_link, &lookups()).unwrap_err().message,
        "Task Problem links require an exact Problem revision"
    );
    let none = TargetLookups { adopted_task: None, entry_task: None, relationship: None, problem_link: None };
    assert_eq!(
        resolve_target("task.revision", &payload(), &none).unwrap_err().message,
        "Select an authorized Task first"
    );
    let mut link = payload();
    link.entity_type = Some("features".to_string());
    assert_eq!(
        resolve_target("link_current_work", &link, &none).unwrap_err().message,
        "Unsupported link target"
    );
}

#[test]
fn challenges_need_a_fresh_visible_head() {
    assert!(check_challenge(true, Some(2), 2, true).is_ok());
    let stale = check_challenge(true, Some(3), 2, true).unwrap_err();
    assert_eq!(stale.code, "head_conflict");
    assert_eq!(stale.message, "Work session changed; refresh before reviewing");
    assert_eq!(
        check_challenge(true, Some(2), 2, false).unwrap_err().message,
        "Source event is unavailable"
    );
    assert_eq!(
        check_challenge(true, None, 2, true).unwrap_err().message,
        "Work session is unavailable"
    );
    assert_eq!(replayed_review_state(Some("review-1")).unwrap(), "review-1");
    assert_eq!(replayed_review_state(Some("")).unwrap_err().code, "storage_unavailable");
    assert!(check_decision_replay(Some(("h", Some("c1"), true)), "h", "c1").unwrap());
    assert!(!check_decision_replay(Some(("h", Some("c1"), false)), "h", "c1").unwrap());
    assert_eq!(
        check_decision_replay(Some(("h", Some("c1"), true)), "h", "c2").unwrap_err().message,
        "Review state is invalid"
    );
    assert_eq!(
        check_decision_replay(Some(("h", Some("c1"), true)), "x", "c1").unwrap_err().code,
        "idempotency_conflict"
    );
    assert!(!check_decision_replay(None, "h", "c1").unwrap());
}

#[test]
fn cursors_round_trip_through_url_safe_base64() {
    let encoded = next_cursor(Some(50), None, b"{\"offset\":50}").unwrap();
    assert!(!encoded.contains('='));
    assert_eq!(cursor_bytes(&encoded).unwrap(), b"{\"offset\":50}".to_vec());
    assert_eq!(next_cursor(None, None, b"{}"), None);
    assert_eq!(cursor_bytes("***"), None);
}

#[test]
fn relationship_change_fans_out_once_to_each_endpoint_session() {
    // A relationship between two Tasks is recorded as activity on both endpoints.
    assert_eq!(
        activity_key("relationship-both", "task", "first"),
        "relationship-both:task:first"
    );
    assert_ne!(
        activity_key("relationship-both", "task", "first"),
        activity_key("relationship-both", "task", "second")
    );
    let first = plan_fan_out(&vec![linked("first-session", 1, false)], None);
    let second = plan_fan_out(&vec![linked("second-session", 1, false)], None);
    assert_eq!(first.len(), 1);
    assert_eq!(first[0].session_id, "first-session");
    assert_eq!(second.len(), 1);
    assert_eq!(second[0].session_id, "second-session");
    // Each session then holds the change, so a replay appends nothing more.
    assert!(plan_fan_out(&vec![linked("first-session", 2, true)], None).is_empty());
    assert!(plan_fan_out(&vec![linked("second-session", 2, true)], None).is_empty());
}
