use llm_wiki_desktop::access::{
    problem_access_on, task_access_on, ConnectionGrant, ProblemVisibility, TaskVisibility,
};
use llm_wiki_desktop::digest::hash_text;
use llm_wiki_desktop::projection::{
    decision_accepts, job_action_at, settle_event, JobAction, ProjectedEvent, ProjectionJob,
};
use llm_wiki_desktop::publication::{
    defer_publication_check, publication_job_result, session_outlook, BoundTask, PublicationRow,
    PublicationState,
};
use llm_wiki_desktop::evidence::Json;
use llm_wiki_desktop::review::{
    action_plan, action_result_type, check_decision_replay, consume_plan, screen_action, step_task, ActionStep,
    ChallengeContext, ChallengeRecord,
};
use llm_wiki_desktop::session::{
    advance_replay, append_plan, check_replay, check_review_gate, decide_review, require_text, stream_id,
    ReviewStage, ReviewStep, SessionHead, StoredReview,
};
use llm_wiki_desktop::work_state::{AppError, EventKind, EventOrderKey, ProjectionStatus};

fn grant(scopes: &[&str], topics: &[&str]) -> ConnectionGrant {
    ConnectionGrant {
        scopes: scopes.iter().map(|s| s.to_string()).collect(),
        allowed_topics: topics.iter().map(|s| s.to_string()).collect(),
    }
}

fn challenge(action: &str, hash: &str, expected: i64) -> ChallengeRecord {
    ChallengeRecord {
        action: action.to_string(),
        proposed_payload_hash: hash.to_string(),
        expected_head_revision: expected,
        expires_at: "2030-01-01T00:00:00.000000000Z".to_string(),
        status: "pending".to_string(),
    }
}

fn context(head: i64, closed: bool) -> ChallengeContext {
    ChallengeContext {
        connection_active: true,
        target_unchanged: true,
        current_head: head,
        scopes: Some(vec![
            "session:write".to_string(),
            "workbench:current:read".to_string(),
        ]),
        session_closed: closed,
    }
}

const NOW: &str = "2026-07-28T10:00:00.000000000Z";

#[test]
fn advance_challenge_replays_same_operation_and_replaces_it_with_the_final_acceptance() {
    let stored = Some(("hash-1".to_string(), "review-1".to_string()));
    assert_eq!(
        check_replay(stored.clone(), "hash-1").unwrap(),
        Some("review-1".to_string())
    );
    let conflict = check_replay(stored, "hash-2").unwrap_err();
    assert_eq!(conflict.code, "idempotency_conflict");
    assert_eq!(check_replay::<String>(None, "hash-1").unwrap(), None);

    // The final acceptance of the challenge.
    let record = challenge("task.create", "hash-1", 1);
    assert_eq!(check_decision_replay(None, "hash-1", "review-1").unwrap(), false);
    let plan = consume_plan("mcp-a", "accept", "hash-1", NOW, Some(&record), &context(1, false)).unwrap();
    assert!(plan.accepted);
    assert_eq!(plan.decision, "accepted");
    assert_eq!(action_plan("task.create").unwrap().step, ActionStep::CreateTask);
    // Once decided, the same request replays its stored answer, marked as a replay,
    // and creates nothing more; a changed request under the same operation conflicts.
    assert!(check_decision_replay(Some(("hash-1", Some("review-1"), true)), "hash-1", "review-1").unwrap());
    assert_eq!(
        check_decision_replay(Some(("hash-1", Some("review-1"), true)), "hash-2", "review-1")
            .unwrap_err()
            .code,
        "idempotency_conflict"
    );
    let answer = Json::Object(vec![
        ("decision".to_string(), Json::Text("accept".to_string())),
        ("reviewState".to_string(), Json::Text("review-1".to_string())),
        ("deduplicated".to_string(), Json::Bool(false)),
    ]);
    let replayed = advance_replay(Some(("hash-1".to_string(), answer)), "hash-1").unwrap().unwrap();
    assert_eq!(
        replayed,
        Json::Object(vec![
            ("decision".to_string(), Json::Text("accept".to_string())),
            ("reviewState".to_string(), Json::Text("review-1".to_string())),
            ("deduplicated".to_string(), Json::Bool(true)),
        ])
    );
    let undecided = Json::Object(vec![("reviewState".to_string(), Json::Text("review-1".to_string()))]);
    assert_eq!(advance_replay(Some(("hash-1".to_string(), undecided)), "hash-1").unwrap(), None);
}

#[test]
fn stale_acceptance_keeps_the_operation_pending_for_a_fresh_review() {
    let record = challenge("task.create", "h", 1);
    let error = consume_plan("mcp-a", "accept", "h", NOW, Some(&record), &context(2, false))
        .unwrap_err();
    assert_eq!(error.code, "head_conflict");
    assert_eq!(error.current_revision, Some(2));
    assert_eq!(error.message, "Work session changed; review again");
}

#[test]
fn challenge_rejects_a_guessed_task_outside_the_connection_scope() {
    let visibility = TaskVisibility {
        task_exists: true,
        current_visible: false,
        task_topics: vec![],
    };
    let error = task_access_on(Some(&grant(&["session:write"], &[])), &visibility).unwrap_err();
    assert_eq!(error.code, "not_found_or_not_visible");
    assert_eq!(error.message, "Task discovery is unavailable");
}

#[test]
fn accepted_task_reopen_reactivates_the_completed_session() {
    let record = challenge("task.reopen", "h", 3);
    let plan = consume_plan("mcp-a", "accept", "h", NOW, Some(&record), &context(3, true)).unwrap();
    assert!(plan.accepted);
    assert!(plan.reopen_session);
    assert_eq!(plan.projection_state, "applied");
    let other = challenge("task.revision", "h", 3);
    let closed = consume_plan("mcp-a", "accept", "h", NOW, Some(&other), &context(3, true))
        .unwrap_err();
    assert_eq!(closed.code, "session_closed");
}

#[test]
fn current_scope_allows_a_problem_linked_from_the_owned_task_but_not_a_hidden_problem() {
    let linked = ProblemVisibility {
        problem_exists: true,
        linked: false,
        linked_through_task: true,
        problem_topics: vec![],
    };
    let g = grant(&["session:write", "workbench:current:read"], &[]);
    assert!(problem_access_on(Some(&g), &linked).is_ok());
    let hidden = ProblemVisibility {
        problem_exists: true,
        linked: false,
        linked_through_task: false,
        problem_topics: vec![],
    };
    let error = problem_access_on(Some(&g), &hidden).unwrap_err();
    assert_eq!(error.code, "not_found_or_not_visible");
}

#[test]
fn legacy_actions_are_refused_at_review_and_at_decision() {
    assert_eq!(
        screen_action("approve_solution").unwrap_err().code,
        "legacy_action_rejected"
    );
    assert_eq!(
        screen_action("launch_rocket").unwrap_err().message,
        "Unsupported governed Task action"
    );
    assert!(screen_action("task.create").is_ok());
    let record = challenge("verify_and_complete", "h", 1);
    let error = consume_plan("mcp-a", "accept", "h", NOW, Some(&record), &context(1, false))
        .unwrap_err();
    assert_eq!(error.code, "legacy_action_rejected");
}

#[test]
fn consume_plan_checks_in_order() {
    let record = challenge("task.create", "h", 1);
    assert_eq!(
        consume_plan("mcp-a", "maybe", "h", NOW, Some(&record), &context(1, false))
            .unwrap_err()
            .message,
        "Decision must be accept, reject or cancel"
    );
    assert_eq!(
        consume_plan("mcp-a", "accept", "h", NOW, None, &context(1, false))
            .unwrap_err()
            .message,
        "Review state is invalid"
    );
    let mut used = record.clone();
    used.status = "accepted".to_string();
    assert_eq!(
        consume_plan("mcp-a", "accept", "h", NOW, Some(&used), &context(1, false))
            .unwrap_err()
            .code,
        "challenge_replayed"
    );
    let mut expired = record.clone();
    expired.expires_at = "2020-01-01T00:00:00Z".to_string();
    assert_eq!(
        consume_plan("mcp-a", "accept", "h", NOW, Some(&expired), &context(1, false))
            .unwrap_err()
            .code,
        "challenge_expired"
    );
    assert_eq!(
        consume_plan("mcp-a", "accept", "other", NOW, Some(&record), &context(1, false))
            .unwrap_err()
            .message,
        "Reviewed payload changed"
    );
    let mut moved = context(1, false);
    moved.target_unchanged = false;
    assert_eq!(
        consume_plan("mcp-a", "accept", "h", NOW, Some(&record), &moved)
            .unwrap_err()
            .message,
        "Governed target changed; review the refreshed target"
    );
    let mut read_only = context(1, false);
    read_only.scopes = Some(vec!["session:read".to_string()]);
    assert_eq!(
        consume_plan("mcp-a", "accept", "h", NOW, Some(&record), &read_only)
            .unwrap_err()
            .message,
        "Connection capability is unavailable"
    );
}

#[test]
fn rejection_records_a_conflict_and_channel() {
    let record = challenge("task.create", "h", 1);
    let plan = consume_plan("mcp-a", "reject", "h", NOW, Some(&record), &context(9, false)).unwrap();
    assert!(!plan.accepted);
    assert_eq!(plan.decision, "rejected");
    assert_eq!(plan.projection_state, "conflict");
    assert_eq!(plan.channel, "mcp_elicitation:task.create");
    assert!(!plan.settle_event);
    let checkpoint = challenge("accept_checkpoint", "h", 1);
    let native = consume_plan(
        "native-in-app-chat",
        "accept",
        "h",
        NOW,
        Some(&checkpoint),
        &context(1, false),
    )
    .unwrap();
    assert_eq!(native.channel, "in_app_chat_review:accept_checkpoint");
    assert_eq!(native.projection_state, "pending");
    assert!(!native.hash_proposed_payload);
}

#[test]
fn accepted_actions_map_to_canonical_operations() {
    let plan = action_plan("revise_task").unwrap();
    assert_eq!(plan.step, ActionStep::Delegate);
    assert_eq!(plan.operation, "task.revision");
    assert!(plan.fills_task);
    let complete = action_plan("complete_task").unwrap();
    assert_eq!(complete.operation, "task.completion.create");
    assert!(complete.completes_session);
    let review = action_plan("review_conflict").unwrap();
    assert_eq!(review.operation, "task.decision.create");
    assert!(review.advisory_review);
    let resolve = action_plan("resolve_problem").unwrap();
    assert!(!resolve.fills_task);
    assert_eq!(action_plan("task.create").unwrap().step, ActionStep::CreateTask);
    assert_eq!(
        action_plan("nothing").unwrap_err().message,
        "Unsupported governed action"
    );
    assert_eq!(action_result_type("complete_task"), Some("task_completions"));
    assert_eq!(action_result_type("adopt_solution"), Some("features"));
    assert_eq!(action_result_type("accept_checkpoint"), None);
    assert_eq!(step_task(None, Some("t-1")).unwrap(), "t-1");
    assert_eq!(
        step_task(None, None).unwrap_err().message,
        "Select a Task first"
    );
}

#[test]
fn append_advances_the_head_and_applies_the_checkpoint_policy() {
    let head = SessionHead {
        head_revision: 4,
        state: "active".to_string(),
    };
    let plan = append_plan(
        "mcp-a",
        100,
        Some(&head),
        4,
        EventKind::WorkLogCheckpoint,
        "allowed_for_started_sessions",
    )
    .unwrap();
    assert_eq!(plan.revision, 5);
    assert_eq!(plan.stream_id, "external_mcp_chat:mcp-a");
    assert!(plan.auto_accept);
    assert_eq!(plan.job_state, "pending");
    assert_eq!(plan.review_state, "accepted_by_policy");
    let reviewed = append_plan(
        "native-in-app-chat",
        100,
        Some(&head),
        4,
        EventKind::CompletionProposal,
        "allowed_for_started_sessions",
    )
    .unwrap();
    assert!(!reviewed.auto_accept);
    assert!(reviewed.proposes_completion);
    assert_eq!(reviewed.job_state, "pending_review");
    assert_eq!(reviewed.stream_id, "in_app_chat:native-in-app-chat");
    let stale = append_plan("mcp-a", 100, Some(&head), 3, EventKind::ProblemDraft, "confirm_each")
        .unwrap_err();
    assert_eq!(stale.code, "head_conflict");
    assert_eq!(stale.current_revision, Some(4));
    let big = append_plan("mcp-a", 16385, Some(&head), 4, EventKind::ProblemDraft, "confirm_each")
        .unwrap_err();
    assert_eq!(big.code, "content_too_large");
    let closed = SessionHead {
        head_revision: 4,
        state: "completed".to_string(),
    };
    assert_eq!(
        append_plan("mcp-a", 10, Some(&closed), 4, EventKind::ProblemDraft, "confirm_each")
            .unwrap_err()
            .code,
        "session_closed"
    );
    assert_eq!(
        append_plan("mcp-a", 10, None, 4, EventKind::ProblemDraft, "confirm_each")
            .unwrap_err()
            .code,
        "not_found_or_not_visible"
    );
    assert_eq!(stream_id("c"), "external_mcp_chat:c");
}

#[test]
fn review_gate_guards_openings() {
    let review = StoredReview {
        id: "r1".to_string(),
        payload_hash: "h".to_string(),
        state: "pending".to_string(),
        expires_at: "2030-01-01T00:00:00Z".to_string(),
    };
    assert!(check_review_gate(ReviewStage::Capture, Some(&review), "h", NOW, true).is_ok());
    assert_eq!(
        check_review_gate(ReviewStage::Capture, Some(&review), "x", NOW, true)
            .unwrap_err()
            .code,
        "idempotency_conflict"
    );
    let mut decided = review.clone();
    decided.state = "accept".to_string();
    assert_eq!(
        check_review_gate(ReviewStage::TaskContinuation, Some(&decided), "h", NOW, false)
            .unwrap_err()
            .message,
        "Task continuation review was already decided"
    );
    assert_eq!(
        check_review_gate(ReviewStage::Capture, None, "h", NOW, true)
            .unwrap_err()
            .message,
        "Capture review is unavailable"
    );
    assert_eq!(
        decide_review(ReviewStage::Capture, "r1", None).unwrap(),
        ReviewStep::Preview
    );
    assert_eq!(
        decide_review(ReviewStage::Capture, "r1", Some(("r1", "accept"))).unwrap(),
        ReviewStep::Accepted
    );
    assert_eq!(
        decide_review(ReviewStage::Capture, "r1", Some(("r1", "cancel"))).unwrap(),
        ReviewStep::Declined
    );
    assert_eq!(
        decide_review(ReviewStage::Capture, "r1", Some(("r2", "accept")))
            .unwrap_err()
            .message,
        "Invalid Capture decision"
    );
}

#[test]
fn required_text_is_trimmed_and_bounded() {
    assert_eq!(require_text(Some("  Title "), "title", 200).unwrap(), "Title");
    let missing = require_text(Some("   "), "title", 200).unwrap_err();
    assert_eq!(missing.code, "invalid_input");
    assert_eq!(missing.message, "title is required");
    let long = require_text(Some("abcdef"), "summary", 3).unwrap_err();
    assert_eq!(long.code, "content_too_large");
    assert_eq!(long.message, "summary is too long");
    assert_eq!(require_text(None, "x", 1).unwrap_err().message, "x is required");
}

fn key(at: &str, sequence: i64, id: &str) -> EventOrderKey {
    EventOrderKey {
        occurred_at: at.to_string(),
        source_sequence: sequence,
        event_id: id.to_string(),
    }
}

#[test]
fn late_events_are_ignored_and_checkpoints_wait_for_a_task() {
    let event = ProjectedEvent {
        kind: "work_log_checkpoint".to_string(),
        key: key("2026-01-01", 1, "e1"),
        already_ordered: false,
        accepted_decisions: 1,
        task_linked: false,
    };
    let late = settle_event(&event, Some(&key("2026-01-01", 2, "e0")));
    assert_eq!(late.state, ProjectionStatus::IgnoredLate);
    assert!(!late.advances_watermark);
    let waiting = settle_event(&event, Some(&key("2025-12-31", 9, "e9")));
    assert_eq!(waiting.state, ProjectionStatus::WaitingSolution);
    assert!(waiting.advances_watermark);
    let mut linked = event.clone();
    linked.task_linked = true;
    let applied = settle_event(&linked, None);
    assert_eq!(applied.state, ProjectionStatus::Applied);
    assert!(applied.records_progress);
    let mut unreviewed = event.clone();
    unreviewed.accepted_decisions = 0;
    assert_eq!(settle_event(&unreviewed, None).state, ProjectionStatus::Conflict);
    assert!(key("a", 1, "x").le(&key("a", 1, "x")));
    assert!(!key("b", 0, "x").le(&key("a", 9, "x")));
}

#[test]
fn projection_jobs_are_claimed_until_their_attempts_run_out() {
    let pending = ProjectionJob {
        state: "pending".to_string(),
        attempts: 0,
        lease_expires_at: None,
        next_attempt_at: None,
    };
    assert_eq!(job_action_at(&pending, NOW), JobAction::Claim);
    let lapsed = ProjectionJob {
        state: "claimed".to_string(),
        attempts: 5,
        lease_expires_at: Some("2020-01-01".to_string()),
        next_attempt_at: None,
    };
    assert_eq!(job_action_at(&lapsed, NOW), JobAction::Exhaust);
    let held = ProjectionJob {
        state: "claimed".to_string(),
        attempts: 1,
        lease_expires_at: Some("2030-01-01".to_string()),
        next_attempt_at: None,
    };
    assert_eq!(job_action_at(&held, NOW), JobAction::Skip);
    assert!(decision_accepts("accepted_with_edits").unwrap());
    assert!(!decision_accepts("rejected").unwrap());
    assert_eq!(
        decision_accepts("maybe").unwrap_err().message,
        "Unsupported decision"
    );
}

#[test]
fn publication_follows_the_bound_task() {
    let completed = BoundTask {
        state: "completed".to_string(),
        completed: true,
        draft_state: None,
    };
    let outlook = session_outlook(Some(&completed), "completed", "not_requested");
    assert_eq!(outlook.publication_state, "offered");
    assert_eq!(
        outlook.next_actions,
        vec!["offer_knowledge_publication", "reopen_task"]
    );
    let drafted = BoundTask {
        state: "completed".to_string(),
        completed: true,
        draft_state: Some("draft".to_string()),
    };
    assert_eq!(
        session_outlook(Some(&drafted), "completed", "offered").publication_state,
        "draft_saved"
    );
    let open = BoundTask {
        state: "task".to_string(),
        completed: false,
        draft_state: None,
    };
    let o = session_outlook(Some(&open), "active", "offered");
    assert_eq!(o.publication_state, "not_requested");
    assert_eq!(o.next_actions, vec!["transition_task", "accept_checkpoint"]);
    assert_eq!(
        session_outlook(None, "active", "not_requested").next_actions,
        vec!["create_task"]
    );
    assert!(session_outlook(None, "completed", "deferred")
        .next_actions
        .is_empty());
    assert_eq!(PublicationState::Offered.as_str(), "offered");
    assert_eq!(PublicationState::NotRequested.as_str(), "not_requested");
}

#[test]
fn publication_jobs_fail_after_five_attempts() {
    assert_eq!(publication_job_result(0, None), (1, "complete"));
    assert_eq!(publication_job_result(3, Some("storage_unavailable")), (4, "pending"));
    assert_eq!(publication_job_result(4, Some("storage_unavailable")), (5, "failed"));
    let row = PublicationRow {
        state: "completed".to_string(),
        publication_state: "offered".to_string(),
        offer_revision: Some(7),
    };
    assert!(defer_publication_check(Some(&row), 7).is_ok());
    assert_eq!(
        defer_publication_check(Some(&row), 8).unwrap_err().code,
        "head_conflict"
    );
}

#[test]
fn hash_text_is_lowercase_sha256() {
    assert_eq!(
        hash_text("abc"),
        "ba7816bf8f01cfea414140de5dae2223b00361a396177a9cb410ff61f20015ad"
    );
}

#[test]
fn app_errors_carry_conflict_details() {
    let e = AppError::conflict("changed", 3);
    assert_eq!(e.code, "head_conflict");
    assert_eq!(e.conflicting_fields, Some(vec!["headRevision".to_string()]));
    assert_eq!(e.revisions.as_ref().unwrap().session, 3);
    let plain = AppError::new("invalid_input", "bad");
    assert!(!plain.retryable);
    assert!(AppError::storage().retryable);
    assert_eq!(EventKind::WorkLogCheckpoint.as_str(), "work_log_checkpoint");
    assert_eq!(ProjectionStatus::Queued.as_str(), "pending");
}
