use llm_wiki_desktop::current_work::{
    membership_decision, selection_target, topic_member_location, direct_task_room, recent_progress, selection_kind, SelectionKind, SessionEvent,
};
use llm_wiki_desktop::execution::{
    admit_run, bind_checks, bootstrap_text, check_run_settings, check_workspace,
    context_changed, run_fields, run_log_body, run_payload_hash, select_run, settings_revision,
    RunAdmission, RunSummary, ThreadReport,
};
use llm_wiki_desktop::run::ensure_task_owner;
use llm_wiki_desktop::task::content_hash;

fn report(id: &str, cwd: &str) -> ThreadReport {
    ThreadReport {
        id: Some(id.into()),
        model: Some("gpt".into()),
        cwd: Some(cwd.into()),
        approval_policy: Some("on-request".into()),
        sandbox: Some("workspace-write".into()),
    }
}

fn run(id: &str, status: &str) -> RunSummary {
    RunSummary { id: id.into(), status: status.into() }
}

#[test]
fn atomic_start_is_idempotent_and_preserves_manual_work_log_and_task_state() {
    let fields = run_fields(Some("task"), Some("session"), Some("run-1"), Some("Inspect without token=very-secret-value")).unwrap();
    let hash = run_payload_hash(&fields, None, "settings");
    assert_eq!(admit_run(None, &hash, false, None).unwrap(), RunAdmission::Start);
    assert_eq!(admit_run(Some(&hash), &hash, true, None).unwrap(), RunAdmission::Replay);
    let different = run_fields(Some("task"), Some("session"), Some("run-1"), Some("different")).unwrap();
    let other = run_payload_hash(&different, None, "settings");
    assert!(admit_run(Some(&hash), &other, true, None).unwrap_err().contains("operation_conflict"));
    assert!(admit_run(None, &other, true, None).unwrap_err().contains("active_run_conflict"));
    let body = run_log_body(&fields.instruction);
    assert!(!body.contains("very-secret-value"));
    assert_eq!(body, "Codex execution requested: [redacted credential-like content]");
}

#[test]
fn run_requests_name_each_missing_field_and_bound_the_instruction() {
    assert_eq!(
        run_fields(Some("t"), None, Some("o"), Some("i")).unwrap_err(),
        "invalid_input: sessionId is required"
    );
    assert_eq!(
        run_fields(Some("t"), Some("s"), Some("o"), Some(&"x".repeat(100_001))).unwrap_err(),
        "invalid_input: instruction is too long"
    );
    assert!(run_fields(Some("t"), Some("s"), Some("o"), Some(&"x".repeat(100_000))).is_ok());
    assert_eq!(admit_run(None, "h", false, Some(false)).unwrap_err(), "ownership_failure: retry source not found");
    assert_eq!(admit_run(None, "h", false, Some(true)).unwrap(), RunAdmission::Start);
}

#[test]
fn run_hashes_cover_the_retried_run() {
    let f = run_fields(Some("t"), Some("s"), Some("o"), Some("go")).unwrap();
    assert_eq!(run_payload_hash(&f, None, "r"), content_hash(&["t", "s", "go", "", "r"]));
    assert_eq!(run_payload_hash(&f, Some("old"), "r"), content_hash(&["t", "s", "go", "old", "r"]));
    assert_ne!(run_payload_hash(&f, Some("old"), "r"), run_payload_hash(&f, None, "r"));
}

#[test]
fn runs_need_current_settings_and_a_prepared_conversation() {
    assert_eq!(
        check_run_settings(None, "rev", true).unwrap_err(),
        "invalid_input: settingsRevision is required"
    );
    assert_eq!(
        check_run_settings(Some("old"), "rev", true).unwrap_err(),
        "settings_revision_conflict: check settings again before running"
    );
    assert_eq!(
        check_run_settings(Some("rev"), "rev", false).unwrap_err(),
        "execution_not_prepared: prepare the conversation before running"
    );
    assert!(check_run_settings(Some("rev"), "rev", true).is_ok());
    assert_eq!(
        settings_revision("t", "s", "m", "/p", "user", "now"),
        content_hash(&["t", "s", "m", "/p", "user", "now"])
    );
}

#[test]
fn binding_checks_the_reported_conversation() {
    let bound = bind_checks(None, "/project", "ctx", &report("thread-1", "/project")).unwrap();
    assert_eq!(bound.thread_id, "thread-1");
    assert_eq!(bound.sent_context.as_deref(), Some("ctx"));
    let resumed = bind_checks(Some("thread-1"), "/project", "ctx", &report("thread-1", "/project")).unwrap();
    assert_eq!(resumed.sent_context, None);
    assert_eq!(
        bind_checks(Some("thread-1"), "/project", "ctx", &report("thread-2", "/project")).unwrap_err(),
        "ownership_failure: provider resumed a different conversation"
    );
    assert_eq!(
        bind_checks(None, "/project", "ctx", &report("thread-1", "/elsewhere")).unwrap_err(),
        "workspace_thread_mismatch: provider returned a different conversation folder"
    );
    let mut silent = report("thread-1", "/project");
    silent.sandbox = None;
    assert_eq!(
        bind_checks(None, "/project", "ctx", &silent).unwrap_err(),
        "provider_config_unavailable: Codex did not report the effective sandbox"
    );
    silent.model = Some("  ".into());
    assert_eq!(
        bind_checks(None, "/project", "ctx", &silent).unwrap_err(),
        "provider_config_unavailable: Codex did not report the effective model"
    );
}

#[test]
fn changed_task_context_is_bounded_and_marked_sent_only_for_its_run() {
    let context = format!("{{\"detail\":\"{}\"}}", "d".repeat(30_000));
    let text = bootstrap_text(&context);
    assert!(text.len() <= 24_000 + '…'.len_utf8());
    assert!(text.starts_with("You are continuing work owned by this LLM Wiki Task."));
    assert!(context_changed(None, "h1"));
    assert!(context_changed(Some("h0"), "h1"));
    assert!(!context_changed(Some("h1"), "h1"));
}

#[test]
fn workspaces_stay_with_their_conversation() {
    assert!(check_workspace(None, None, "/a").is_ok());
    assert!(check_workspace(Some("t"), None, "/a").is_ok());
    assert!(check_workspace(Some("t"), Some("/a"), "/a").is_ok());
    assert_eq!(
        check_workspace(Some("t"), Some("/b"), "/a").unwrap_err(),
        "workspace_thread_mismatch: conversation t is bound to a different folder; create a new work session"
    );
}

#[test]
fn snapshots_show_the_asked_run_else_the_active_else_the_newest() {
    let runs = vec![run("r3", "failed"), run("r2", "awaiting_response"), run("r1", "succeeded")];
    let chosen = select_run(&runs, None).unwrap();
    assert_eq!(chosen.active, Some(1));
    assert_eq!(chosen.selected, Some(1));
    let asked = select_run(&runs, Some("r1")).unwrap();
    assert_eq!(asked.selected, Some(2));
    let idle = vec![run("r5", "cancelled"), run("r4", "succeeded")];
    let newest = select_run(&idle, None).unwrap();
    assert_eq!(newest.active, None);
    assert_eq!(newest.selected, Some(0));
    let missing = select_run(&idle, Some("r9")).unwrap_err();
    assert!(missing.starts_with("ownership_failure: Run not found in "));
    assert!(missing.ends_with(" Task session"));
    let empty = select_run(&vec![], None).unwrap();
    assert_eq!(empty.selected, None);
}

fn event(kind: &str, id: &str, summary: Option<&str>) -> SessionEvent {
    SessionEvent {
        kind: kind.into(),
        event_id: id.into(),
        occurred_at: "now".into(),
        projection_status: "applied".into(),
        summary: summary.map(str::to_string),
    }
}

#[test]
fn current_work_shows_two_progress_notes() {
    let events = vec![
        event("decision", "e1", Some("no")),
        event("work_log_checkpoint", "e2", Some(&"s".repeat(600))),
        event("work_log_checkpoint", "e3", None),
        event("work_log_checkpoint", "e4", Some("late")),
    ];
    let notes = recent_progress(&events);
    assert_eq!(notes.len(), 2);
    assert_eq!(notes[0].event_id, "e2");
    assert_eq!(notes[0].summary.chars().count(), 500);
    assert_eq!(notes[1].event_id, "e3");
    assert_eq!(notes[1].summary, "");
    assert_eq!(direct_task_room(5, 3), 2);
    assert_eq!(direct_task_room(5, 5), 0);
    assert_eq!(selection_kind("features"), Some(SelectionKind::Feature));
    assert_eq!(selection_kind("topics"), None);
}

#[test]
fn selections_and_topic_members_name_known_entities() {
    assert_eq!(selection_target("captures").unwrap(), (SelectionKind::Capture, Some("text")));
    assert_eq!(selection_target("tasks").unwrap(), (SelectionKind::Task, None));
    assert_eq!(selection_target("topics").unwrap_err().message, "Unsupported selection");
    assert_eq!(topic_member_location("vault").unwrap(), ("vault_documents", "path"));
    assert_eq!(topic_member_location("features").unwrap(), ("features", "id"));
    assert_eq!(topic_member_location("runs").unwrap_err().message, "Unsupported topic member");
    assert_eq!(membership_decision(false, Some(true)).unwrap_err().code, "not_found_or_not_visible");
    assert_eq!(membership_decision(true, None).unwrap_err().message, "included must be a boolean");
    assert_eq!(membership_decision(true, Some(false)).unwrap(), false);
}

#[test]
fn deleted_and_wrong_task_ownership_is_rejected_and_replays_stay_single() {
    let fields = run_fields(Some("task"), Some("session"), Some("repeat"), Some("Exactly once")).unwrap();
    let hash = run_payload_hash(&fields, None, "settings");
    assert_eq!(admit_run(None, &hash, false, None).unwrap(), RunAdmission::Start);
    for _ in 0..100 {
        assert_eq!(admit_run(Some(&hash), &hash, true, None).unwrap(), RunAdmission::Replay);
    }
    // A session of another Task holds none of these runs.
    let other_session: Vec<RunSummary> = vec![];
    assert!(select_run(&other_session, Some("run-repeat")).unwrap_err().contains("ownership_failure"));
    let own_session = vec![run("run-repeat", "running")];
    assert_eq!(select_run(&own_session, Some("run-repeat")).unwrap().selected, Some(0));
    // Once the Task carries a tombstone it no longer owns anything.
    assert!(ensure_task_owner(false).unwrap_err().contains("ownership_failure"));
    assert!(ensure_task_owner(true).is_ok());
}
