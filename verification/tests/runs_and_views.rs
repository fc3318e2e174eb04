use llm_wiki_desktop::assistance::{
    assistance_error, assistance_review_name, authorize_assistance, error_code, parse_kind, route,
    AssistanceRoute, TaskAssistanceAction,
};
use llm_wiki_desktop::images::{validate_all, validate_image, ImageInput, ImagesField};
use llm_wiki_desktop::overview::{
    check_snapshot, check_topic_id, order_items, page_bounds, recently_completed,
    resume_cursor, revision_from_digest, snapshot_revision, summarize, CursorFields, OverviewItem,
};
use llm_wiki_desktop::redact::redact_text;
use llm_wiki_desktop::run::{
    advance_run, halt_unfinished_runs, next_connection_generation, open_answer, place_item, stale_on_run_end, turn_outcome, DispatchState,
    RequestStatus, RunError, RunEvent, RunState, RunStatus, TurnOutcome,
};
use llm_wiki_desktop::startup::{resolve_vault, VaultStartup};
use llm_wiki_desktop::work_state::{AppError, EventKind};

fn run(status: RunStatus, dispatch: DispatchState) -> RunState {
    RunState {
        status,
        dispatch,
        error: None,
        stop_requested: false,
        revision: 1,
    }
}

#[test]
fn generations_survive_service_recreation_and_disconnect_never_reruns() {
    // A re-created service reads the stored generation and allocates the next one.
    let first = next_connection_generation(0);
    let second = next_connection_generation(first);
    assert!(second > first);
    // One dispatched run: losing the connection halts it for a person, runs nothing
    // again, adds no run, and stores the reason with credentials redacted.
    let mut runs = vec![advance_run(run(RunStatus::Queued, DispatchState::NotDispatched), RunEvent::DispatchRecorded).unwrap()];
    assert_eq!(halt_unfinished_runs(&mut runs, RunEvent::ConnectionLost), 1);
    assert_eq!(runs.len(), 1);
    assert_eq!(runs[0].status, RunStatus::NeedsAttention);
    assert_eq!(runs[0].dispatch, DispatchState::Uncertain);
    assert!(!redact_text("lost bearer hidden", 1000).contains("hidden"));
    let dispatched = run(RunStatus::Running, DispatchState::Accepted);
    let lost = advance_run(dispatched, RunEvent::ConnectionLost).unwrap();
    assert_eq!(lost.status, RunStatus::NeedsAttention);
    assert_eq!(lost.status.as_str(), "needs_attention");
    assert_eq!(lost.error, Some(RunError::ProviderConnectionLost));
    assert_eq!(advance_run(lost, RunEvent::ConnectionLost), None);
    assert_eq!(advance_run(lost, RunEvent::DispatchRecorded), None);
}

#[test]
fn recovery_distinguishes_dispatch_gap_and_stales_actionable_requests() {
    let queued = run(RunStatus::Queued, DispatchState::NotDispatched);
    let restarted = advance_run(queued, RunEvent::ServiceRestarted).unwrap();
    assert_eq!(restarted.status, RunStatus::Interrupted);
    let recorded = run(RunStatus::Running, DispatchState::DispatchRecorded);
    let uncertain = advance_run(recorded, RunEvent::ServiceRestarted).unwrap();
    assert_eq!(uncertain.status, RunStatus::NeedsAttention);
    assert_eq!(uncertain.dispatch, DispatchState::Uncertain);
    assert_eq!(uncertain.revision, 2);
    assert_eq!(stale_on_run_end(RequestStatus::Pending), RequestStatus::Stale);
    assert_eq!(stale_on_run_end(RequestStatus::Answered), RequestStatus::Answered);
    assert_eq!(
        open_answer(41, 41, uncertain.status, RequestStatus::Stale).unwrap_err(),
        "stale_request: Run is no longer active"
    );
}

#[test]
fn terminal_run_stales_formal_requests_and_rejects_late_responses() {
    let waiting = run(RunStatus::AwaitingResponse, DispatchState::Accepted);
    let done = advance_run(waiting, RunEvent::TurnFinished(TurnOutcome::Completed)).unwrap();
    assert_eq!(done.status, RunStatus::Succeeded);
    assert_eq!(stale_on_run_end(RequestStatus::Pending), RequestStatus::Stale);
    assert!(open_answer(31, 31, done.status, RequestStatus::Stale)
        .unwrap_err()
        .starts_with("stale_request"));
}

#[test]
fn formal_requests_enforce_generation_choices_secrets_and_compare_and_swap() {
    assert_eq!(
        open_answer(17, 18, RunStatus::AwaitingResponse, RequestStatus::Pending).unwrap_err(),
        "stale_request: provider connection changed"
    );
    assert_eq!(
        open_answer(18, 18, RunStatus::AwaitingResponse, RequestStatus::Pending).unwrap(),
        RequestStatus::Submitting
    );
    assert_eq!(
        open_answer(18, 18, RunStatus::AwaitingResponse, RequestStatus::Submitting).unwrap_err(),
        "stale_request: request is no longer actionable"
    );
}

#[test]
fn failed_and_cancelled_runs_project_without_fabricated_reports() {
    let running = run(RunStatus::Running, DispatchState::Accepted);
    let failed = advance_run(running, RunEvent::TurnFinished(turn_outcome(Some("failed")))).unwrap();
    assert_eq!(failed.status, RunStatus::Failed);
    assert_eq!(failed.error, Some(RunError::TurnFailed));
    let cancelled =
        advance_run(running, RunEvent::TurnFinished(turn_outcome(Some("interrupted")))).unwrap();
    assert_eq!(cancelled.status, RunStatus::Cancelled);
    assert_eq!(cancelled.error, None);
    assert_eq!(turn_outcome(None), TurnOutcome::Other);
}

#[test]
fn exact_event_identity_retry_lineage_and_stop_terminal_race_are_preserved() {
    let running = run(RunStatus::Running, DispatchState::Accepted);
    let stopping = advance_run(running, RunEvent::StopRequested).unwrap();
    assert!(stopping.stop_requested);
    let done = advance_run(stopping, RunEvent::TurnFinished(TurnOutcome::Completed)).unwrap();
    assert_eq!(done.status, RunStatus::Succeeded);
    assert_eq!(advance_run(done, RunEvent::StopRequested), None);
    assert_eq!(place_item(true, None, 3, 0).unwrap(), None);
    assert_eq!(
        place_item(false, Some(RunStatus::Succeeded), 3, 0).unwrap_err(),
        "stale_run: completed item arrived after terminal state"
    );
    assert_eq!(place_item(false, Some(RunStatus::Running), 1, 4).unwrap(), Some(4));
}

fn item(id: &str, kind: &str, state: &str, at: Option<&str>) -> OverviewItem {
    OverviewItem {
        entity_ref: Some(id.to_string()),
        kind: kind.to_string(),
        state: state.to_string(),
        updated_at: at.map(|s| s.to_string()),
    }
}

#[test]
fn overview_lists_recent_work_first_and_pages_it() {
    let items = vec![
        item("b", "task", "completed", Some("2026-01-01")),
        item("a", "capture", "captured", None),
        item("c", "task", "in_progress", Some("2026-03-01")),
        item("a2", "task", "completed", Some("2026-01-01")),
    ];
    let ordered = order_items(items);
    let ids: Vec<_> = ordered
        .iter()
        .map(|i| i.entity_ref.clone().unwrap())
        .collect();
    assert_eq!(ids, vec!["c", "a2", "b", "a"]);
    let summary = summarize(&ordered);
    assert_eq!(summary.captures, 1);
    assert_eq!(summary.tasks, 3);
    assert_eq!(summary.in_progress, 1);
    assert_eq!(summary.completed, 2);
    assert_eq!(summary.total, 4);
    assert_eq!(recently_completed(&ordered), vec![1, 2]);
    let first = page_bounds(4, 0, 3);
    assert_eq!((first.start, first.end, first.next), (0, 3, Some(3)));
    let last = page_bounds(4, 3, 3);
    assert_eq!((last.start, last.end, last.next), (3, 4, None));
    let beyond = page_bounds(4, 9, 3);
    assert_eq!((beyond.start, beyond.end, beyond.next), (4, 4, None));
}

#[test]
fn snapshot_revision_keeps_53_bits_of_the_digest() {
    let digest = [0xffu8; 32];
    assert_eq!(revision_from_digest(&digest), (1i64 << 53) - 1);
    let mut small = [0u8; 32];
    small[7] = 5;
    small[0] = 0xaa;
    assert_eq!(revision_from_digest(&small), 5);
    let r = snapshot_revision(b"{}");
    assert!(r >= 0 && r < (1i64 << 53));
    assert_ne!(r, snapshot_revision(b"{\"board\":1}"));
}

#[test]
fn overview_cursor_belongs_to_its_connection_and_snapshot() {
    let fields = CursorFields {
        owner: Some("owner".to_string()),
        expires: Some(200),
        offset: Some(50),
        attention_offset: None,
        snapshot: Some(9),
    };
    let position = resume_cursor(Some(&fields), "owner", 100, Some(9)).unwrap();
    assert_eq!(position.offset, 50);
    assert_eq!(position.attention_offset, 0);
    assert_eq!(position.snapshot, Some(9));
    assert_eq!(
        resume_cursor(Some(&fields), "other", 100, None).unwrap_err().code,
        "snapshot_stale"
    );
    assert_eq!(
        resume_cursor(Some(&fields), "owner", 300, None).unwrap_err().message,
        "The overview cursor is invalid or expired"
    );
    assert_eq!(
        resume_cursor(Some(&fields), "owner", 100, Some(8)).unwrap_err().message,
        "The overview snapshot changed; refresh from the first page"
    );
    assert!(resume_cursor(None, "owner", 100, None).is_err());
    assert!(check_snapshot(Some(9), 9).is_ok());
    assert!(check_snapshot(Some(9), 10).is_err());
    assert!(check_snapshot(None, 10).is_ok());
    assert!(check_topic_id("topic-1").is_ok());
    assert_eq!(
        check_topic_id("  ").unwrap_err().message,
        "topicId must be 1\u{2013}120 characters"
    );
}

fn image(media: &str, data: &str) -> ImageInput {
    ImageInput {
        name: Some("capture.png".to_string()),
        media_type: Some(media.to_string()),
        data: Some(data.to_string()),
    }
}

#[test]
fn capture_image_is_atomic_persistent_and_replayable() {
    let valid = validate_image(&image("image/png", "iVBORw0KGgo=")).unwrap();
    assert_eq!(valid.name, "capture.png");
    assert_eq!(valid.media_type, "image/png");
    assert_eq!(
        validate_image(&image("image/svg+xml", "not base64")).unwrap_err(),
        "invalid_input: invalid image encoding"
    );
    assert_eq!(
        validate_image(&image("image/svg+xml", "iVBORw0KGgo=")).unwrap_err(),
        "invalid_input: use a PNG, JPEG, GIF or WebP image up to 10 MB"
    );
    let unnamed = ImageInput {
        name: None,
        media_type: Some("image/gif".to_string()),
        data: Some("R0lGODlh".to_string()),
    };
    assert_eq!(validate_image(&unnamed).unwrap().name, "image");
}

#[test]
fn multiple_capture_images_validate_atomically_and_replay_without_duplicates() {
    let list = ImagesField::List(vec![
        Some(image("image/png", "iVBORw0KGgo=")),
        Some(image("image/png", "iVBORw0KGgo=")),
    ]);
    assert_eq!(validate_all(&list, None).unwrap().len(), 2);
    let bad = ImagesField::List(vec![
        Some(image("image/png", "iVBORw0KGgo=")),
        Some(image("image/png", "not base64")),
    ]);
    assert!(validate_all(&bad, None).is_err());
    let null = ImagesField::List(vec![None]);
    assert_eq!(
        validate_all(&null, None).unwrap_err(),
        "invalid_input: image must be an object"
    );
    assert_eq!(
        validate_all(&ImagesField::NotArray, None).unwrap_err(),
        "invalid_input: images must be an array"
    );
    assert!(validate_all(&ImagesField::Absent, None).unwrap().is_empty());
}

#[test]
fn first_launch_requires_a_vault_and_restores_the_selected_folder() {
    let first = resolve_vault("default-vault", false, VaultStartup::Unset, None);
    assert!(first.setup_required);
    assert!(first.intro_required);
    assert_eq!(first.path, "default-vault");
    let chosen = resolve_vault(
        "default-vault",
        true,
        VaultStartup::Configured {
            path: "chosen-vault".to_string(),
            is_dir: true,
        },
        None,
    );
    assert_eq!(chosen.path, "chosen-vault");
    assert!(!chosen.setup_required);
    let gone = resolve_vault(
        "default-vault",
        true,
        VaultStartup::Configured {
            path: "chosen-vault".to_string(),
            is_dir: false,
        },
        None,
    );
    assert_eq!(gone.path, "default-vault");
    assert!(gone.setup_required);
    let pending = resolve_vault("default-vault", true, VaultStartup::Pending { intro_required: false }, None);
    assert!(pending.setup_required && !pending.intro_required);
    let forced = resolve_vault("default-vault", false, VaultStartup::Unset, Some("forced"));
    assert_eq!(forced.path, "forced");
    assert!(!forced.setup_required);
}

#[test]
fn existing_installation_without_a_vault_setting_keeps_the_legacy_default() {
    let legacy = resolve_vault("legacy-default-vault", true, VaultStartup::Unset, None);
    assert_eq!(legacy.path, "legacy-default-vault");
    assert!(!legacy.setup_required);
    assert!(legacy.persist_path);
    assert!(!legacy.intro_required);
}

#[test]
fn assistance_actions_route_and_report() {
    assert_eq!(TaskAssistanceAction::Lineage.operation(), "task.lineage");
    assert_eq!(TaskAssistanceAction::KnowledgeWithdraw.operation(), "task-knowledge.withdraw");
    assert_eq!(route(TaskAssistanceAction::KnowledgeDraft, true), AssistanceRoute::SuppliedDraft);
    assert_eq!(route(TaskAssistanceAction::KnowledgeDraft, false), AssistanceRoute::Dispatch);
    assert_eq!(route(TaskAssistanceAction::ReviewGet, false), AssistanceRoute::AdvisoryGet);
    assert_eq!(
        assistance_review_name(TaskAssistanceAction::KnowledgePublish),
        "task_knowledge_publish"
    );
    assert_eq!(
        assistance_review_name(TaskAssistanceAction::RefinementGet),
        "unsupported_task_assistance_review"
    );
    let known = assistance_error("draft_conflict: revision 3 is stale");
    assert_eq!(known.code, "draft_conflict");
    assert_eq!(
        known.message,
        "The Knowledge draft changed; read fresh lineage before retrying"
    );
    let opaque = assistance_error("provider exploded: secret");
    assert_eq!(opaque.code, "assistance_unavailable");
    assert_eq!(error_code("cancelled"), "cancelled");
    assert_eq!(error_code("a:b:c"), "a");
    assert_eq!(parse_kind("task_created").unwrap(), EventKind::TaskCreated);
    assert_eq!(parse_kind("capture").unwrap_err().message, "Unsupported event kind");
    let scopes = vec!["session:write".to_string()];
    assert!(authorize_assistance(TaskAssistanceAction::RefinementMessage, Ok(()), &scopes).is_ok());
    assert_eq!(
        authorize_assistance(TaskAssistanceAction::KnowledgePublish, Ok(()), &scopes)
            .unwrap_err()
            .message,
        "The requested capability is unavailable"
    );
    let hidden = AppError::new("not_found_or_not_visible", "Task is unavailable");
    assert_eq!(
        authorize_assistance(TaskAssistanceAction::Lineage, Err(hidden), &scopes)
            .unwrap_err()
            .message,
        "Task is unavailable"
    );
    assert!(authorize_assistance(TaskAssistanceAction::Lineage, Ok(()), &vec![]).is_ok());
}
