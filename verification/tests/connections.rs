use llm_wiki_desktop::access::{ConnectionGrant, ConnectionRow, TaskVisibility};
use llm_wiki_desktop::projection::ProjectionDrain;
use llm_wiki_desktop::service::{
    evidence_budget, open_mode, recovery_route, reject_authority_fields, search_scope,
    OpenMode, RecoveryRoute, SearchScope, TaskAssistanceApplicationService,
    WorkTrackingApplicationService,
};
use llm_wiki_desktop::store::{
    ConnectionLifecycle, MarkdownVaultAdapter, SqliteTaskRepository, SqliteWorkTrackingStore,
    SubjectLookup,
};
use llm_wiki_desktop::text::bounded_overview_text;
use llm_wiki_desktop::work_state::AppError;

fn strings(values: &[&str]) -> Vec<String> {
    values.iter().map(|v| v.to_string()).collect()
}

fn active(scopes: &[&str]) -> Option<ConnectionRow> {
    Some(ConnectionRow {
        scopes: Some(strings(scopes)),
        state: "active".to_string(),
    })
}

fn service() -> WorkTrackingApplicationService {
    WorkTrackingApplicationService::new(
        SqliteWorkTrackingStore::new("state.sqlite3"),
        MarkdownVaultAdapter::new("state.sqlite3", "vault"),
        TaskAssistanceApplicationService::new("state.sqlite3", "settings.json", "vault"),
    )
}

#[test]
fn connections_are_validated_before_they_are_stored() {
    let name = SqliteWorkTrackingStore::create_connection(
        "  Notes agent  ",
        &strings(&["session:read", "topic:read"]),
        &strings(&["topic-1"]),
        "confirm_each",
    )
    .unwrap();
    assert_eq!(name, "Notes agent");
    let blank = SqliteWorkTrackingStore::create_connection(" ", &vec![], &vec![], "confirm_each")
        .unwrap_err();
    assert_eq!(blank.message, "Connection name must be 1\u{2013}80 characters");
    let scope = SqliteWorkTrackingStore::create_connection(
        "x",
        &strings(&["admin"]),
        &vec![],
        "confirm_each",
    )
    .unwrap_err();
    assert_eq!(scope.message, "Connection contains an unsupported scope");
    let topics = SqliteWorkTrackingStore::create_connection(
        "x",
        &vec![],
        &strings(&[" "]),
        "confirm_each",
    )
    .unwrap_err();
    assert_eq!(topics.message, "A connection may allow up to 20 valid topic IDs");
    let policy =
        SqliteWorkTrackingStore::create_connection("x", &vec![], &vec![], "never").unwrap_err();
    assert_eq!(policy.message, "Unsupported checkpoint policy");
}

#[test]
fn revoking_keeps_the_first_revocation_time() {
    let live = ConnectionLifecycle {
        state: "active".to_string(),
        revoked_at: None,
        updated_at: "t0".to_string(),
    };
    let once = service().revoke_connection(&live, "t1");
    assert_eq!(once.state, "revoked");
    assert_eq!(once.revoked_at.as_deref(), Some("t1"));
    let twice = SqliteWorkTrackingStore::revoke_connection(&once, "t2");
    assert_eq!(twice.revoked_at.as_deref(), Some("t1"));
    assert_eq!(twice.updated_at, "t2");
}

#[test]
fn scopes_come_only_from_active_connections() {
    let s = service();
    assert_eq!(s.scopes(active(&["session:read"])).unwrap(), vec!["session:read"]);
    let revoked = Some(ConnectionRow {
        scopes: Some(vec![]),
        state: "revoked".to_string(),
    });
    assert_eq!(s.scopes(revoked).unwrap_err().message, "Connection is unavailable");
    let corrupt = Some(ConnectionRow {
        scopes: None,
        state: "active".to_string(),
    });
    assert_eq!(s.scopes(corrupt).unwrap_err().code, "internal_error");
    assert_eq!(s.scopes(None).unwrap_err().code, "not_found_or_not_visible");
    assert!(s.require_scope(active(&["topic:read"]), "topic:read").is_ok());
    assert_eq!(
        s.require_scope(active(&["topic:read"]), "session:read").unwrap_err().message,
        "The requested capability is unavailable"
    );
}

#[test]
fn owned_sessions_are_bounded() {
    let sessions: Vec<(String, String)> = (0..60)
        .map(|i| (format!("s{i}"), "x".repeat(200)))
        .collect();
    let page = service()
        .owned_sessions(active(&["session:read"]), sessions.clone())
        .unwrap();
    assert_eq!(page.len(), 50);
    assert_eq!(page[0].0, "s0");
    assert_eq!(page[0].1.chars().count(), 120);
    assert!(service().owned_sessions(active(&["topic:read"]), sessions).is_err());
}

#[test]
fn guessed_subjects_stay_hidden() {
    let grant = ConnectionGrant {
        scopes: strings(&["workbench:overview:read"]),
        allowed_topics: vec![],
    };
    let visible = TaskVisibility {
        task_exists: true,
        current_visible: false,
        task_topics: vec![],
    };
    assert_eq!(
        SqliteWorkTrackingStore::task_assistance_subject_task(
            SqliteWorkTrackingStore::subject_lookup("refinement"),
            Some("task-1"),
            Some(&grant),
            &visible,
        )
        .unwrap(),
        "task-1"
    );
    assert_eq!(
        SqliteWorkTrackingStore::task_assistance_subject_task(
            SqliteWorkTrackingStore::subject_lookup("other"),
            Some("task-1"),
            Some(&grant),
            &visible,
        )
        .unwrap_err()
        .message,
        "Task assistance subject is unavailable"
    );
    assert_eq!(SqliteWorkTrackingStore::subject_lookup("advisory"), SubjectLookup::AdvisoryRun);
    assert_eq!(
        SqliteWorkTrackingStore::refinement_session_discoverable(None, Some(&grant), &visible)
            .unwrap_err()
            .message,
        "Refinement session is unavailable"
    );
    assert_eq!(
        SqliteWorkTrackingStore::current_chat_advisory_discoverable(None, Some(&grant), &visible)
            .unwrap_err()
            .message,
        "Current Chat advisory is unavailable"
    );
    let missing = TaskVisibility {
        task_exists: false,
        current_visible: false,
        task_topics: vec![],
    };
    assert_eq!(
        SqliteWorkTrackingStore::task_continuation_discoverable(Some(&grant), &missing)
            .unwrap_err()
            .message,
        "Task is unavailable"
    );
}

#[test]
fn topics_are_granted_per_connection() {
    let allowed = strings(&["t1"]);
    assert!(SqliteWorkTrackingStore::require_topic("mcp", "t1", Some(&allowed)).is_ok());
    assert_eq!(
        SqliteWorkTrackingStore::require_topic("mcp", "t2", Some(&allowed)).unwrap_err().message,
        "The requested topic is unavailable"
    );
    assert!(SqliteWorkTrackingStore::require_topic("native-in-app-chat", "t2", None).is_ok());
    assert_eq!(
        SqliteWorkTrackingStore::require_topic("mcp", " ", None).unwrap_err().code,
        "invalid_input"
    );
}

#[test]
fn activity_durations_are_capped() {
    let record = SqliteWorkTrackingStore::record_activity(
        "chat",
        Some("mcp"),
        None,
        "inbound_work_append",
        "accepted",
        None,
        u128::MAX,
    );
    assert_eq!(record.duration_ms, i64::MAX);
    assert_eq!(record.connection_id.as_deref(), Some("mcp"));
    assert_eq!(record.session_id, None);
    let quick = SqliteWorkTrackingStore::record_activity("chat", None, None, "op", "rejected", Some("invalid_input"), 12);
    assert_eq!(quick.duration_ms, 12);
    assert_eq!(quick.error.as_deref(), Some("invalid_input"));
}

#[test]
fn recovery_and_search_routes() {
    assert_eq!(recovery_route("withdraw").unwrap(), RecoveryRoute::LegacyWithdraw);
    assert_eq!(
        recovery_route("archive").unwrap_err().message,
        "Unsupported publication recovery action"
    );
    let mut projection = ProjectionDrain::new(3);
    while projection.wants_more() {
        projection.record(true);
    }
    let (codes_processed, codes) = service().drain(
        &projection,
        &vec![Ok(()), Err(AppError::new("publish_conflict", "changed"))],
    );
    assert_eq!(codes_processed, 3);
    assert_eq!(codes, vec![None, Some("publish_conflict".to_string())]);
    assert_eq!(search_scope("topic").unwrap(), (SearchScope::Topic, "topic:read"));
    assert_eq!(
        search_scope("galaxy").unwrap_err().message,
        "scope must be session, topic, or workbench"
    );
    assert_eq!(evidence_budget(&vec![10_000, 10_000, 10_000]).unwrap(), 2);
    assert_eq!(evidence_budget(&vec![]).unwrap_err().code, "invalid_input");
    assert_eq!(evidence_budget(&vec![1; 9]).unwrap_err().code, "invalid_input");
    assert!(reject_authority_fields(&strings(&["summary"])).is_ok());
    assert!(reject_authority_fields(&strings(&["summary", "approved"])).is_err());
    assert_eq!(open_mode(None, true).unwrap(), OpenMode::Create);
    assert_eq!(
        open_mode(Some("continue_task"), true).unwrap_err().message,
        "Task continuation does not accept a Capture"
    );
    assert_eq!(
        open_mode(Some("fork"), false).unwrap_err().message,
        "mode must be create, resume, or continue_task"
    );
}

#[test]
fn stores_remember_their_locations() {
    assert_eq!(SqliteWorkTrackingStore::new("a.db").database_path(), "a.db");
    assert_eq!(SqliteTaskRepository::new("b.db").path(), "b.db");
    assert_eq!(MarkdownVaultAdapter::new("a.db", "vault").root_path(), "vault");
    assert_eq!(
        SqliteWorkTrackingStore::review_action(None).unwrap_err().code,
        "storage_unavailable"
    );
    assert_eq!(
        SqliteWorkTrackingStore::review_action(Some("publish".to_string())).unwrap(),
        "publish"
    );
    assert_eq!(bounded_overview_text("  a \n b  ", 240), "a b");
    assert_eq!(bounded_overview_text("abcdef", 3), "abc");
}

#[test]
fn projection_drain_stops_at_its_limit_or_an_empty_queue() {
    let mut idle = ProjectionDrain::new(0);
    assert!(!idle.wants_more());
    assert_eq!(idle.processed(), 0);
    let mut short = ProjectionDrain::new(10);
    short.record(true);
    short.record(true);
    short.record(false);
    assert!(!short.wants_more());
    assert_eq!(short.processed(), 2);
    let (count, codes) = service().drain(&short, &vec![]);
    assert_eq!(count, 2);
    assert!(codes.is_empty());
    idle = ProjectionDrain::new(1);
    idle.record(true);
    assert!(!idle.wants_more());
    assert_eq!(idle.processed(), 1);
}
