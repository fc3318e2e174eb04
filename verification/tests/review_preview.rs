use llm_wiki_desktop::evidence::{get_field, Json};
use llm_wiki_desktop::review_preview::{
    check_draft_for_review, check_envelope, check_reviewed_target, consume_review,
    continuation_preview, json_equal, preview_problem, queues_publication, reuse_review,
    review_scope, DraftForReview, ReviewVerdict, StoredReview,
};

fn text(s: &str) -> Json {
    Json::Text(s.to_string())
}

fn obj(fields: Vec<(&str, Json)>) -> Json {
    Json::Object(fields.into_iter().map(|(k, v)| (k.to_string(), v)).collect())
}

fn stored(state: &str, expires: &str) -> StoredReview {
    StoredReview {
        id: "review-1".into(),
        payload_hash: "h".into(),
        state: state.into(),
        expires_at: expires.into(),
    }
}

#[test]
fn pending_reviews_are_reused_for_the_same_request() {
    let now = "2030-01-01T00:00:00.000000000Z";
    assert_eq!(reuse_review(None, "h", now).unwrap(), None);
    let pending = stored("pending", "2030-01-01T00:10:00.000000000Z");
    assert_eq!(reuse_review(Some(&pending), "h", now).unwrap(), Some("review-1".to_string()));
    let e = reuse_review(Some(&pending), "other", now).unwrap_err();
    assert_eq!((e.code.as_str(), e.message.as_str()), ("idempotency_conflict", "Reviewed content changed"));
    let expired = stored("pending", "2029-12-31T23:59:00.000000000Z");
    assert_eq!(reuse_review(Some(&expired), "h", now).unwrap_err().code, "challenge_replayed");
    let used = stored("accepted", "2030-01-01T00:10:00.000000000Z");
    assert_eq!(reuse_review(Some(&used), "h", now).unwrap_err().message, "Create a fresh review operation");
    assert!(check_envelope(262_144).is_ok());
    assert_eq!(check_envelope(262_145).unwrap_err().message, "Review content exceeds the bounded payload limit");
}

#[test]
fn drafts_are_reviewed_as_they_were_seen() {
    let draft = DraftForReview { content_hash: "c".into(), source_hash: Some("s".into()), state: "draft".into() };
    assert!(check_draft_for_review(Some(&draft), "c", "s", false).is_ok());
    assert_eq!(check_draft_for_review(None, "c", "s", false).unwrap_err().code, "not_found_or_not_visible");
    assert_eq!(check_draft_for_review(Some(&draft), "x", "s", false).unwrap_err().code, "draft_conflict");
    let no_source = DraftForReview { source_hash: None, ..draft.clone() };
    assert_eq!(check_draft_for_review(Some(&no_source), "c", "s", false).unwrap_err().code, "draft_conflict");
    let e = check_draft_for_review(Some(&draft), "c", "s", true).unwrap_err();
    assert_eq!((e.code.as_str(), e.message.as_str()), ("workflow_precondition", "Knowledge draft must be published"));
}

#[test]
fn problem_previews_bound_statement_and_detail() {
    let long = format!("  many   spaces {}", "x".repeat(5000));
    let problem = obj(vec![
        ("problemId", text("p1")),
        ("revision", obj(vec![("statement", text(&long)), ("detail", text("short")), ("revision", Json::Number("2".into()))])),
    ]);
    let shown = preview_problem(&problem);
    let revision = get_field(&shown, "revision").unwrap();
    match get_field(revision, "statement").unwrap() {
        Json::Text(t) => {
            assert!(t.starts_with("many spaces x"));
            assert_eq!(t.chars().count(), 4000);
        }
        _ => panic!("not a text"),
    }
    assert_eq!(get_field(revision, "detail").unwrap(), &text("short"));
    assert_eq!(get_field(revision, "revision").unwrap(), &Json::Number("2".into()));
    assert_eq!(get_field(&shown, "problemId").unwrap(), &text("p1"));
}

#[test]
fn continuation_previews_count_activity() {
    let snapshot = obj(vec![
        ("task", obj(vec![("taskId", text("t1")), ("title", text("  Ship\n it ")), ("state", text("task"))])),
        ("workLog", Json::Array(vec![Json::Null, Json::Null])),
        ("problemLinks", Json::Array(vec![])),
    ]);
    let preview = continuation_preview(&snapshot, "hash");
    let task = get_field(&preview, "task").unwrap();
    assert_eq!(get_field(task, "title").unwrap(), &text("Ship it"));
    assert_eq!(get_field(task, "taskRevision").unwrap(), &Json::Null);
    let activity = get_field(&preview, "activity").unwrap();
    assert_eq!(get_field(activity, "workLogCount").unwrap(), &Json::Number("2".into()));
    assert_eq!(get_field(activity, "knowledgeCount").unwrap(), &Json::Number("0".into()));
    assert_eq!(get_field(&preview, "relationships").unwrap(), &Json::Null);
    assert_eq!(get_field(&preview, "sourceHash").unwrap(), &text("hash"));
}

#[test]
fn review_decisions_need_a_pending_unexpired_review_of_the_same_request() {
    let now = "2030-01-01T00:00:00.000000000Z";
    let pending = stored("pending", "2030-01-01T00:10:00.000000000Z");
    assert_eq!(consume_review("accept", Some(&pending), "h", now).unwrap(), ReviewVerdict::Accept);
    assert_eq!(consume_review("cancel", Some(&pending), "h", now).unwrap(), ReviewVerdict::Cancel);
    assert_eq!(consume_review("maybe", Some(&pending), "h", now).unwrap_err().message, "Invalid review decision");
    assert_eq!(consume_review("accept", None, "h", now).unwrap_err().message, "Review is unavailable");
    assert_eq!(consume_review("accept", Some(&pending), "x", now).unwrap_err().message, "Reviewed payload changed");
    let decided = stored("accept", "2030-01-01T00:10:00.000000000Z");
    assert_eq!(consume_review("reject", Some(&decided), "h", now).unwrap_err().code, "challenge_replayed");
    let expired = stored("pending", "2029-01-01T00:00:00.000000000Z");
    assert_eq!(consume_review("accept", Some(&expired), "h", now).unwrap_err().code, "challenge_expired");
    assert_eq!(review_scope("task_knowledge_withdraw"), "knowledge:publish");
    assert_eq!(review_scope("task_knowledge_regenerate"), "knowledge:draft:write");
    assert_eq!(review_scope("task_revision"), "session:write");
    assert!(queues_publication(ReviewVerdict::Accept, "task_knowledge_publish"));
    assert!(!queues_publication(ReviewVerdict::Reject, "task_knowledge_publish"));
    assert!(!queues_publication(ReviewVerdict::Accept, "task_revision"));
}

#[test]
fn reviewed_material_must_be_unchanged() {
    let a = obj(vec![("task", obj(vec![("taskRevision", Json::Number("2".into()))]))]);
    let same = obj(vec![("task", obj(vec![("taskRevision", Json::Number("2".into()))]))]);
    let moved = obj(vec![("task", obj(vec![("taskRevision", Json::Number("3".into()))]))]);
    assert!(json_equal(&a, &same));
    assert!(!json_equal(&a, &moved));
    assert!(!json_equal(&text("1"), &Json::Number("1".into())));
    assert!(check_reviewed_target(&a, &same).is_ok());
    assert_eq!(check_reviewed_target(&a, &moved).unwrap_err().code, "head_conflict");
}
