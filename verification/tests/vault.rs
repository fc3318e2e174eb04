use llm_wiki_desktop::digest::hash_text;
use llm_wiki_desktop::vault::{
    check_evidence_read, check_moved_copy, check_query, check_withdrawn_document,
    clamp_search_limit, evidence_content, evidence_title, evidence_uri, fts_query,
    publish_step, publish_write_failure, recovery_path, resume_withdrawal, scope_rule,
    shown_hits, EvidenceGrant, PublishStep, ScopeRule,
};

#[test]
fn queries_need_a_word_and_at_most_512_bytes() {
    assert!(check_query("deploy").is_ok());
    let e = check_query("   ").unwrap_err();
    assert_eq!(e.code, "invalid_input");
    assert_eq!(e.message, "Query must be 1–512 characters");
    assert!(check_query(&"a".repeat(513)).is_err());
    assert!(check_query(&"a".repeat(512)).is_ok());
}

#[test]
fn search_words_become_quoted_required_phrases() {
    assert_eq!(fts_query("alpha beta"), "\"alpha\" AND \"beta\"");
    assert_eq!(fts_query("  say \"hi\"\tnow "), "\"say\" AND \"\"\"hi\"\"\" AND \"now\"");
    assert_eq!(fts_query("인터넷"), "\"인터넷\"");
    assert_eq!(fts_query("   "), "");
}

#[test]
fn search_limits_and_windows() {
    assert_eq!(clamp_search_limit(0, 1, 20), 1);
    assert_eq!(clamp_search_limit(50, 1, 20), 20);
    assert_eq!(clamp_search_limit(7, 1, 10), 7);
    assert_eq!(shown_hits(21, 20), (20, true));
    assert_eq!(shown_hits(3, 20), (3, false));
    assert_eq!(evidence_uri("ev_1"), "llm-wiki://evidence/ev_1");
}

#[test]
fn scopes_decide_what_a_connection_sees() {
    assert_eq!(scope_rule("workbench"), ScopeRule::Everything);
    assert_eq!(scope_rule("topic"), ScopeRule::TopicMembers);
    assert_eq!(scope_rule("session"), ScopeRule::SessionPublications);
    assert_eq!(scope_rule("global"), ScopeRule::Nothing);
}

#[test]
fn publishing_writes_only_new_documents() {
    assert!(matches!(publish_step(None, "h", None).unwrap(), PublishStep::Write));
    assert!(matches!(publish_step(Some("h"), "h", None).unwrap(), PublishStep::Unchanged(x) if x == "h"));
    let changed = publish_step(Some("old"), "new", None).unwrap_err();
    assert_eq!(changed.code, "publish_conflict");
    assert_eq!(changed.message, "Knowledge changed outside LLM Wiki; refresh before publishing");
    assert_eq!(
        publish_step(Some("old"), "new", Some("old")).unwrap_err().message,
        "Replacing existing Knowledge requires a separate reviewed patch"
    );
    assert_eq!(
        publish_step(None, "new", Some("old")).unwrap_err().message,
        "Knowledge target changed; refresh before publishing"
    );
    assert_eq!(publish_write_failure(true).code, "publish_conflict");
    assert_eq!(publish_write_failure(false).code, "storage_unavailable");
}

#[test]
fn withdrawals_keep_a_recovery_copy() {
    let path = recovery_path("review-1");
    assert_eq!(path, format!(".llm-wiki-recovery/{}.recovery", hash_text("review-1")));
    assert!(resume_withdrawal(false, "h", "h").is_ok());
    assert_eq!(
        resume_withdrawal(true, "h", "h").unwrap_err().message,
        "Publication changed after withdrawal; the recovery copy is preserved"
    );
    assert_eq!(
        check_withdrawn_document("x", "h").unwrap_err().message,
        "Published document changed; withdrawal was blocked"
    );
    assert_eq!(
        check_moved_copy("x", "h", &path).unwrap_err().message,
        format!("External change preserved in {path}; review before continuing")
    );
    assert!(check_moved_copy("h", "h", &path).is_ok());
}

#[test]
fn evidence_reads_follow_their_grant() {
    let grant = EvidenceGrant { revision: "r1".into(), expires_at: "2030-01-01T00:00:00+00:00".into() };
    let now = "2029-06-01T00:00:00+00:00";
    assert!(check_evidence_read(Some(&grant), now, Some("r1"), None).is_ok());
    assert!(check_evidence_read(Some(&grant), now, Some("r1"), Some("r1")).is_ok());
    assert_eq!(check_evidence_read(None, now, Some("r1"), None).unwrap_err().code, "not_found_or_not_visible");
    let later = "2031-01-01T00:00:00+00:00";
    assert_eq!(check_evidence_read(Some(&grant), later, Some("r1"), None).unwrap_err().code, "not_found_or_not_visible");
    assert_eq!(check_evidence_read(Some(&grant), now, Some("r2"), None).unwrap_err().code, "evidence_revision_changed");
    assert_eq!(check_evidence_read(Some(&grant), now, Some("r1"), Some("r0")).unwrap_err().code, "evidence_revision_changed");
    assert_eq!(check_evidence_read(Some(&grant), now, None, None).unwrap_err().code, "not_found_or_not_visible");
    assert_eq!(evidence_title("notes/plan.md"), "notes/plan");
    assert_eq!(evidence_title("a.md.md"), "a");
    assert_eq!(evidence_title("readme"), "readme");
    let (text, cut) = evidence_content(&"가".repeat(8001));
    assert_eq!(text.chars().count(), 8000);
    assert!(cut);
    assert_eq!(evidence_content("short"), ("short".to_string(), false));
}
