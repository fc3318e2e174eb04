use llm_wiki_desktop::task_ops::{
    activity_key, new_task_content, plan_problem_revision, NewTaskFields,
    capture_text, check_completion, check_delete, check_problem_revision,
    check_readiness_status, check_task_revision, mutation_targets, plan_transition,
    replay_decision, required_field, revise_content, route_mutation, route_task_request,
    task_source, Mutation, RequestIds, TaskContent, TaskPatch, TaskRequest, TaskSource,
    TransitionPlan,
};
use llm_wiki_desktop::text::render_integer;

fn no_ids() -> RequestIds {
    RequestIds {
        task_id: None,
        problem_id: None,
        link_id: None,
        relationship_id: None,
        entry_id: None,
        item_id: None,
    }
}

fn content(title: &str) -> TaskContent {
    TaskContent {
        title: title.into(),
        detail: " detail ".into(),
        outcome: "outcome".into(),
        scope: String::new(),
        non_goals: String::new(),
        validation_criteria: "criteria".into(),
    }
}

fn patch_title(title: Option<&str>) -> TaskPatch {
    TaskPatch {
        title: title.map(str::to_string),
        detail: None,
        outcome: None,
        scope: None,
        non_goals: None,
        validation_criteria: None,
    }
}

#[test]
fn task_lifecycle_preserves_problem_independence_and_rejects_stale_revision() {
    match plan_transition("task", false, Some("in_progress")).unwrap() {
        TransitionPlan::Move { state, reopens } => {
            assert_eq!(state, "in_progress");
            assert!(!reopens);
        }
        TransitionPlan::Complete => panic!("start is no completion"),
    }
    assert!(matches!(
        plan_transition("in_progress", false, Some("completed")).unwrap(),
        TransitionPlan::Complete
    ));
    assert!(check_completion("in_progress").is_ok());
    assert_eq!(check_task_revision(Some(1), Some(1)).unwrap(), 1);
    let revised = revise_content(&content("Ship"), Some(&patch_title(Some("Shipped")))).unwrap();
    assert_eq!(revised.title, "Shipped");
    let stale = check_task_revision(Some(2), Some(1)).unwrap_err();
    assert!(stale.contains("head_conflict"));
    assert_eq!(stale, "head_conflict: currentRevision=2");
}

#[test]
fn revision_checks_report_each_failure() {
    assert_eq!(check_task_revision(None, Some(1)).unwrap_err(), "Task not found");
    assert_eq!(
        check_task_revision(Some(3), None).unwrap_err(),
        "invalid_input: expectedTaskRevision is required"
    );
    assert_eq!(
        check_problem_revision(None, None).unwrap_err(),
        "invalid_input: expectedProblemRevision is required"
    );
    assert_eq!(check_problem_revision(Some(1), None).unwrap_err(), "Problem not found");
    assert_eq!(
        check_problem_revision(Some(1), Some(12)).unwrap_err(),
        "head_conflict: currentRevision=12"
    );
    assert_eq!(check_problem_revision(Some(4), Some(4)).unwrap(), 4);
}

#[test]
fn integers_render_in_decimal() {
    assert_eq!(render_integer(0), "0");
    assert_eq!(render_integer(7), "7");
    assert_eq!(render_integer(1024), "1024");
    assert_eq!(render_integer(-35), "-35");
    assert_eq!(render_integer(i64::MIN), i64::MIN.to_string());
    assert_eq!(render_integer(i64::MAX), i64::MAX.to_string());
}

#[test]
fn revisions_keep_unpatched_fields_trimmed_and_need_a_title() {
    let r = revise_content(&content("Old"), Some(&patch_title(None))).unwrap();
    assert_eq!(r.title, "Old");
    assert_eq!(r.detail, "detail");
    assert_eq!(r.validation_criteria, "criteria");
    assert_eq!(
        revise_content(&content("Old"), Some(&patch_title(Some("   ")))).unwrap_err(),
        "invalid_input: title is required"
    );
    assert_eq!(
        revise_content(&content("Old"), None).unwrap_err(),
        "invalid_input: patch is required"
    );
}

#[test]
fn transitions_need_a_target_and_reopen_marks_ancestors() {
    assert_eq!(
        plan_transition("task", false, None).unwrap_err(),
        "invalid_input: to is required"
    );
    assert_eq!(
        plan_transition("completed", false, Some("task")).unwrap_err(),
        "transition_invalid: completed to task"
    );
    match plan_transition("completed", true, None).unwrap() {
        TransitionPlan::Move { state, reopens } => {
            assert_eq!(state, "in_progress");
            assert!(reopens);
        }
        TransitionPlan::Complete => panic!("reopen is no completion"),
    }
    assert_eq!(
        check_completion("task").unwrap_err(),
        "transition_invalid: task must be in_progress before completion"
    );
}

#[test]
fn requests_route_by_name() {
    assert_eq!(route_task_request("workbench.get").unwrap(), TaskRequest::WorkbenchGet);
    assert_eq!(
        route_task_request("task.reopen").unwrap(),
        TaskRequest::Mutation(Mutation::TaskReopen)
    );
    assert_eq!(
        route_task_request("task.explode").unwrap_err(),
        "Native operation is not implemented: task.explode"
    );
    assert_eq!(route_mutation("problem.resolution.create").unwrap(), Mutation::ProblemResolution);
    assert_eq!(
        route_mutation("task.get").unwrap_err(),
        "operation is not transaction-scoped: task.get"
    );
}

#[test]
fn required_fields_are_trimmed_and_named_when_missing() {
    assert_eq!(required_field(Some("  id-1 "), "taskId").unwrap(), "id-1");
    assert_eq!(required_field(Some(" "), "taskId").unwrap_err(), "invalid_input: taskId is required");
    assert_eq!(required_field(None, "body").unwrap_err(), "invalid_input: body is required");
    let mut ids = no_ids();
    ids.task_id = Some("t".into());
    assert_eq!(
        mutation_targets(Mutation::ProblemLinkDelete, &ids).unwrap_err(),
        "invalid_input: linkId is required"
    );
    ids.link_id = Some(" l ".into());
    assert_eq!(
        mutation_targets(Mutation::ProblemLinkDelete, &ids).unwrap(),
        vec!["t".to_string(), "l".to_string()]
    );
    assert_eq!(
        mutation_targets(Mutation::ChecklistUpdate, &no_ids()).unwrap_err(),
        "invalid_input: taskId is required"
    );
    assert!(mutation_targets(Mutation::TaskCreate, &no_ids()).unwrap().is_empty());
}

#[test]
fn new_tasks_come_from_exactly_one_source() {
    assert!(matches!(task_source(None, Some("text")).unwrap(), TaskSource::Direct(t) if t == "text"));
    assert!(matches!(task_source(Some("cap"), None).unwrap(), TaskSource::Origin(c) if c == "cap"));
    let both = "invalid_input: supply exactly one originCaptureId or inputText";
    assert_eq!(task_source(Some("cap"), Some("text")).unwrap_err(), both);
    assert_eq!(task_source(None, None).unwrap_err(), both);
}

#[test]
fn captures_need_text_or_an_image_and_replays_match_their_hash() {
    assert_eq!(capture_text(Some("  note "), 0).unwrap(), "note");
    assert_eq!(capture_text(Some(" "), 1).unwrap(), "");
    assert_eq!(
        capture_text(None, 0).unwrap_err(),
        "invalid_input: text or image is required"
    );
    assert_eq!(replay_decision(None, "h").unwrap(), false);
    assert_eq!(replay_decision(Some("h"), "h").unwrap(), true);
    assert_eq!(replay_decision(Some("g"), "h").unwrap_err(), "operation_conflict");
    assert!(check_readiness_status("calculated").is_ok());
    assert_eq!(check_readiness_status("resolved").unwrap_err(), "invalid_input: status");
}

#[test]
fn deletes_keep_task_hierarchies() {
    assert_eq!(check_delete(false, false).unwrap_err(), "Task not found");
    assert_eq!(
        check_delete(true, true).unwrap_err(),
        "Task hierarchy must be retained; complete or reopen its Subtasks"
    );
    assert!(check_delete(true, false).is_ok());
}

#[test]
fn new_tasks_need_a_title_and_default_their_category() {
    let mut f = NewTaskFields {
        title: Some(" Ship ".into()),
        detail: Some(" d ".into()),
        outcome: None,
        scope: None,
        non_goals: None,
        validation_criteria: None,
        category: Some("  ".into()),
    };
    let (content, category) = new_task_content(&f).unwrap();
    assert_eq!(content.title, "Ship");
    assert_eq!(content.detail, "d");
    assert_eq!(content.outcome, "");
    assert_eq!(category, "General");
    f.category = Some("Ops".into());
    assert_eq!(new_task_content(&f).unwrap().1, "Ops");
    f.title = None;
    assert_eq!(new_task_content(&f).unwrap_err(), "invalid_input: title is required");
}

#[test]
fn problem_revisions_follow_the_current_one() {
    let first = plan_problem_revision(Some("Context"), None, None).unwrap();
    assert_eq!(first.revision, 1);
    assert!(first.creates);
    assert_eq!(first.detail, "");
    let next = plan_problem_revision(Some(" Again "), Some(" raw "), Some(3)).unwrap();
    assert_eq!(next.statement, "Again");
    assert_eq!(next.detail, " raw ");
    assert_eq!(next.revision, 4);
    assert!(!next.creates);
    assert_eq!(
        plan_problem_revision(None, None, None).unwrap_err(),
        "invalid_input: statement is required"
    );
    assert_eq!(activity_key("op-1", "task", "t-9"), "op-1:task:t-9");
}
