use llm_wiki_desktop::task_ops::check_delete;
use llm_wiki_desktop::workbench::{
    display_order_of, group_by_category, lay_out_workbench, RefiningSession, RowKind,
    ShortcutKind, WorkbenchRow,
};

fn row(kind: RowKind, id: &str, state: Option<&str>, category: Option<&str>, at: &str) -> WorkbenchRow {
    WorkbenchRow {
        kind,
        id: id.to_string(),
        state: state.map(str::to_string),
        category: category.map(str::to_string),
        last_activity: Some(at.to_string()),
    }
}

fn capture_session(id: &str) -> RefiningSession {
    RefiningSession { capture_id: Some(id.to_string()), task_id: None, draft_revision: 1 }
}

#[test]
fn workbench_includes_all_saved_refinements_for_workflow_lanes() {
    let rows: Vec<WorkbenchRow> = (0..8)
        .map(|i| row(RowKind::Capture, &format!("capture-{i}"), None, None, "2024-01-01 00:00:00"))
        .collect();
    let sessions: Vec<RefiningSession> =
        (0..8).map(|i| capture_session(&format!("capture-{i}"))).collect();
    let board = lay_out_workbench(&rows, &sessions);
    assert_eq!(board.refining.len(), 8);
    let open: Vec<RefiningSession> = sessions[1..].to_vec();
    let board = lay_out_workbench(&rows, &open);
    assert_eq!(board.refining.len(), 7);
}

#[test]
fn workbench_projects_legacy_problem_only_refinement_without_inventing_task() {
    let rows = vec![row(RowKind::Refinement, "legacy-only", None, None, "2024-01-01 00:00:00")];
    let board = lay_out_workbench(&rows, &vec![]);
    assert_eq!(board.categories.len(), 1);
    assert_eq!(board.categories[0].name, "General");
    let items: Vec<&WorkbenchRow> =
        board.categories.iter().flat_map(|c| c.items.iter().map(|&i| &rows[i])).collect();
    assert!(items.iter().any(|r| r.kind == RowKind::Refinement));
    assert!(!items.iter().any(|r| r.kind == RowKind::Task));
    let hidden = lay_out_workbench(&vec![], &vec![]);
    assert!(hidden.categories.is_empty());
}

#[test]
fn rows_show_most_recent_first_and_ties_keep_their_order() {
    let rows = vec![
        row(RowKind::Task, "a", Some("todo"), None, "2024-01-01"),
        row(RowKind::Task, "b", Some("todo"), None, "2024-03-01"),
        row(RowKind::Capture, "c", None, None, "2024-01-01"),
        row(RowKind::Capture, "d", None, None, "2024-02-01"),
    ];
    assert_eq!(display_order_of(&rows), vec![1, 3, 0, 2]);
}

#[test]
fn active_tasks_are_not_repeated_as_refining_work() {
    let rows = vec![
        row(RowKind::Task, "t1", Some("in_progress"), Some("Work"), "2024-02-01"),
        row(RowKind::Task, "t2", Some("todo"), Some("Work"), "2024-01-01"),
    ];
    let sessions = vec![
        RefiningSession { capture_id: None, task_id: Some("t1".into()), draft_revision: 3 },
        RefiningSession { capture_id: Some("c".into()), task_id: Some("t2".into()), draft_revision: 4 },
        RefiningSession { capture_id: Some("c9".into()), task_id: None, draft_revision: 5 },
        RefiningSession { capture_id: None, task_id: None, draft_revision: 6 },
    ];
    let board = lay_out_workbench(&rows, &sessions);
    assert_eq!(board.active, vec![0]);
    assert_eq!(board.refining.len(), 2);
    assert_eq!(board.refining[0].kind, ShortcutKind::Task);
    assert_eq!(board.refining[0].id, "t2");
    assert_eq!(board.refining[0].draft_revision, 4);
    assert_eq!(board.refining[1].kind, ShortcutKind::Capture);
    assert_eq!(board.refining[1].id, "c9");
}

#[test]
fn categories_are_sorted_and_hold_each_row_once() {
    let rows = vec![
        row(RowKind::Task, "t1", Some("todo"), Some("Zeta"), "2024-01-03"),
        row(RowKind::Capture, "c1", None, None, "2024-01-02"),
        row(RowKind::Task, "t2", Some("todo"), Some("Alpha"), "2024-01-01"),
        row(RowKind::Task, "t3", Some("todo"), Some("Zeta"), "2024-01-04"),
    ];
    let order = display_order_of(&rows);
    let groups = group_by_category(&rows, &order);
    let names: Vec<&str> = groups.iter().map(|g| g.name.as_str()).collect();
    assert_eq!(names, vec!["Alpha", "General", "Zeta"]);
    assert_eq!(groups[2].items, vec![3, 0]);
    let total: usize = groups.iter().map(|g| g.items.len()).sum();
    assert_eq!(total, rows.len());
}

#[test]
fn delete_tombstones_task_across_reopen_and_hides_every_workbench_shortcut() {
    let task = row(RowKind::Task, "delete-me", Some("in_progress"), Some("General"), "2024-01-02");
    let session = RefiningSession { capture_id: None, task_id: Some("delete-me".into()), draft_revision: 1 };
    let before = lay_out_workbench(&vec![task.clone()], &vec![session]);
    assert_eq!(before.active, vec![0]);
    assert!(before.refining.is_empty());
    assert!(check_delete(true, false).is_ok());
    assert!(check_delete(false, false).unwrap_err().contains("Task not found"));
    // After the tombstone the store lists neither the Task nor its refinement session,
    // on this launch and the next.
    let rows = vec![row(RowKind::Capture, "kept", None, None, "2024-01-01")];
    let after = lay_out_workbench(&rows, &vec![]);
    assert!(after.active.is_empty());
    assert!(after.refining.is_empty());
    assert!(after
        .categories
        .iter()
        .flat_map(|c| c.items.iter().map(|&i| &rows[i]))
        .all(|r| r.id != "delete-me"));
}
