//! Connection capabilities: scopes, topics and the visibility of Tasks and Problems.

use vstd::prelude::*;
use crate::text::text_eq;
use crate::work_state::{AppError, plain_error};

verus! {

/// The connection that the desktop chat uses; it is treated as the owner of every session.
pub open spec fn native_connection() -> Seq<char> {
    "native-in-app-chat"@
}

/// The value behind an optional reference.
pub open spec fn owned<T>(o: Option<&T>) -> Option<T> {
    match o {
        Some(v) => Some(*v),
        None => None,
    }
}

/// Whether `name` occurs in the list.
pub open spec fn listed(list: Seq<String>, name: Seq<char>) -> bool {
    exists|i: int| 0 <= i < list.len() && (#[trigger] list[i])@ == name
}

/// Whether the list holds `name`.
pub fn contains_text(list: &Vec<String>, name: &str) -> (r: bool)
    ensures
        r == listed(list@, name@),
{
    let mut i: usize = 0;
    while i < list.len()
        invariant
            i <= list@.len(),
            forall|j: int| 0 <= j < i ==> (#[trigger] list@[j])@ != name@,
        decreases list@.len() - i,
    {
        if text_eq(list[i].as_str(), name) {
            return true;
        }
        i = i + 1;
    }
    false
}

/// Whether the two lists share a name.
pub open spec fn overlap(a: Seq<String>, b: Seq<String>) -> bool {
    exists|i: int| 0 <= i < a.len() && listed(b, (#[trigger] a[i])@)
}

/// Whether the two lists share a name.
pub fn lists_overlap(a: &Vec<String>, b: &Vec<String>) -> (r: bool)
    ensures
        r == overlap(a@, b@),
{
    let mut i: usize = 0;
    while i < a.len()
        invariant
            i <= a@.len(),
            forall|j: int| 0 <= j < i ==> !listed(b@, (#[trigger] a@[j])@),
        decreases a@.len() - i,
    {
        if contains_text(b, a[i].as_str()) {
            return true;
        }
        i = i + 1;
    }
    false
}

/// What an active connection has been granted.
#[derive(Debug, Clone)]
pub struct ConnectionGrant {
    pub scopes: Vec<String>,
    pub allowed_topics: Vec<String>,
}

/// A stored connection row: its scope list (None when the stored list is unreadable)
/// and its lifecycle state.
#[derive(Debug, Clone)]
pub struct ConnectionRow {
    pub scopes: Option<Vec<String>>,
    pub state: String,
}

/// The scopes of a connection, or the error a caller receives.
pub open spec fn connection_scopes_outcome(row: Option<ConnectionRow>) -> Result<Seq<String>, (Seq<char>, Seq<char>)> {
    match row {
        None => Err(("not_found_or_not_visible"@, "Connection is unavailable"@)),
        Some(r) => if r.state@ != "active"@ {
            Err(("not_found_or_not_visible"@, "Connection is unavailable"@))
        } else {
            match r.scopes {
                None => Err(("internal_error"@, "Connection scope data is invalid"@)),
                Some(s) => Ok(s@),
            }
        },
    }
}

/// Whether a result agrees with an expected success value or (code, message) error.
pub open spec fn agrees<T>(r: Result<T, AppError>, expected: Result<T, (Seq<char>, Seq<char>)>) -> bool {
    match expected {
        Ok(v) => r == Ok::<T, AppError>(v),
        Err((code, message)) => r matches Err(e) && plain_error(e, code, message),
    }
}

/// Whether a unit result agrees with an optional expected (code, message) error.
pub open spec fn denies(r: Result<(), AppError>, expected: Option<(Seq<char>, Seq<char>)>) -> bool {
    match expected {
        None => r is Ok,
        Some((code, message)) => r matches Err(e) && plain_error(e, code, message),
    }
}

/// The scopes of an active connection.
pub fn connection_scopes(row: Option<ConnectionRow>) -> (r: Result<Vec<String>, AppError>)
    ensures
        match connection_scopes_outcome(row) {
            Ok(s) => r matches Ok(v) && v@ == s,
            Err((code, message)) => r matches Err(e) && plain_error(e, code, message),
        },
{
    match row {
        None => Err(AppError::new("not_found_or_not_visible", "Connection is unavailable")),
        Some(r) => {
            if !text_eq(r.state.as_str(), "active") {
                return Err(AppError::new("not_found_or_not_visible", "Connection is unavailable"));
            }
            match r.scopes {
                None => Err(AppError::new("internal_error", "Connection scope data is invalid")),
                Some(s) => Ok(s),
            }
        },
    }
}

/// Requires a scope of an application-service caller.
pub fn require_scope(scopes: &Vec<String>, scope: &str) -> (r: Result<(), AppError>)
    ensures
        denies(
            r,
            if listed(scopes@, scope@) {
                None
            } else {
                Some(("not_found_or_not_visible"@, "The requested capability is unavailable"@))
            },
        ),
{
    if contains_text(scopes, scope) {
        Ok(())
    } else {
        Err(AppError::new("not_found_or_not_visible", "The requested capability is unavailable"))
    }
}

/// Requires a scope inside a storage transaction; a missing or inactive connection has none.
pub fn require_scope_on(scopes: Option<&Vec<String>>, scope: &str) -> (r: Result<(), AppError>)
    ensures
        denies(
            r,
            if scopes matches Some(s) && listed(s@, scope@) {
                None
            } else {
                Some(("not_found_or_not_visible"@, "Connection capability is unavailable"@))
            },
        ),
{
    match scopes {
        Some(s) => {
            if contains_text(s, scope) {
                return Ok(());
            }
        },
        None => {},
    }
    Err(AppError::new("not_found_or_not_visible", "Connection capability is unavailable"))
}

/// Facts about one Task as seen from one connection.
#[derive(Debug, Clone)]
pub struct TaskVisibility {
    /// The Task exists.
    pub task_exists: bool,
    /// The Task is in the connection's current work: linked to one of its sessions, among
    /// the recent unlinked Tasks, or the active Workbench selection.
    pub current_visible: bool,
    /// Topics the Task belongs to.
    pub task_topics: Vec<String>,
}

/// Whether a connection may address a Task, and the error otherwise.
pub open spec fn task_access(grant: Option<ConnectionGrant>, v: TaskVisibility) -> Option<(Seq<char>, Seq<char>)> {
    match grant {
        None => Some(("not_found_or_not_visible"@, "Connection is unavailable"@)),
        Some(g) => if listed(g.scopes@, "workbench:overview:read"@) {
            if v.task_exists {
                None
            } else {
                Some(("not_found_or_not_visible"@, "Task is unavailable"@))
            }
        } else if listed(g.scopes@, "workbench:current:read"@) && v.current_visible {
            None
        } else if !listed(g.scopes@, "topic:read"@) {
            Some(("not_found_or_not_visible"@, "Task discovery is unavailable"@))
        } else if overlap(v.task_topics@, g.allowed_topics@) {
            None
        } else {
            Some(("not_found_or_not_visible"@, "Task topic is unavailable"@))
        },
    }
}

/// Decides whether a connection may address a Task.
///
/// A Workbench-overview grant sees every existing Task; a current-work grant sees the
/// Tasks of its current work; otherwise only Tasks in an allowed topic are visible.
pub fn task_access_on(grant: Option<&ConnectionGrant>, v: &TaskVisibility) -> (r: Result<(), AppError>)
    ensures
        denies(r, task_access(owned(grant), *v)),
{
    let g = match grant {
        None => {
            return Err(AppError::new("not_found_or_not_visible", "Connection is unavailable"));
        },
        Some(g) => g,
    };
    if contains_text(&g.scopes, "workbench:overview:read") {
        if v.task_exists {
            return Ok(());
        }
        return Err(AppError::new("not_found_or_not_visible", "Task is unavailable"));
    }
    if contains_text(&g.scopes, "workbench:current:read") && v.current_visible {
        return Ok(());
    }
    if !contains_text(&g.scopes, "topic:read") {
        return Err(AppError::new("not_found_or_not_visible", "Task discovery is unavailable"));
    }
    if lists_overlap(&v.task_topics, &g.allowed_topics) {
        Ok(())
    } else {
        Err(AppError::new("not_found_or_not_visible", "Task topic is unavailable"))
    }
}

/// Facts about one Problem as seen from one connection.
#[derive(Debug, Clone)]
pub struct ProblemVisibility {
    pub problem_exists: bool,
    /// Linked to one of the connection's sessions.
    pub linked: bool,
    /// Linked to a Task of one of the connection's sessions.
    pub linked_through_task: bool,
    /// Topics the Problem belongs to.
    pub problem_topics: Vec<String>,
}

/// Whether a connection may address a Problem, and the error otherwise.
pub open spec fn problem_access(grant: Option<ConnectionGrant>, v: ProblemVisibility) -> Option<(Seq<char>, Seq<char>)> {
    match grant {
        None => Some(("not_found_or_not_visible"@, "Connection is unavailable"@)),
        Some(g) => if listed(g.scopes@, "workbench:overview:read"@) && v.problem_exists {
            None
        } else if (v.linked || v.linked_through_task) && listed(g.scopes@, "workbench:current:read"@) {
            None
        } else if listed(g.scopes@, "topic:read"@) && overlap(v.problem_topics@, g.allowed_topics@) {
            None
        } else {
            Some(("not_found_or_not_visible"@, "Problem target is unavailable"@))
        },
    }
}

/// Decides whether a connection may address a Problem in a governed action.
pub fn problem_access_on(grant: Option<&ConnectionGrant>, v: &ProblemVisibility) -> (r: Result<(), AppError>)
    ensures
        denies(r, problem_access(owned(grant), *v)),
{
    let g = match grant {
        None => {
            return Err(AppError::new("not_found_or_not_visible", "Connection is unavailable"));
        },
        Some(g) => g,
    };
    if contains_text(&g.scopes, "workbench:overview:read") && v.problem_exists {
        return Ok(());
    }
    if v.linked && contains_text(&g.scopes, "workbench:current:read") {
        return Ok(());
    }
    if v.linked_through_task && contains_text(&g.scopes, "workbench:current:read") {
        return Ok(());
    }
    if contains_text(&g.scopes, "topic:read") && lists_overlap(&v.problem_topics, &g.allowed_topics) {
        return Ok(());
    }
    Err(AppError::new("not_found_or_not_visible", "Problem target is unavailable"))
}

/// Whether a connection may read a topic, and the error otherwise.
///
/// `allowed` is the active connection's topic list (None when it has no active row).
pub open spec fn topic_access(connection: Seq<char>, topic: Seq<char>, topic_blank: bool, allowed: Option<Seq<String>>) -> Option<(Seq<char>, Seq<char>)> {
    if topic_blank {
        Some(("invalid_input"@, "A topic target is required"@))
    } else if connection == native_connection() {
        None
    } else {
        match allowed {
            None => Some(("not_found_or_not_visible"@, "The requested capability is unavailable"@)),
            Some(a) => if listed(a, topic) {
                None
            } else {
                Some(("not_found_or_not_visible"@, "The requested topic is unavailable"@))
            },
        }
    }
}

} // verus!
