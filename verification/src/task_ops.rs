//! The decisions of the Task application service: which operation a request names, the
//! fields it must carry, the revision it must be based on, and how a revision, a
//! transition, a completion, a capture or a replay is judged.

use vstd::prelude::*;
use crate::task::{state_transition, validate_state_transition};
use crate::text::{integer_text, opt_text, render_integer, text_eq, trim, trimmed};

verus! {

/// A required text field: trimmed, and not empty.
pub open spec fn required_of(value: Option<Seq<char>>, key: Seq<char>) -> Result<Seq<char>, Seq<char>> {
    match value {
        Some(v) => if trim(v).len() > 0 {
            Ok(trim(v))
        } else {
            Err("invalid_input: "@ + key + " is required"@)
        },
        None => Err("invalid_input: "@ + key + " is required"@),
    }
}

/// The view of an optional text.
pub open spec fn opt_view(o: Option<&str>) -> Option<Seq<char>> {
    match o {
        Some(v) => Some(v@),
        None => None,
    }
}

/// `r` carries the text or the message of `expected`.
pub open spec fn text_result(r: Result<String, String>, expected: Result<Seq<char>, Seq<char>>) -> bool {
    match expected {
        Ok(t) => r matches Ok(s) && s@ == t,
        Err(m) => r matches Err(e) && e@ == m,
    }
}

/// Reads a required text field of a request.
pub fn required_field(value: Option<&str>, key: &str) -> (r: Result<String, String>)
    ensures
        text_result(r, required_of(opt_view(value), key@)),
{
    let t = match value {
        Some(v) => trimmed(v),
        None => String::new(),
    };
    if t.as_str().is_empty() {
        let mut message = "invalid_input: ".to_owned();
        message.append(key);
        message.append(" is required");
        Err(message)
    } else {
        Ok(t)
    }
}

/// What a request to the Task service asks for.
#[derive(Debug, Clone, Copy, PartialEq, Eq, Structural)]
pub enum TaskRequest {
    CaptureCreate,
    TaskGet,
    TaskDelete,
    WorkbenchGet,
    ReadinessGet,
    WorkLogGet,
    Mutation(Mutation),
}

/// A change that runs in one transaction and is tracked by its operation ID.
#[derive(Debug, Clone, Copy, PartialEq, Eq, Structural)]
pub enum Mutation {
    TaskCreate,
    TaskRevision,
    TaskTransition,
    TaskReopen,
    ProblemLinkCreate,
    ProblemLinkDelete,
    RelationshipCreate,
    RelationshipDelete,
    ReadinessDecision,
    WorkLogCreate,
    CommentCreate,
    ChecklistCreate,
    ChecklistUpdate,
    DecisionCreate,
    CompletionCreate,
    ProblemCreate,
    ProblemRevision,
    ProblemResolution,
}

/// The change an operation name stands for.
pub open spec fn mutation_of(name: Seq<char>) -> Option<Mutation> {
    if name == "task.create"@ { Some(Mutation::TaskCreate) }
    else if name == "task.revision"@ { Some(Mutation::TaskRevision) }
    else if name == "task.transition"@ { Some(Mutation::TaskTransition) }
    else if name == "task.reopen"@ { Some(Mutation::TaskReopen) }
    else if name == "task.problem-link.create"@ { Some(Mutation::ProblemLinkCreate) }
    else if name == "task.problem-link.delete"@ { Some(Mutation::ProblemLinkDelete) }
    else if name == "task.relationship.create"@ { Some(Mutation::RelationshipCreate) }
    else if name == "task.relationship.delete"@ { Some(Mutation::RelationshipDelete) }
    else if name == "task.readiness.decision"@ { Some(Mutation::ReadinessDecision) }
    else if name == "task.work-log.create"@ { Some(Mutation::WorkLogCreate) }
    else if name == "work-log.comment.create"@ { Some(Mutation::CommentCreate) }
    else if name == "task.checklist.create"@ { Some(Mutation::ChecklistCreate) }
    else if name == "task.checklist.update"@ { Some(Mutation::ChecklistUpdate) }
    else if name == "task.decision.create"@ { Some(Mutation::DecisionCreate) }
    else if name == "task.completion.create"@ { Some(Mutation::CompletionCreate) }
    else if name == "problem.create"@ { Some(Mutation::ProblemCreate) }
    else if name == "problem.revision"@ { Some(Mutation::ProblemRevision) }
    else if name == "problem.resolution.create"@ { Some(Mutation::ProblemResolution) }
    else { None }
}

/// The request an operation name stands for.
pub open spec fn task_request_of(name: Seq<char>) -> Option<TaskRequest> {
    if name == "capture.create"@ { Some(TaskRequest::CaptureCreate) }
    else if name == "task.get"@ { Some(TaskRequest::TaskGet) }
    else if name == "task.delete"@ { Some(TaskRequest::TaskDelete) }
    else if name == "workbench.get"@ { Some(TaskRequest::WorkbenchGet) }
    else if name == "task.readiness.get"@ { Some(TaskRequest::ReadinessGet) }
    else if name == "task.work-log.get"@ { Some(TaskRequest::WorkLogGet) }
    else {
        match mutation_of(name) {
            Some(m) => Some(TaskRequest::Mutation(m)),
            None => None,
        }
    }
}

fn mutation_named(name: &str) -> (r: Option<Mutation>)
    ensures
        r == mutation_of(name@),
{
    if text_eq(name, "task.create") { Some(Mutation::TaskCreate) }
    else if text_eq(name, "task.revision") { Some(Mutation::TaskRevision) }
    else if text_eq(name, "task.transition") { Some(Mutation::TaskTransition) }
    else if text_eq(name, "task.reopen") { Some(Mutation::TaskReopen) }
    else if text_eq(name, "task.problem-link.create") { Some(Mutation::ProblemLinkCreate) }
    else if text_eq(name, "task.problem-link.delete") { Some(Mutation::ProblemLinkDelete) }
    else if text_eq(name, "task.relationship.create") { Some(Mutation::RelationshipCreate) }
    else if text_eq(name, "task.relationship.delete") { Some(Mutation::RelationshipDelete) }
    else if text_eq(name, "task.readiness.decision") { Some(Mutation::ReadinessDecision) }
    else if text_eq(name, "task.work-log.create") { Some(Mutation::WorkLogCreate) }
    else if text_eq(name, "work-log.comment.create") { Some(Mutation::CommentCreate) }
    else if text_eq(name, "task.checklist.create") { Some(Mutation::ChecklistCreate) }
    else if text_eq(name, "task.checklist.update") { Some(Mutation::ChecklistUpdate) }
    else if text_eq(name, "task.decision.create") { Some(Mutation::DecisionCreate) }
    else if text_eq(name, "task.completion.create") { Some(Mutation::CompletionCreate) }
    else if text_eq(name, "problem.create") { Some(Mutation::ProblemCreate) }
    else if text_eq(name, "problem.revision") { Some(Mutation::ProblemRevision) }
    else if text_eq(name, "problem.resolution.create") { Some(Mutation::ProblemResolution) }
    else { None }
}

/// Routes a request by its operation name; an unknown name is refused.
pub fn route_task_request(name: &str) -> (r: Result<TaskRequest, String>)
    ensures
        match task_request_of(name@) {
            Some(k) => r == Ok::<TaskRequest, String>(k),
            None => r matches Err(e) && e@ == "Native operation is not implemented: "@ + name@,
        },
{
    if text_eq(name, "capture.create") { return Ok(TaskRequest::CaptureCreate); }
    if text_eq(name, "task.get") { return Ok(TaskRequest::TaskGet); }
    if text_eq(name, "task.delete") { return Ok(TaskRequest::TaskDelete); }
    if text_eq(name, "workbench.get") { return Ok(TaskRequest::WorkbenchGet); }
    if text_eq(name, "task.readiness.get") { return Ok(TaskRequest::ReadinessGet); }
    if text_eq(name, "task.work-log.get") { return Ok(TaskRequest::WorkLogGet); }
    match mutation_named(name) {
        Some(m) => Ok(TaskRequest::Mutation(m)),
        None => {
            let mut message = "Native operation is not implemented: ".to_owned();
            message.append(name);
            Err(message)
        },
    }
}

/// Routes a tracked change by its operation name; a name that is no tracked change is
/// refused.
pub fn route_mutation(name: &str) -> (r: Result<Mutation, String>)
    ensures
        match mutation_of(name@) {
            Some(m) => r == Ok::<Mutation, String>(m),
            None => r matches Err(e) && e@ == "operation is not transaction-scoped: "@ + name@,
        },
{
    match mutation_named(name) {
        Some(m) => Ok(m),
        None => {
            let mut message = "operation is not transaction-scoped: ".to_owned();
            message.append(name);
            Err(message)
        },
    }
}

/// The ID fields a change reads before it starts, in the order they are checked.
pub open spec fn target_keys(m: Mutation) -> Seq<Seq<char>> {
    match m {
        Mutation::TaskCreate | Mutation::ProblemCreate => Seq::empty(),
        Mutation::ProblemRevision | Mutation::ProblemResolution => seq!["problemId"@],
        Mutation::ProblemLinkDelete => seq!["taskId"@, "linkId"@],
        Mutation::RelationshipDelete => seq!["taskId"@, "relationshipId"@],
        Mutation::CommentCreate => seq!["entryId"@],
        Mutation::ChecklistUpdate => seq!["taskId"@, "itemId"@],
        _ => seq!["taskId"@],
    }
}

/// The ID fields a request may carry.
#[derive(Debug, Clone)]
pub struct RequestIds {
    pub task_id: Option<String>,
    pub problem_id: Option<String>,
    pub link_id: Option<String>,
    pub relationship_id: Option<String>,
    pub entry_id: Option<String>,
    pub item_id: Option<String>,
}

/// The ID field of a request with the given key.
pub open spec fn id_field(ids: RequestIds, key: Seq<char>) -> Option<Seq<char>> {
    if key == "taskId"@ { opt_text(ids.task_id) }
    else if key == "problemId"@ { opt_text(ids.problem_id) }
    else if key == "linkId"@ { opt_text(ids.link_id) }
    else if key == "relationshipId"@ { opt_text(ids.relationship_id) }
    else if key == "entryId"@ { opt_text(ids.entry_id) }
    else if key == "itemId"@ { opt_text(ids.item_id) }
    else { None }
}

/// The required IDs under `keys`, read in order: their trimmed texts, or the message for
/// the first one missing.
pub open spec fn targets_of(ids: RequestIds, keys: Seq<Seq<char>>) -> Result<Seq<Seq<char>>, Seq<char>>
    decreases keys.len(),
{
    if keys.len() == 0 {
        Ok(Seq::empty())
    } else {
        match targets_of(ids, keys.drop_last()) {
            Err(m) => Err(m),
            Ok(vs) => match required_of(id_field(ids, keys.last()), keys.last()) {
                Err(m) => Err(m),
                Ok(v) => Ok(vs.push(v)),
            },
        }
    }
}

proof fn targets_fail_early(ids: RequestIds, keys: Seq<Seq<char>>, i: int)
    requires
        0 <= i <= keys.len(),
        targets_of(ids, keys.take(i)) is Err,
    ensures
        targets_of(ids, keys) == targets_of(ids, keys.take(i)),
    decreases keys.len() - i,
{
    if i < keys.len() {
        assert(keys.take(i + 1).drop_last() =~= keys.take(i));
        targets_fail_early(ids, keys, i + 1);
    } else {
        assert(keys.take(i) =~= keys);
    }
}

fn target_key_names(m: Mutation) -> (r: Vec<&'static str>)
    ensures
        r@.map_values(|k: &str| k@) == target_keys(m),
{
    let r: Vec<&'static str> = match m {
        Mutation::TaskCreate | Mutation::ProblemCreate => Vec::new(),
        Mutation::ProblemRevision | Mutation::ProblemResolution => vec!["problemId"],
        Mutation::ProblemLinkDelete => vec!["taskId", "linkId"],
        Mutation::RelationshipDelete => vec!["taskId", "relationshipId"],
        Mutation::CommentCreate => vec!["entryId"],
        Mutation::ChecklistUpdate => vec!["taskId", "itemId"],
        _ => vec!["taskId"],
    };
    assert(r@.map_values(|k: &str| k@) =~= target_keys(m));
    r
}

fn id_named<'a>(ids: &'a RequestIds, key: &str) -> (r: Option<&'a str>)
    ensures
        opt_view(r) == id_field(*ids, key@),
{
    let f = if text_eq(key, "taskId") { &ids.task_id }
        else if text_eq(key, "problemId") { &ids.problem_id }
        else if text_eq(key, "linkId") { &ids.link_id }
        else if text_eq(key, "relationshipId") { &ids.relationship_id }
        else if text_eq(key, "entryId") { &ids.entry_id }
        else if text_eq(key, "itemId") { &ids.item_id }
        else { return None };
    match f {
        Some(v) => Some(v.as_str()),
        None => None,
    }
}

/// Reads the IDs a change needs before it starts, in order; the first one missing is
/// reported.
pub fn mutation_targets(m: Mutation, ids: &RequestIds) -> (r: Result<Vec<String>, String>)
    ensures
        match targets_of(*ids, target_keys(m)) {
            Ok(vs) => r matches Ok(v) && v@.map_values(|s: String| s@) == vs,
            Err(msg) => r matches Err(e) && e@ == msg,
        },
{
    let keys = target_key_names(m);
    let ghost ks = target_keys(m);
    let mut out: Vec<String> = Vec::new();
    let mut i: usize = 0;
    assert(ks.take(0) =~= Seq::<Seq<char>>::empty());
    assert(out@.map_values(|s: String| s@) =~= Seq::<Seq<char>>::empty());
    while i < keys.len()
        invariant
            ks == target_keys(m),
            ks == keys@.map_values(|k: &str| k@),
            i <= keys@.len(),
            targets_of(*ids, ks.take(i as int)) == Ok::<Seq<Seq<char>>, Seq<char>>(out@.map_values(|s: String| s@)),
        decreases keys.len() - i,
    {
        assert(ks.take(i as int + 1).drop_last() =~= ks.take(i as int));
        assert(ks.take(i as int + 1).last() == keys@[i as int]@);
        let found = id_named(ids, keys[i]);
        let checked = required_field(found, keys[i]);
        assert(opt_view(found) == id_field(*ids, ks.take(i as int + 1).last()));
        match checked {
            Ok(v) => {
                let ghost before = out@;
                out.push(v);
                assert(out@.map_values(|s: String| s@) =~= before.map_values(|s: String| s@).push(out@.last()@));
            },
            Err(e) => {
                proof {
                    targets_fail_early(*ids, ks, i as int + 1);
                }
                return Err(e);
            },
        }
        i = i + 1;
    }
    assert(ks.take(keys@.len() as int) =~= ks);
    Ok(out)
}

/// The outcome of a revision check against the current revision.
pub open spec fn revision_check(current: Option<i64>, expected: Option<i64>) -> Result<i64, Seq<char>> {
    match current {
        None => Err("Task not found"@),
        Some(c) => match expected {
            None => Err("invalid_input: expectedTaskRevision is required"@),
            Some(e) => if c == e {
                Ok(c)
            } else {
                Err("head_conflict: currentRevision="@ + integer_text(c as int))
            },
        },
    }
}

/// `r` carries the revision or the message of `expected`.
pub open spec fn revision_result(r: Result<i64, String>, expected: Result<i64, Seq<char>>) -> bool {
    match expected {
        Ok(v) => r == Ok::<i64, String>(v),
        Err(m) => r matches Err(e) && e@ == m,
    }
}

fn conflict(current: i64) -> (e: String)
    ensures
        e@ == "head_conflict: currentRevision="@ + integer_text(current as int),
{
    let mut message = "head_conflict: currentRevision=".to_owned();
    message.append(render_integer(current).as_str());
    message
}

/// Checks that a change to a Task is based on its current revision. `current` is the
/// Task's revision, none when it does not exist or is deleted.
pub fn check_task_revision(current: Option<i64>, expected: Option<i64>) -> (r: Result<i64, String>)
    ensures
        revision_result(r, revision_check(current, expected)),
{
    match current {
        None => Err("Task not found".to_owned()),
        Some(c) => match expected {
            None => Err("invalid_input: expectedTaskRevision is required".to_owned()),
            Some(e) => if c == e { Ok(c) } else { Err(conflict(c)) },
        },
    }
}

/// The outcome of a Problem revision check: the expected revision is read first.
pub open spec fn problem_revision_check(expected: Option<i64>, current: Option<i64>) -> Result<i64, Seq<char>> {
    match expected {
        None => Err("invalid_input: expectedProblemRevision is required"@),
        Some(e) => match current {
            None => Err("Problem not found"@),
            Some(c) => if c == e {
                Ok(c)
            } else {
                Err("head_conflict: currentRevision="@ + integer_text(c as int))
            },
        },
    }
}

/// Checks that a Problem resolution is based on the Problem's current revision.
pub fn check_problem_revision(expected: Option<i64>, current: Option<i64>) -> (r: Result<i64, String>)
    ensures
        revision_result(r, problem_revision_check(expected, current)),
{
    match expected {
        None => Err("invalid_input: expectedProblemRevision is required".to_owned()),
        Some(e) => match current {
            None => Err("Problem not found".to_owned()),
            Some(c) => if c == e { Ok(c) } else { Err(conflict(c)) },
        },
    }
}

/// Where a new Task comes from.
#[derive(Debug, Clone)]
pub enum TaskSource {
    /// Text typed for the Task, stored as its own provenance capture.
    Direct(String),
    /// An existing capture.
    Origin(String),
}

/// Decides where a new Task comes from: exactly one of a capture and direct text.
pub fn task_source(origin: Option<&str>, direct: Option<&str>) -> (r: Result<TaskSource, String>)
    ensures
        match r {
            Ok(TaskSource::Direct(t)) => origin is None && (direct matches Some(d) && t@ == d@),
            Ok(TaskSource::Origin(o)) => direct is None && (origin matches Some(c) && o@ == c@),
            Err(e) => (origin is Some) == (direct is Some)
                && e@ == "invalid_input: supply exactly one originCaptureId or inputText"@,
        },
{
    match (origin, direct) {
        (None, Some(d)) => Ok(TaskSource::Direct(d.to_owned())),
        (Some(c), None) => Ok(TaskSource::Origin(c.to_owned())),
        _ => Err("invalid_input: supply exactly one originCaptureId or inputText".to_owned()),
    }
}

/// The content fields of a Task revision.
#[derive(Debug, Clone)]
pub struct TaskContent {
    pub title: String,
    pub detail: String,
    pub outcome: String,
    pub scope: String,
    pub non_goals: String,
    pub validation_criteria: String,
}

/// The text fields a revision patch sets; a field that is absent or no text keeps its
/// prior value.
#[derive(Debug, Clone)]
pub struct TaskPatch {
    pub title: Option<String>,
    pub detail: Option<String>,
    pub outcome: Option<String>,
    pub scope: Option<String>,
    pub non_goals: Option<String>,
    pub validation_criteria: Option<String>,
}

/// A revised field: the patched text or the prior one, trimmed.
pub open spec fn revised(patched: Option<String>, prior: String) -> Seq<char> {
    match patched {
        Some(p) => trim(p@),
        None => trim(prior@),
    }
}

fn revise(patched: &Option<String>, prior: &String) -> (r: String)
    ensures
        r@ == revised(*patched, *prior),
{
    match patched {
        Some(p) => trimmed(p.as_str()),
        None => trimmed(prior.as_str()),
    }
}

/// The content of a new revision: each field patched or kept, trimmed. A revision needs a
/// patch and a title.
pub fn revise_content(prior: &TaskContent, patch: Option<&TaskPatch>) -> (r: Result<TaskContent, String>)
    ensures
        match patch {
            None => r matches Err(e) && e@ == "invalid_input: patch is required"@,
            Some(p) => if revised(p.title, prior.title).len() == 0 {
                r matches Err(e) && e@ == "invalid_input: title is required"@
            } else {
                r matches Ok(c) && {
                    &&& c.title@ == revised(p.title, prior.title)
                    &&& c.detail@ == revised(p.detail, prior.detail)
                    &&& c.outcome@ == revised(p.outcome, prior.outcome)
                    &&& c.scope@ == revised(p.scope, prior.scope)
                    &&& c.non_goals@ == revised(p.non_goals, prior.non_goals)
                    &&& c.validation_criteria@ == revised(p.validation_criteria, prior.validation_criteria)
                }
            },
        },
{
    let p = match patch {
        Some(p) => p,
        None => return Err("invalid_input: patch is required".to_owned()),
    };
    let title = revise(&p.title, &prior.title);
    if title.as_str().is_empty() {
        return Err("invalid_input: title is required".to_owned());
    }
    Ok(TaskContent {
        title,
        detail: revise(&p.detail, &prior.detail),
        outcome: revise(&p.outcome, &prior.outcome),
        scope: revise(&p.scope, &prior.scope),
        non_goals: revise(&p.non_goals, &prior.non_goals),
        validation_criteria: revise(&p.validation_criteria, &prior.validation_criteria),
    })
}

/// What a permitted transition does.
#[derive(Debug, Clone)]
pub enum TransitionPlan {
    /// The transition completes the Task, which the completion rules then decide.
    Complete,
    /// The Task moves to `state`; `reopens` when a completed Task goes back in progress,
    /// which also reopens its ancestors.
    Move { state: String, reopens: bool },
}

/// The state a transition request asks for: "reopen" for a reopen, else the required `to`.
pub open spec fn requested_state(reopen: bool, to: Option<Seq<char>>) -> Result<Seq<char>, Seq<char>> {
    if reopen {
        Ok("reopen"@)
    } else {
        required_of(to, "to"@)
    }
}

/// Plans a Task transition from its current state.
pub fn plan_transition(from: &str, reopen: bool, to: Option<&str>) -> (r: Result<TransitionPlan, String>)
    ensures
        match requested_state(reopen, opt_view(to)) {
            Err(m) => r matches Err(e) && e@ == m,
            Ok(req) => match state_transition(from@, req) {
                Err(m) => r matches Err(e) && e@ == m,
                Ok(state) => if state == "completed"@ {
                    r matches Ok(TransitionPlan::Complete)
                } else {
                    r matches Ok(TransitionPlan::Move { state: s, reopens })
                        && s@ == state
                        && reopens == (from@ == "completed"@ && state == "in_progress"@)
                },
            },
        },
{
    let requested = if reopen {
        "reopen".to_owned()
    } else {
        match required_field(to, "to") {
            Ok(t) => t,
            Err(e) => return Err(e),
        }
    };
    let state = match validate_state_transition(from, requested.as_str()) {
        Ok(s) => s,
        Err(e) => return Err(e),
    };
    if text_eq(state.as_str(), "completed") {
        return Ok(TransitionPlan::Complete);
    }
    let reopens = text_eq(from, "completed") && text_eq(state.as_str(), "in_progress");
    Ok(TransitionPlan::Move { state, reopens })
}

/// Checks that a Task may be completed: only a Task in progress may.
pub fn check_completion(state: &str) -> (r: Result<(), String>)
    ensures
        state@ == "in_progress"@ ==> r is Ok,
        state@ != "in_progress"@ ==> (r matches Err(e)
            && e@ == "transition_invalid: task must be in_progress before completion"@),
{
    if text_eq(state, "in_progress") {
        Ok(())
    } else {
        Err("transition_invalid: task must be in_progress before completion".to_owned())
    }
}

/// Checks the status of a readiness decision.
pub fn check_readiness_status(status: &str) -> (r: Result<(), String>)
    ensures
        (status@ == "not_applicable"@ || status@ == "calculated"@) ==> r is Ok,
        !(status@ == "not_applicable"@ || status@ == "calculated"@) ==> (r matches Err(e)
            && e@ == "invalid_input: status"@),
{
    if text_eq(status, "not_applicable") || text_eq(status, "calculated") {
        Ok(())
    } else {
        Err("invalid_input: status".to_owned())
    }
}

/// The text a capture stores: its trimmed text, which may be empty only when images come
/// with it.
pub fn capture_text(text: Option<&str>, images: usize) -> (r: Result<String, String>)
    ensures
        ({
            let t = match text {
                Some(v) => trim(v@),
                None => Seq::empty(),
            };
            if t.len() == 0 && images == 0 {
                r matches Err(e) && e@ == "invalid_input: text or image is required"@
            } else {
                r matches Ok(s) && s@ == t
            }
        }),
{
    let t = match text {
        Some(v) => trimmed(v),
        None => String::new(),
    };
    if t.as_str().is_empty() && images == 0 {
        Err("invalid_input: text or image is required".to_owned())
    } else {
        Ok(t)
    }
}

/// Decides on a request whose operation ID may already have a stored result: `Ok(true)`
/// to give back the stored result, `Ok(false)` to run it, and a conflict when the ID was
/// used for a different request.
pub fn replay_decision(stored_hash: Option<&str>, hash: &str) -> (r: Result<bool, String>)
    ensures
        match stored_hash {
            None => r == Ok::<bool, String>(false),
            Some(h) => if h@ == hash@ {
                r == Ok::<bool, String>(true)
            } else {
                r matches Err(e) && e@ == "operation_conflict"@
            },
        },
{
    match stored_hash {
        None => Ok(false),
        Some(h) => if text_eq(h, hash) {
            Ok(true)
        } else {
            Err("operation_conflict".to_owned())
        },
    }
}

/// Checks that a Task may be deleted: it must exist, and no Task hierarchy may hold it.
pub fn check_delete(exists: bool, in_hierarchy: bool) -> (r: Result<(), String>)
    ensures
        !exists ==> (r matches Err(e) && e@ == "Task not found"@),
        exists && in_hierarchy ==> (r matches Err(e)
            && e@ == "Task hierarchy must be retained; complete or reopen its Subtasks"@),
        exists && !in_hierarchy ==> r is Ok,
{
    if !exists {
        Err("Task not found".to_owned())
    } else if in_hierarchy {
        Err("Task hierarchy must be retained; complete or reopen its Subtasks".to_owned())
    } else {
        Ok(())
    }
}

/// The fields a new Task is created with.
#[derive(Debug, Clone)]
pub struct NewTaskFields {
    pub title: Option<String>,
    pub detail: Option<String>,
    pub outcome: Option<String>,
    pub scope: Option<String>,
    pub non_goals: Option<String>,
    pub validation_criteria: Option<String>,
    pub category: Option<String>,
}

/// An optional field, trimmed; empty when absent.
pub open spec fn trimmed_or_empty(o: Option<String>) -> Seq<char> {
    match o {
        Some(s) => trim(s@),
        None => Seq::empty(),
    }
}

/// The category of a new Task: the one given unless blank, else "General".
pub open spec fn category_of(o: Option<String>) -> Seq<char> {
    match o {
        Some(c) => if trim(c@).len() > 0 { c@ } else { "General"@ },
        None => "General"@,
    }
}

fn trim_or_empty(o: &Option<String>) -> (r: String)
    ensures
        r@ == trimmed_or_empty(*o),
{
    match o {
        Some(s) => trimmed(s.as_str()),
        None => String::new(),
    }
}

/// The content and category of a new Task: a title is required, the other fields are
/// trimmed, and a blank category is "General".
pub fn new_task_content(f: &NewTaskFields) -> (r: Result<(TaskContent, String), String>)
    ensures
        match required_of(opt_text(f.title), "title"@) {
            Err(m) => r matches Err(e) && e@ == m,
            Ok(title) => r matches Ok((c, category)) && {
                &&& c.title@ == title
                &&& c.detail@ == trimmed_or_empty(f.detail)
                &&& c.outcome@ == trimmed_or_empty(f.outcome)
                &&& c.scope@ == trimmed_or_empty(f.scope)
                &&& c.non_goals@ == trimmed_or_empty(f.non_goals)
                &&& c.validation_criteria@ == trimmed_or_empty(f.validation_criteria)
                &&& category@ == category_of(f.category)
            },
        },
{
    let given: Option<&str> = match &f.title {
        Some(t) => Some(t.as_str()),
        None => None,
    };
    let title = match required_field(given, "title") {
        Ok(t) => t,
        Err(e) => return Err(e),
    };
    let category = match &f.category {
        Some(c) => if trimmed(c.as_str()).as_str().is_empty() { "General".to_owned() } else { c.clone() },
        None => "General".to_owned(),
    };
    Ok((TaskContent {
        title,
        detail: trim_or_empty(&f.detail),
        outcome: trim_or_empty(&f.outcome),
        scope: trim_or_empty(&f.scope),
        non_goals: trim_or_empty(&f.non_goals),
        validation_criteria: trim_or_empty(&f.validation_criteria),
    }, category))
}

/// A Problem revision to write.
#[derive(Debug, Clone)]
pub struct ProblemRevision {
    pub statement: String,
    pub detail: String,
    pub revision: i64,
    /// The Problem does not exist yet and is created with this revision.
    pub creates: bool,
}

/// Plans a Problem revision: a statement is required; the revision follows the current
/// one (`prior`, none or 0 for a new Problem).
pub fn plan_problem_revision(statement: Option<&str>, detail: Option<&str>, prior: Option<i64>) -> (r: Result<ProblemRevision, String>)
    requires
        prior matches Some(p) ==> p < i64::MAX,
    ensures
        match required_of(opt_view(statement), "statement"@) {
            Err(m) => r matches Err(e) && e@ == m,
            Ok(st) => r matches Ok(p) && {
                let before: int = match prior { Some(x) => x as int, None => 0 };
                &&& p.statement@ == st
                &&& p.detail@ == match detail { Some(d) => d@, None => Seq::empty() }
                &&& p.revision == before + 1
                &&& p.creates == (before == 0)
            },
        },
{
    let st = match required_field(statement, "statement") {
        Ok(s) => s,
        Err(e) => return Err(e),
    };
    let d = match detail {
        Some(d) => d.to_owned(),
        None => String::new(),
    };
    let before: i64 = match prior {
        Some(x) => x,
        None => 0,
    };
    Ok(ProblemRevision { statement: st, detail: d, revision: before + 1, creates: before == 0 })
}

/// The key under which one change to one entity is recorded as user activity.
pub fn activity_key(operation_id: &str, kind: &str, id: &str) -> (r: String)
    ensures
        r@ == operation_id@ + ":"@ + kind@ + ":"@ + id@,
{
    let mut key = operation_id.to_owned();
    key.append(":");
    key.append(kind);
    key.append(":");
    key.append(id);
    key
}

/// The hash a Task-service operation is stored under: its name and its request as
/// serde_json writes it, joined.
pub open spec fn operation_digest(name: Seq<char>, input: crate::evidence::Json) -> Seq<char> {
    crate::task::spec_content_hash(seq![name, crate::digest::json_text(input)])
}

/// Decides on a Task-service request document whose operation ID may already have a
/// stored result, as `replay_decision` does with the hash of its name and request.
pub fn task_operation_replay(stored_hash: Option<&str>, name: &str, input: &crate::evidence::Json) -> (r: Result<bool, String>)
    ensures
        match stored_hash {
            None => r == Ok::<bool, String>(false),
            Some(h) => if h@ == operation_digest(name@, *input) {
                r == Ok::<bool, String>(true)
            } else {
                r matches Err(e) && e@ == "operation_conflict"@
            },
        },
{
    let text = crate::digest::serialize_json(input);
    let parts: [&str; 2] = [name, text.as_str()];
    let hash = crate::task::content_hash(&parts);
    assert(parts@.map_values(|f: &str| f@) =~= seq![name@, crate::digest::json_text(*input)]);
    replay_decision(stored_hash, hash.as_str())
}

} // verus!
