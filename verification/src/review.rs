//! Governed actions: which actions a chat may propose, how a reviewed challenge is
//! admitted and consumed, and which step an accepted action performs.

use vstd::prelude::*;
use crate::access::listed;
use crate::text::{bytes_le, text_eq, text_le, utf8};
use crate::work_state::{AppError, Denial, deny, deny_head, outcome};

verus! {

/// Actions of the retired Problem / Solution workflow, kept only as history.
pub open spec fn is_legacy(a: Seq<char>) -> bool {
    ||| a == "adopt_problem"@
    ||| a == "approve_problem"@
    ||| a == "adopt_solution"@
    ||| a == "approve_solution"@
    ||| a == "resolve_conflict"@
    ||| a == "accept_completion_proposal"@
    ||| a == "verify_and_complete"@
}

/// Canonical actions that a chat may ask a human to review.
pub open spec fn is_governed(a: Seq<char>) -> bool {
    ||| a == "task.create"@
    ||| a == "task.revision"@
    ||| a == "task.transition"@
    ||| a == "task.reopen"@
    ||| a == "task.completion.create"@
    ||| a == "problem.create"@
    ||| a == "problem.revision"@
    ||| a == "problem.resolution.create"@
    ||| a == "task.problem-link.create"@
    ||| a == "task.problem-link.delete"@
    ||| a == "task.relationship.create"@
    ||| a == "task.relationship.delete"@
    ||| a == "task.readiness.decision"@
    ||| a == "task.work-log.create"@
    ||| a == "work-log.comment.create"@
    ||| a == "task.checklist.create"@
    ||| a == "task.checklist.update"@
    ||| a == "task.decision.create"@
    ||| a == "review_conflict"@
    ||| a == "link_current_work"@
    ||| a == "create_task"@
    ||| a == "revise_task"@
    ||| a == "transition_task"@
    ||| a == "complete_task"@
    ||| a == "resolve_problem"@
    ||| a == "accept_checkpoint"@
}

/// Whether an action belongs to the retired workflow.
pub fn legacy_action(a: &str) -> (r: bool)
    ensures
        r == is_legacy(a@),
{
    text_eq(a, "adopt_problem") || text_eq(a, "approve_problem") || text_eq(a, "adopt_solution")
        || text_eq(a, "approve_solution") || text_eq(a, "resolve_conflict")
        || text_eq(a, "accept_completion_proposal") || text_eq(a, "verify_and_complete")
}

/// Whether an action may be proposed for review.
pub fn governed_action(a: &str) -> (r: bool)
    ensures
        r == is_governed(a@),
{
    text_eq(a, "task.create") || text_eq(a, "task.revision") || text_eq(a, "task.transition")
        || text_eq(a, "task.reopen") || text_eq(a, "task.completion.create") || text_eq(
        a,
        "problem.create",
    ) || text_eq(a, "problem.revision") || text_eq(a, "problem.resolution.create") || text_eq(
        a,
        "task.problem-link.create",
    ) || text_eq(a, "task.problem-link.delete") || text_eq(a, "task.relationship.create")
        || text_eq(a, "task.relationship.delete") || text_eq(a, "task.readiness.decision")
        || text_eq(a, "task.work-log.create") || text_eq(a, "work-log.comment.create") || text_eq(
        a,
        "task.checklist.create",
    ) || text_eq(a, "task.checklist.update") || text_eq(a, "task.decision.create") || text_eq(
        a,
        "review_conflict",
    ) || text_eq(a, "link_current_work") || text_eq(a, "create_task") || text_eq(a, "revise_task")
        || text_eq(a, "transition_task") || text_eq(a, "complete_task") || text_eq(
        a,
        "resolve_problem",
    ) || text_eq(a, "accept_checkpoint")
}

/// The refusal, if any, of a proposal to review `action`.
pub open spec fn admission(a: Seq<char>) -> Option<Denial> {
    if is_legacy(a) {
        Some(
            deny(
                "legacy_action_rejected"@,
                "This legacy workflow action is preserved only as history; use a canonical Task action"@,
            ),
        )
    } else if !is_governed(a) {
        Some(deny("invalid_input"@, "Unsupported governed Task action"@))
    } else {
        None
    }
}

/// Whether a unit result agrees with an optional denial.
pub open spec fn refused(r: Result<(), AppError>, d: Option<Denial>) -> bool {
    match d {
        None => r is Ok,
        Some(d) => outcome(r, Err(d)),
    }
}

/// Admits an action to a new review challenge: retired actions and unknown ones are refused.
pub fn screen_action(action: &str) -> (r: Result<(), AppError>)
    ensures
        refused(r, admission(action@)),
{
    if legacy_action(action) {
        return Err(
            AppError::new(
                "legacy_action_rejected",
                "This legacy workflow action is preserved only as history; use a canonical Task action",
            ),
        );
    }
    if !governed_action(action) {
        return Err(AppError::new("invalid_input", "Unsupported governed Task action"));
    }
    Ok(())
}

/// The kind of record an accepted action produces.
pub open spec fn result_type(a: Seq<char>) -> Option<Seq<char>> {
    if a == "create_task"@ || a == "task.create"@ || a == "revise_task"@ || a == "task.revision"@
        || a == "transition_task"@ || a == "task.transition"@ || a == "task.reopen"@ || a
        == "link_task"@ {
        Some("tasks"@)
    } else if a == "complete_task"@ || a == "task.completion.create"@ {
        Some("task_completions"@)
    } else if a == "resolve_problem"@ || a == "problem.resolution.create"@ || a
        == "problem.create"@ || a == "problem.revision"@ {
        Some("problems"@)
    } else if a == "task.problem-link.create"@ || a == "task.problem-link.delete"@ {
        Some("task_problem_links"@)
    } else if a == "task.relationship.create"@ || a == "task.relationship.delete"@ {
        Some("task_relationships"@)
    } else if a == "task.work-log.create"@ || a == "work-log.comment.create"@ || a
        == "task.checklist.create"@ || a == "task.checklist.update"@ || a
        == "task.decision.create"@ || a == "task.readiness.decision"@ || a
        == "review_conflict"@ {
        Some("tasks"@)
    } else if a == "adopt_problem"@ || a == "approve_problem"@ {
        Some("problems"@)
    } else if a == "adopt_solution"@ || a == "resolve_conflict"@ || a == "approve_solution"@ {
        Some("features"@)
    } else if a == "accept_completion_proposal"@ {
        Some("completion_reviews"@)
    } else if a == "verify_and_complete"@ {
        Some("completions"@)
    } else {
        None
    }
}

/// The kind of record an accepted action produces, for its decision row.
pub fn action_result_type(action: &str) -> (r: Option<&'static str>)
    ensures
        match result_type(action@) {
            Some(t) => r matches Some(s) && s@ == t,
            None => r is None,
        },
{
    let a = action;
    if text_eq(a, "create_task") || text_eq(a, "task.create") || text_eq(a, "revise_task")
        || text_eq(a, "task.revision") || text_eq(a, "transition_task") || text_eq(
        a,
        "task.transition",
    ) || text_eq(a, "task.reopen") || text_eq(a, "link_task") {
        Some("tasks")
    } else if text_eq(a, "complete_task") || text_eq(a, "task.completion.create") {
        Some("task_completions")
    } else if text_eq(a, "resolve_problem") || text_eq(a, "problem.resolution.create") || text_eq(
        a,
        "problem.create",
    ) || text_eq(a, "problem.revision") {
        Some("problems")
    } else if text_eq(a, "task.problem-link.create") || text_eq(a, "task.problem-link.delete") {
        Some("task_problem_links")
    } else if text_eq(a, "task.relationship.create") || text_eq(a, "task.relationship.delete") {
        Some("task_relationships")
    } else if text_eq(a, "task.work-log.create") || text_eq(a, "work-log.comment.create")
        || text_eq(a, "task.checklist.create") || text_eq(a, "task.checklist.update") || text_eq(
        a,
        "task.decision.create",
    ) || text_eq(a, "task.readiness.decision") || text_eq(a, "review_conflict") {
        Some("tasks")
    } else if text_eq(a, "adopt_problem") || text_eq(a, "approve_problem") {
        Some("problems")
    } else if text_eq(a, "adopt_solution") || text_eq(a, "resolve_conflict") || text_eq(
        a,
        "approve_solution",
    ) {
        Some("features")
    } else if text_eq(a, "accept_completion_proposal") {
        Some("completion_reviews")
    } else if text_eq(a, "verify_and_complete") {
        Some("completions")
    } else {
        None
    }
}

/// `a` sorts strictly before `b` in byte order, as timestamps stored as text compare.
pub open spec fn text_lt(a: Seq<char>, b: Seq<char>) -> bool {
    bytes_le(utf8(a), utf8(b)) && a != b
}

/// Whether `a` sorts strictly before `b`.
pub fn text_before(a: &str, b: &str) -> (r: bool)
    ensures
        r == text_lt(a@, b@),
{
    text_le(a, b) && !text_eq(a, b)
}

/// A stored review challenge, as the consuming transaction reads it.
#[derive(Debug, Clone)]
pub struct ChallengeRecord {
    pub action: String,
    pub proposed_payload_hash: String,
    pub expected_head_revision: i64,
    pub expires_at: String,
    pub status: String,
}

/// What the store reads around a challenge before it consumes it.
#[derive(Debug, Clone)]
pub struct ChallengeContext {
    /// The connection is still active.
    pub connection_active: bool,
    /// The governed target, captured when the challenge was created, equals a fresh one.
    pub target_unchanged: bool,
    /// The session's current head revision.
    pub current_head: i64,
    /// The scopes of the connection's active row, if it has one.
    pub scopes: Option<Vec<String>>,
    /// The session is completed.
    pub session_closed: bool,
}

/// How an admitted review decision is recorded.
#[derive(Debug, Clone)]
pub struct ConsumePlan {
    /// The decision accepts the action.
    pub accepted: bool,
    /// The stored decision word.
    pub decision: String,
    /// The decision channel.
    pub channel: String,
    /// The projection state of the source event afterwards.
    pub projection_state: String,
    /// The accepted hash is that of the proposed payload, not of the source event.
    pub hash_proposed_payload: bool,
    /// An accepted reopen makes the session active again.
    pub reopen_session: bool,
    /// The source event is settled in this transaction (projection result and watermark).
    pub settle_event: bool,
}

/// The channel a decision on `action` came through.
pub open spec fn channel_name(connection: Seq<char>, action: Seq<char>) -> Seq<char> {
    (if connection == crate::access::native_connection() {
        "in_app_chat_review:"@
    } else {
        "mcp_elicitation:"@
    }) + action
}

/// Whether the connection holds `scope`.
pub open spec fn holds(scopes: Option<Vec<String>>, scope: Seq<char>) -> bool {
    scopes matches Some(s) && listed(s@, scope)
}

/// The plan for a decision on a challenge, or the refusal.
pub open spec fn consume_outcome(
    connection: Seq<char>,
    decision: Seq<char>,
    request_hash: Seq<char>,
    now: Seq<char>,
    challenge: Option<ChallengeRecord>,
    ctx: ChallengeContext,
) -> Result<(bool, Seq<char>, Seq<char>, Seq<char>, bool, bool, bool), Denial> {
    let accept = decision == "accept"@;
    if !(accept || decision == "reject"@ || decision == "cancel"@) {
        Err(deny("invalid_input"@, "Decision must be accept, reject or cancel"@))
    } else {
        match challenge {
            None => Err(deny("invalid_input"@, "Review state is invalid"@)),
            Some(c) => {
                let action = c.action@;
                if !ctx.connection_active {
                    Err(deny("not_found_or_not_visible"@, "Connection is unavailable"@))
                } else if c.status@ != "pending"@ {
                    Err(deny("challenge_replayed"@, "Review state was already used"@))
                } else if text_lt(c.expires_at@, now) {
                    Err(deny("challenge_expired"@, "Review state expired"@))
                } else if is_legacy(action) {
                    Err(
                        deny(
                            "legacy_action_rejected"@,
                            "This legacy workflow action is preserved only as history; use a canonical Task action"@,
                        ),
                    )
                } else if c.proposed_payload_hash@ != request_hash {
                    Err(deny("invalid_input"@, "Reviewed payload changed"@))
                } else if accept && !ctx.target_unchanged {
                    Err(
                        deny(
                            "head_conflict"@,
                            "Governed target changed; review the refreshed target"@,
                        ),
                    )
                } else if accept && ctx.current_head != c.expected_head_revision {
                    Err(deny_head("Work session changed; review again"@, ctx.current_head))
                } else if !holds(ctx.scopes, "session:write"@) {
                    Err(deny("not_found_or_not_visible"@, "Connection capability is unavailable"@))
                } else if action == "link_current_work"@ && !holds(ctx.scopes, "workbench:current:read"@) {
                    Err(deny("not_found_or_not_visible"@, "Connection capability is unavailable"@))
                } else if accept && ctx.session_closed && action != "task.reopen"@ {
                    Err(deny("session_closed"@, "Completed work requires a follow-up session"@))
                } else {
                    let checkpoint = action == "accept_checkpoint"@;
                    Ok(
                        (
                            accept,
                            if accept {
                                "accepted"@
                            } else {
                                "rejected"@
                            },
                            channel_name(connection, action),
                            if accept && checkpoint {
                                "pending"@
                            } else if accept {
                                "applied"@
                            } else {
                                "conflict"@
                            },
                            !checkpoint,
                            accept && action == "task.reopen"@,
                            accept && !checkpoint,
                        ),
                    )
                }
            },
        }
    }
}

/// The view of a plan, in the order of `consume_outcome`.
pub open spec fn plan_view(p: ConsumePlan) -> (bool, Seq<char>, Seq<char>, Seq<char>, bool, bool, bool) {
    (
        p.accepted,
        p.decision@,
        p.channel@,
        p.projection_state@,
        p.hash_proposed_payload,
        p.reopen_session,
        p.settle_event,
    )
}

fn holds_scope(scopes: &Option<Vec<String>>, scope: &str) -> (r: bool)
    ensures
        r == holds(*scopes, scope@),
{
    match scopes {
        Some(s) => crate::access::contains_text(s, scope),
        None => false,
    }
}

/// Decides what a human's decision on a review challenge does, in the order the store
/// checks it: the decision word, the challenge, the connection, its status and expiry,
/// retired actions, the reviewed payload, freshness of the target and the session head,
/// the connection's capabilities, and a completed session.
pub fn consume_plan(
    connection: &str,
    decision: &str,
    request_hash: &str,
    now: &str,
    challenge: Option<&ChallengeRecord>,
    ctx: &ChallengeContext,
) -> (r: Result<ConsumePlan, AppError>)
    ensures
        match consume_outcome(
            connection@,
            decision@,
            request_hash@,
            now@,
            match challenge {
                Some(c) => Some(*c),
                None => None,
            },
            *ctx,
        ) {
            Ok(p) => r matches Ok(plan) && plan_view(plan) == p,
            Err(d) => outcome(r, Err(d)),
        },
{
    let accept = text_eq(decision, "accept");
    if !(accept || text_eq(decision, "reject") || text_eq(decision, "cancel")) {
        return Err(AppError::new("invalid_input", "Decision must be accept, reject or cancel"));
    }
    let c = match challenge {
        None => {
            return Err(AppError::new("invalid_input", "Review state is invalid"));
        },
        Some(c) => c,
    };
    let action = c.action.as_str();
    if !ctx.connection_active {
        return Err(AppError::new("not_found_or_not_visible", "Connection is unavailable"));
    }
    if !text_eq(c.status.as_str(), "pending") {
        return Err(AppError::new("challenge_replayed", "Review state was already used"));
    }
    if text_before(c.expires_at.as_str(), now) {
        return Err(AppError::new("challenge_expired", "Review state expired"));
    }
    if legacy_action(action) {
        return Err(
            AppError::new(
                "legacy_action_rejected",
                "This legacy workflow action is preserved only as history; use a canonical Task action",
            ),
        );
    }
    if !text_eq(c.proposed_payload_hash.as_str(), request_hash) {
        return Err(AppError::new("invalid_input", "Reviewed payload changed"));
    }
    if accept && !ctx.target_unchanged {
        return Err(
            AppError::new("head_conflict", "Governed target changed; review the refreshed target"),
        );
    }
    if accept && ctx.current_head != c.expected_head_revision {
        return Err(AppError::conflict("Work session changed; review again", ctx.current_head));
    }
    if !holds_scope(&ctx.scopes, "session:write") {
        return Err(
            AppError::new("not_found_or_not_visible", "Connection capability is unavailable"),
        );
    }
    if text_eq(action, "link_current_work") && !holds_scope(&ctx.scopes, "workbench:current:read") {
        return Err(
            AppError::new("not_found_or_not_visible", "Connection capability is unavailable"),
        );
    }
    let reopen = text_eq(action, "task.reopen");
    if accept && ctx.session_closed && !reopen {
        return Err(AppError::new("session_closed", "Completed work requires a follow-up session"));
    }
    let checkpoint = text_eq(action, "accept_checkpoint");
    let mut channel = if text_eq(connection, "native-in-app-chat") {
        "in_app_chat_review:".to_owned()
    } else {
        "mcp_elicitation:".to_owned()
    };
    channel.append(action);
    let projection_state = if accept && checkpoint {
        "pending"
    } else if accept {
        "applied"
    } else {
        "conflict"
    };
    Ok(
        ConsumePlan {
            accepted: accept,
            decision: if accept {
                "accepted".to_owned()
            } else {
                "rejected".to_owned()
            },
            channel,
            projection_state: projection_state.to_owned(),
            hash_proposed_payload: !checkpoint,
            reopen_session: accept && reopen,
            settle_event: accept && !checkpoint,
        },
    )
}

/// The step an accepted action performs.
#[derive(Debug, Clone, Copy, PartialEq, Eq, Structural)]
pub enum ActionStep {
    /// Create a Task from the payload, optionally linked to an exact Problem revision.
    CreateTask,
    /// Hand the payload to the Task service under a canonical operation.
    Delegate,
    AdoptProblem,
    ApproveProblem,
    AdoptSolution,
    ResolveConflict,
    ApproveSolution,
    AcceptCheckpoint,
    AcceptCompletionProposal,
    VerifyAndComplete,
    LinkCurrentWork,
}

/// The step an accepted action performs and how its payload is handed on.
#[derive(Debug, Clone)]
pub struct ActionPlan {
    pub step: ActionStep,
    /// The canonical Task-service operation of a delegated step.
    pub operation: String,
    /// A payload without a Task takes the session's adopted Task.
    pub fills_task: bool,
    /// Completing the Task completes the session and offers publication.
    pub completes_session: bool,
    /// The payload is recorded as an advisory review decision.
    pub advisory_review: bool,
}

/// Actions whose payload goes to the Task service under a canonical name.
pub open spec fn delegated_operation(a: Seq<char>) -> Option<Seq<char>> {
    if a == "problem.create"@ || a == "problem.revision"@ {
        Some(a)
    } else if a == "revise_task"@ || a == "task.revision"@ {
        Some("task.revision"@)
    } else if a == "transition_task"@ || a == "task.transition"@ {
        Some("task.transition"@)
    } else if a == "task.reopen"@ {
        Some("task.reopen"@)
    } else if a == "complete_task"@ || a == "task.completion.create"@ {
        Some("task.completion.create"@)
    } else if a == "resolve_problem"@ || a == "problem.resolution.create"@ {
        Some("problem.resolution.create"@)
    } else if a == "task.problem-link.create"@ || a == "task.problem-link.delete"@ || a
        == "task.relationship.create"@ || a == "task.relationship.delete"@ {
        Some(a)
    } else if a == "task.work-log.create"@ || a == "work-log.comment.create"@ || a
        == "task.checklist.create"@ || a == "task.checklist.update"@ || a
        == "task.decision.create"@ || a == "task.readiness.decision"@ {
        Some(a)
    } else if a == "review_conflict"@ {
        Some("task.decision.create"@)
    } else {
        None
    }
}

/// The step of a non-delegated action.
pub open spec fn direct_step(a: Seq<char>) -> Option<ActionStep> {
    if a == "create_task"@ || a == "task.create"@ {
        Some(ActionStep::CreateTask)
    } else if a == "adopt_problem"@ {
        Some(ActionStep::AdoptProblem)
    } else if a == "approve_problem"@ {
        Some(ActionStep::ApproveProblem)
    } else if a == "adopt_solution"@ {
        Some(ActionStep::AdoptSolution)
    } else if a == "resolve_conflict"@ {
        Some(ActionStep::ResolveConflict)
    } else if a == "approve_solution"@ {
        Some(ActionStep::ApproveSolution)
    } else if a == "accept_checkpoint"@ {
        Some(ActionStep::AcceptCheckpoint)
    } else if a == "accept_completion_proposal"@ {
        Some(ActionStep::AcceptCompletionProposal)
    } else if a == "verify_and_complete"@ {
        Some(ActionStep::VerifyAndComplete)
    } else if a == "link_current_work"@ {
        Some(ActionStep::LinkCurrentWork)
    } else {
        None
    }
}

/// The plan of an accepted action, or the refusal of an unsupported one.
pub open spec fn plan_of(a: Seq<char>) -> Result<(ActionStep, Seq<char>, bool, bool, bool), Denial> {
    match delegated_operation(a) {
        Some(op) => Ok(
            (
                ActionStep::Delegate,
                op,
                !(a == "problem.create"@ || a == "problem.revision"@ || a == "resolve_problem"@
                    || a == "problem.resolution.create"@),
                a == "complete_task"@ || a == "task.completion.create"@,
                a == "review_conflict"@,
            ),
        ),
        None => match direct_step(a) {
            Some(step) => Ok((step, Seq::empty(), false, false, false)),
            None => Err(deny("invalid_input"@, "Unsupported governed action"@)),
        },
    }
}

/// Maps an accepted action to the step that applies it.
pub fn action_plan(action: &str) -> (r: Result<ActionPlan, AppError>)
    ensures
        match plan_of(action@) {
            Ok(p) => r matches Ok(plan) && (
            plan.step,
            plan.operation@,
            plan.fills_task,
            plan.completes_session,
            plan.advisory_review,
            ) == p,
            Err(d) => outcome(r, Err(d)),
        },
{
    let a = action;
    let problem_op = text_eq(a, "problem.create") || text_eq(a, "problem.revision");
    let resolve = text_eq(a, "resolve_problem") || text_eq(a, "problem.resolution.create");
    let complete = text_eq(a, "complete_task") || text_eq(a, "task.completion.create");
    let review = text_eq(a, "review_conflict");
    let op: Option<String> = if problem_op {
        Some(a.to_owned())
    } else if text_eq(a, "revise_task") || text_eq(a, "task.revision") {
        Some("task.revision".to_owned())
    } else if text_eq(a, "transition_task") || text_eq(a, "task.transition") {
        Some("task.transition".to_owned())
    } else if text_eq(a, "task.reopen") {
        Some("task.reopen".to_owned())
    } else if complete {
        Some("task.completion.create".to_owned())
    } else if resolve {
        Some("problem.resolution.create".to_owned())
    } else if text_eq(a, "task.problem-link.create") || text_eq(a, "task.problem-link.delete")
        || text_eq(a, "task.relationship.create") || text_eq(a, "task.relationship.delete") {
        Some(a.to_owned())
    } else if text_eq(a, "task.work-log.create") || text_eq(a, "work-log.comment.create")
        || text_eq(a, "task.checklist.create") || text_eq(a, "task.checklist.update") || text_eq(
        a,
        "task.decision.create",
    ) || text_eq(a, "task.readiness.decision") {
        Some(a.to_owned())
    } else if review {
        Some("task.decision.create".to_owned())
    } else {
        None
    };
    if let Some(operation) = op {
        return Ok(
            ActionPlan {
                step: ActionStep::Delegate,
                operation,
                fills_task: !(problem_op || resolve),
                completes_session: complete,
                advisory_review: review,
            },
        );
    }
    let step = if text_eq(a, "create_task") || text_eq(a, "task.create") {
        ActionStep::CreateTask
    } else if text_eq(a, "adopt_problem") {
        ActionStep::AdoptProblem
    } else if text_eq(a, "approve_problem") {
        ActionStep::ApproveProblem
    } else if text_eq(a, "adopt_solution") {
        ActionStep::AdoptSolution
    } else if text_eq(a, "resolve_conflict") {
        ActionStep::ResolveConflict
    } else if text_eq(a, "approve_solution") {
        ActionStep::ApproveSolution
    } else if text_eq(a, "accept_checkpoint") {
        ActionStep::AcceptCheckpoint
    } else if text_eq(a, "accept_completion_proposal") {
        ActionStep::AcceptCompletionProposal
    } else if text_eq(a, "verify_and_complete") {
        ActionStep::VerifyAndComplete
    } else if text_eq(a, "link_current_work") {
        ActionStep::LinkCurrentWork
    } else {
        return Err(AppError::new("invalid_input", "Unsupported governed action"));
    };
    Ok(
        ActionPlan {
            step,
            operation: String::new(),
            fills_task: false,
            completes_session: false,
            advisory_review: false,
        },
    )
}

/// Whether an accepted step writes an entity: an accepted Work Log checkpoint records
/// no entity and writes nothing; every other step writes the entity it acts on.
pub fn writes_entity(step: ActionStep) -> (r: bool)
    ensures
        r == (step != ActionStep::AcceptCheckpoint),
{
    !matches!(step, ActionStep::AcceptCheckpoint)
}

/// How a Task created from a proposal is linked to the Problem it names, or why not.
pub open spec fn problem_link_of(problem_id: Option<Seq<char>>, revision: Option<i64>, revision_exists: bool) -> Result<Option<(Seq<char>, i64)>, Denial> {
    match problem_id {
        None => Ok(None),
        Some(p) => match revision {
            None => Err(deny("invalid_input"@, "Task proposal requires an exact Problem revision"@)),
            Some(r) => if revision_exists {
                Ok(Some((p, r)))
            } else {
                Err(deny("not_found_or_not_visible"@, "Problem revision is unavailable"@))
            },
        },
    }
}

/// Checks the Problem a Task proposal names: a named Problem needs an exact revision,
/// and that revision must exist (`revision_exists`, looked up by the caller). Gives the
/// Problem and revision the new Task is linked to, or none when no Problem is named.
pub fn check_task_problem_link(problem_id: Option<&str>, revision: Option<i64>, revision_exists: bool) -> (r: Result<Option<(String, i64)>, AppError>)
    ensures
        match problem_link_of(crate::text::opt_str(problem_id), revision, revision_exists) {
            Ok(None) => r matches Ok(None),
            Ok(Some((p, n))) => r matches Ok(Some((q, m))) && q@ == p && m == n,
            Err(d) => outcome(r, Err(d)),
        },
{
    match problem_id {
        None => Ok(None),
        Some(p) => match revision {
            None => Err(AppError::new("invalid_input", "Task proposal requires an exact Problem revision")),
            Some(n) => if revision_exists {
                Ok(Some((p.to_owned(), n)))
            } else {
                Err(AppError::new("not_found_or_not_visible", "Problem revision is unavailable"))
            },
        },
    }
}

/// The operation ID under which an accepted decision's Task mutation is recorded.
pub open spec fn review_operation(decision_id: Seq<char>) -> Seq<char> {
    "review:"@ + decision_id
}

/// The server-derived operation ID of the Task mutation an accepted decision makes.
pub fn review_operation_id(decision_id: &str) -> (r: String)
    ensures
        r@ == review_operation(decision_id@),
{
    let mut id = "review:".to_owned();
    id.append(decision_id);
    id
}

/// The Task a delegated step addresses: the payload's own, or else the session's
/// adopted Task.
pub fn step_task(payload_task: Option<&str>, adopted_task: Option<&str>) -> (r: Result<String, AppError>)
    ensures
        match payload_task {
            Some(t) => r matches Ok(s) && s@ == t@,
            None => match adopted_task {
                Some(t) => r matches Ok(s) && s@ == t@,
                None => outcome(r, Err(deny("workflow_precondition"@, "Select a Task first"@))),
            },
        },
{
    match payload_task {
        Some(t) => Ok(t.to_owned()),
        None => match adopted_task {
            Some(t) => Ok(t.to_owned()),
            None => Err(AppError::new("workflow_precondition", "Select a Task first")),
        },
    }
}

/// A Solution may be adopted only under an approved Problem.
pub fn adopt_solution_check(problem_state: &str) -> (r: Result<(), AppError>)
    ensures
        refused(
            r,
            if problem_state@ == "approved"@ {
                None
            } else {
                Some(deny("workflow_precondition"@, "Approve the Problem first"@))
            },
        ),
{
    if text_eq(problem_state, "approved") {
        Ok(())
    } else {
        Err(AppError::new("workflow_precondition", "Approve the Problem first"))
    }
}

/// A Solution may be approved only once its Vault conflicts are clear.
pub fn approve_solution_check(conflict_state: &str) -> (r: Result<(), AppError>)
    ensures
        refused(
            r,
            if conflict_state@ == "clear"@ {
                None
            } else {
                Some(
                    deny(
                        "workflow_precondition"@,
                        "Review Vault conflicts with the current-session AI first"@,
                    ),
                )
            },
        ),
{
    if text_eq(conflict_state, "clear") {
        Ok(())
    } else {
        Err(
            AppError::new(
                "workflow_precondition",
                "Review Vault conflicts with the current-session AI first",
            ),
        )
    }
}

/// The refusal, if any, of resolving a Solution conflict: it needs an explicit conflict
/// proposal, evidence given as a list, and citations unless coverage is acknowledged as
/// insufficient.
pub open spec fn conflict_resolution(source_kind: Seq<char>, evidence: Option<nat>, coverage_insufficient: bool) -> Option<Denial> {
    if source_kind != "conflict_proposal"@ {
        Some(
            deny(
                "workflow_precondition"@,
                "Review an explicit current-chat conflict proposal first"@,
            ),
        )
    } else {
        match evidence {
            None => Some(deny("invalid_input"@, "Conflict evidence must be an array"@)),
            Some(n) => if n == 0 && !coverage_insufficient {
                Some(
                    deny(
                        "workflow_precondition"@,
                        "Acknowledge insufficient evidence before resolving without citations"@,
                    ),
                )
            } else {
                None
            },
        }
    }
}

/// Checks a conflict resolution once its rationale and proposed resolution are present.
pub fn conflict_resolution_check(source_kind: &str, evidence_count: Option<usize>, coverage_insufficient: bool) -> (r: Result<(), AppError>)
    ensures
        refused(
            r,
            conflict_resolution(
                source_kind@,
                match evidence_count {
                    Some(n) => Some(n as nat),
                    None => None,
                },
                coverage_insufficient,
            ),
        ),
{
    if !text_eq(source_kind, "conflict_proposal") {
        return Err(
            AppError::new(
                "workflow_precondition",
                "Review an explicit current-chat conflict proposal first",
            ),
        );
    }
    match evidence_count {
        None => Err(AppError::new("invalid_input", "Conflict evidence must be an array")),
        Some(n) => {
            if n == 0 && !coverage_insufficient {
                Err(
                    AppError::new(
                        "workflow_precondition",
                        "Acknowledge insufficient evidence before resolving without citations",
                    ),
                )
            } else {
                Ok(())
            }
        },
    }
}

/// The relationship under which a linked Workbench item is adopted.
pub open spec fn link_relationship(entity_type: Seq<char>) -> Option<Seq<char>> {
    if entity_type == "tasks"@ {
        Some("adopted_task"@)
    } else if entity_type == "problems"@ {
        Some("adopted_problem"@)
    } else if entity_type == "features"@ {
        Some("adopted_solution"@)
    } else {
        None
    }
}

/// How a current Workbench item is linked to a session, or why it cannot be.
pub fn link_target(entity_type: &str) -> (r: Result<&'static str, AppError>)
    ensures
        match link_relationship(entity_type@) {
            Some(rel) => r matches Ok(s) && s@ == rel,
            None => outcome(r, Err(deny("invalid_input"@, "Only a Problem or Solution can be linked"@))),
        },
{
    if text_eq(entity_type, "tasks") {
        Ok("adopted_task")
    } else if text_eq(entity_type, "problems") {
        Ok("adopted_problem")
    } else if text_eq(entity_type, "features") {
        Ok("adopted_solution")
    } else {
        Err(AppError::new("invalid_input", "Only a Problem or Solution can be linked"))
    }
}

/// No decision on a retired action is ever admitted, on any challenge or context.
pub proof fn legacy_actions_never_apply(
    connection: Seq<char>,
    decision: Seq<char>,
    request_hash: Seq<char>,
    now: Seq<char>,
    challenge: ChallengeRecord,
    ctx: ChallengeContext,
)
    requires
        is_legacy(challenge.action@),
    ensures
        consume_outcome(connection, decision, request_hash, now, Some(challenge), ctx) is Err,
        admission(challenge.action@) is Some,
{
}

/// A rejected or cancelled decision never changes the session: it settles nothing,
/// reopens nothing and leaves the source event in conflict.
pub proof fn refusal_changes_nothing(
    connection: Seq<char>,
    decision: Seq<char>,
    request_hash: Seq<char>,
    now: Seq<char>,
    challenge: Option<ChallengeRecord>,
    ctx: ChallengeContext,
)
    requires
        decision != "accept"@,
        consume_outcome(connection, decision, request_hash, now, challenge, ctx) is Ok,
    ensures
        ({
            let p = consume_outcome(connection, decision, request_hash, now, challenge, ctx)->Ok_0;
            !p.0 && p.1 == "rejected"@ && p.3 == "conflict"@ && !p.5 && !p.6
        }),
{
}

/// The refusal, if any, of a new challenge on a session at `current_head`; None means
/// the session is not visible to the connection.
pub open spec fn challenge_precondition(active: bool, current_head: Option<i64>, expected: i64, source_exists: bool) -> Option<Denial> {
    if !active {
        Some(deny("not_found_or_not_visible"@, "Connection is unavailable"@))
    } else {
        match current_head {
            None => Some(deny("not_found_or_not_visible"@, "Work session is unavailable"@)),
            Some(h) => if h != expected {
                Some(deny_head("Work session changed; refresh before reviewing"@, h))
            } else if !source_exists {
                Some(deny("not_found_or_not_visible"@, "Source event is unavailable"@))
            } else {
                None
            },
        }
    }
}

/// Checks that a new challenge addresses the session head the caller saw and an event
/// of that session, for an active connection.
pub fn check_challenge(active: bool, current_head: Option<i64>, expected: i64, source_exists: bool) -> (r: Result<(), AppError>)
    ensures
        refused(r, challenge_precondition(active, current_head, expected, source_exists)),
{
    if !active {
        return Err(AppError::new("not_found_or_not_visible", "Connection is unavailable"));
    }
    match current_head {
        None => Err(AppError::new("not_found_or_not_visible", "Work session is unavailable")),
        Some(h) => {
            if h != expected {
                return Err(AppError::conflict("Work session changed; refresh before reviewing", h));
            }
            if !source_exists {
                return Err(AppError::new("not_found_or_not_visible", "Source event is unavailable"));
            }
            Ok(())
        },
    }
}

/// The review a replayed challenge request returns: the stored review state, which must
/// be present.
pub fn replayed_review_state(review_state: Option<&str>) -> (r: Result<String, AppError>)
    ensures
        match review_state {
            Some(s) if s@.len() > 0 => r matches Ok(v) && v@ == s@,
            _ => outcome(r, Err(deny("storage_unavailable"@, "Reviewed operation replay record is invalid"@))),
        },
{
    match review_state {
        Some(s) => {
            if !s.is_empty() {
                return Ok(s.to_owned());
            }
        },
        None => {},
    }
    Err(AppError::new("storage_unavailable", "Reviewed operation replay record is invalid"))
}

/// What a decision request stored under its operation ID leads to: None to go on,
/// `Some(true)` to return the stored final response.
pub open spec fn decision_replay(stored: Option<(Seq<char>, Option<Seq<char>>, bool)>, request_hash: Seq<char>, challenge_id: Seq<char>) -> Result<bool, Denial> {
    match stored {
        None => Ok(false),
        Some((hash, review_state, decided)) => if hash != request_hash {
            Err(deny("idempotency_conflict"@, "Operation ID was already used with different input"@))
        } else if review_state != Some(challenge_id) {
            Err(deny("invalid_input"@, "Review state is invalid"@))
        } else {
            Ok(decided)
        },
    }
}

/// Checks a decision request against what its operation ID stored: a different request
/// conflicts, another challenge is invalid, and a decided one is replayed.
pub fn check_decision_replay(stored: Option<(&str, Option<&str>, bool)>, request_hash: &str, challenge_id: &str) -> (r: Result<bool, AppError>)
    ensures
        outcome(
            r,
            decision_replay(
                match stored {
                    Some((h, s, d)) => Some((h@, crate::text::opt_str(s), d)),
                    None => None,
                },
                request_hash@,
                challenge_id@,
            ),
        ),
{
    match stored {
        None => Ok(false),
        Some((hash, review_state, decided)) => {
            if !text_eq(hash, request_hash) {
                return Err(
                    AppError::new(
                        "idempotency_conflict",
                        "Operation ID was already used with different input",
                    ),
                );
            }
            let same = match review_state {
                Some(s) => text_eq(s, challenge_id),
                None => false,
            };
            if !same {
                return Err(AppError::new("invalid_input", "Review state is invalid"));
            }
            Ok(decided)
        },
    }
}

/// A decided operation is replayed only for the exact request and challenge it was
/// decided with.
pub proof fn decisions_replay_only_exactly(hash: Seq<char>, review_state: Option<Seq<char>>, request_hash: Seq<char>, challenge_id: Seq<char>)
    ensures
        decision_replay(Some((hash, review_state, true)), request_hash, challenge_id) == Ok::<bool, Denial>(true)
            <==> hash == request_hash && review_state == Some(challenge_id),
{
}

/// Plans a decision on a challenge from the decision request itself, as `consume_plan`
/// does with the hash of that request document.
pub fn consume_request(
    connection: &str,
    decision: &str,
    request: &crate::evidence::Json,
    now: &str,
    challenge: Option<&ChallengeRecord>,
    ctx: &ChallengeContext,
) -> (r: Result<ConsumePlan, AppError>)
    ensures
        match consume_outcome(
            connection@,
            decision@,
            crate::digest::request_digest(*request),
            now@,
            match challenge {
                Some(c) => Some(*c),
                None => None,
            },
            *ctx,
        ) {
            Ok(p) => r matches Ok(plan) && plan_view(plan) == p,
            Err(d) => outcome(r, Err(d)),
        },
{
    let hash = crate::digest::request_hash(request);
    consume_plan(connection, decision, hash.as_str(), now, challenge, ctx)
}

/// Checks a decision request document against what its operation ID stored, as
/// `check_decision_replay` does with the hash of that document.
pub fn decision_request_replay(stored: Option<(&str, Option<&str>, bool)>, request: &crate::evidence::Json, challenge_id: &str) -> (r: Result<bool, AppError>)
    ensures
        outcome(
            r,
            decision_replay(
                match stored {
                    Some((h, s, d)) => Some((h@, crate::text::opt_str(s), d)),
                    None => None,
                },
                crate::digest::request_digest(*request),
                challenge_id@,
            ),
        ),
{
    let hash = crate::digest::request_hash(request);
    check_decision_replay(stored, hash.as_str(), challenge_id)
}

} // verus!
