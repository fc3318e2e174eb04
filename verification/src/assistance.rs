//! Task assistance: the closed set of assistance actions, what each requires of a
//! connection, where each is carried out, and how its failures are reported.

use vstd::prelude::*;
use crate::access::{contains_text, listed};
use crate::review::refused;
use crate::text::{chars_of, push_char, text_eq};
use crate::work_state::{AppError, EventKind, deny, outcome, plain_error};

verus! {

/// Assistance operations an authorized application-service caller may ask for.
#[derive(Debug, Clone, Copy, PartialEq, Eq, Structural)]
pub enum TaskAssistanceAction {
    RefinementOpen,
    RefinementGet,
    RefinementMessage,
    RefinementWorkspace,
    RefinementProposals,
    RefinementDecision,
    ReviewGet,
    ReviewHistory,
    ReviewCancel,
    ReviewDecision,
    Lineage,
    TaskLineage,
    KnowledgeDraft,
    KnowledgeCorrection,
    KnowledgeRegenerate,
    KnowledgePublish,
    KnowledgeWithdraw,
}

impl TaskAssistanceAction {
    /// The native operation an action runs.
    pub open spec fn operation_name(self) -> Seq<char> {
        match self {
            TaskAssistanceAction::RefinementOpen => "task-refinement.open"@,
            TaskAssistanceAction::RefinementGet => "task-refinement.get"@,
            TaskAssistanceAction::RefinementMessage => "task-refinement.message"@,
            TaskAssistanceAction::RefinementWorkspace => "task-refinement.workspace"@,
            TaskAssistanceAction::RefinementProposals => "task-refinement.proposals"@,
            TaskAssistanceAction::RefinementDecision => "task-refinement.decision"@,
            TaskAssistanceAction::ReviewGet => "task-review.get"@,
            TaskAssistanceAction::ReviewHistory => "task-review.history"@,
            TaskAssistanceAction::ReviewCancel => "task-review.cancel"@,
            TaskAssistanceAction::ReviewDecision => "task-review.decision"@,
            TaskAssistanceAction::Lineage | TaskAssistanceAction::TaskLineage => "task.lineage"@,
            TaskAssistanceAction::KnowledgeDraft => "task-knowledge.draft"@,
            TaskAssistanceAction::KnowledgeCorrection => "task-knowledge.correction"@,
            TaskAssistanceAction::KnowledgeRegenerate => "task-knowledge.regenerate"@,
            TaskAssistanceAction::KnowledgePublish => "task-knowledge.publish"@,
            TaskAssistanceAction::KnowledgeWithdraw => "task-knowledge.withdraw"@,
        }
    }

    /// The native operation an action runs.
    pub fn operation(self) -> (r: &'static str)
        ensures
            r@ == self.operation_name(),
    {
        match self {
            TaskAssistanceAction::RefinementOpen => "task-refinement.open",
            TaskAssistanceAction::RefinementGet => "task-refinement.get",
            TaskAssistanceAction::RefinementMessage => "task-refinement.message",
            TaskAssistanceAction::RefinementWorkspace => "task-refinement.workspace",
            TaskAssistanceAction::RefinementProposals => "task-refinement.proposals",
            TaskAssistanceAction::RefinementDecision => "task-refinement.decision",
            TaskAssistanceAction::ReviewGet => "task-review.get",
            TaskAssistanceAction::ReviewHistory => "task-review.history",
            TaskAssistanceAction::ReviewCancel => "task-review.cancel",
            TaskAssistanceAction::ReviewDecision => "task-review.decision",
            TaskAssistanceAction::Lineage | TaskAssistanceAction::TaskLineage => "task.lineage",
            TaskAssistanceAction::KnowledgeDraft => "task-knowledge.draft",
            TaskAssistanceAction::KnowledgeCorrection => "task-knowledge.correction",
            TaskAssistanceAction::KnowledgeRegenerate => "task-knowledge.regenerate",
            TaskAssistanceAction::KnowledgePublish => "task-knowledge.publish",
            TaskAssistanceAction::KnowledgeWithdraw => "task-knowledge.withdraw",
        }
    }
}

/// Where an assistance action is carried out.
#[derive(Debug, Clone, Copy, PartialEq, Eq, Structural)]
pub enum AssistanceRoute {
    /// The Task's lineage, read in one local transaction.
    TaskLineage,
    /// The Knowledge lineage, read in one local transaction.
    KnowledgeLineage,
    /// A Knowledge draft supplied by the caller, saved in one local transaction.
    SuppliedDraft,
    /// A Current Chat advisory read.
    AdvisoryGet,
    /// The advisory history of a Task.
    AdvisoryHistory,
    /// Cancelling an advisory.
    AdvisoryCancel,
    /// Deciding an advisory.
    AdvisoryDecision,
    /// The native assistance dispatcher, under the action's operation.
    Dispatch,
}

/// The route of an action; `has_body` says whether the input carries a draft body.
pub open spec fn route_of(action: TaskAssistanceAction, has_body: bool) -> AssistanceRoute {
    match action {
        TaskAssistanceAction::TaskLineage => AssistanceRoute::TaskLineage,
        TaskAssistanceAction::Lineage => AssistanceRoute::KnowledgeLineage,
        TaskAssistanceAction::KnowledgeDraft if has_body => AssistanceRoute::SuppliedDraft,
        TaskAssistanceAction::ReviewGet => AssistanceRoute::AdvisoryGet,
        TaskAssistanceAction::ReviewHistory => AssistanceRoute::AdvisoryHistory,
        TaskAssistanceAction::ReviewCancel => AssistanceRoute::AdvisoryCancel,
        TaskAssistanceAction::ReviewDecision => AssistanceRoute::AdvisoryDecision,
        _ => AssistanceRoute::Dispatch,
    }
}

/// Chooses where an assistance action is carried out. Lineage, supplied drafts and
/// Current Chat advisories stay in one local transaction and never reach a provider.
pub fn route(action: TaskAssistanceAction, has_body: bool) -> (r: AssistanceRoute)
    ensures
        r == route_of(action, has_body),
{
    match action {
        TaskAssistanceAction::TaskLineage => AssistanceRoute::TaskLineage,
        TaskAssistanceAction::Lineage => AssistanceRoute::KnowledgeLineage,
        TaskAssistanceAction::KnowledgeDraft if has_body => AssistanceRoute::SuppliedDraft,
        TaskAssistanceAction::ReviewGet => AssistanceRoute::AdvisoryGet,
        TaskAssistanceAction::ReviewHistory => AssistanceRoute::AdvisoryHistory,
        TaskAssistanceAction::ReviewCancel => AssistanceRoute::AdvisoryCancel,
        TaskAssistanceAction::ReviewDecision => AssistanceRoute::AdvisoryDecision,
        _ => AssistanceRoute::Dispatch,
    }
}

/// What a reviewed assistance action persists inside the review's transaction.
#[derive(Debug, Clone, Copy, PartialEq, Eq, Structural)]
pub enum ReviewedPersistence {
    RefinementDecision,
    AdvisoryDecision,
    KnowledgeCorrection,
    SuppliedDraft,
}

/// Chooses what a reviewed action persists; other actions have nothing to persist there.
pub fn reviewed_persistence(action: TaskAssistanceAction) -> (r: Result<ReviewedPersistence, String>)
    ensures
        match action {
            TaskAssistanceAction::RefinementDecision => r == Ok::<ReviewedPersistence, String>(ReviewedPersistence::RefinementDecision),
            TaskAssistanceAction::ReviewDecision => r == Ok::<ReviewedPersistence, String>(ReviewedPersistence::AdvisoryDecision),
            TaskAssistanceAction::KnowledgeCorrection => r == Ok::<ReviewedPersistence, String>(ReviewedPersistence::KnowledgeCorrection),
            TaskAssistanceAction::KnowledgeDraft => r == Ok::<ReviewedPersistence, String>(ReviewedPersistence::SuppliedDraft),
            _ => r matches Err(e) && e@ == "invalid_input: unsupported reviewed persistence action"@,
        },
{
    match action {
        TaskAssistanceAction::RefinementDecision => Ok(ReviewedPersistence::RefinementDecision),
        TaskAssistanceAction::ReviewDecision => Ok(ReviewedPersistence::AdvisoryDecision),
        TaskAssistanceAction::KnowledgeCorrection => Ok(ReviewedPersistence::KnowledgeCorrection),
        TaskAssistanceAction::KnowledgeDraft => Ok(ReviewedPersistence::SuppliedDraft),
        _ => Err("invalid_input: unsupported reviewed persistence action".to_owned()),
    }
}

/// Which record an action's input names, so that its visibility can be checked.
#[derive(Debug, Clone, Copy, PartialEq, Eq, Structural)]
pub enum AssistanceSubject {
    /// The input's `taskId`.
    Task,
    /// The input's refinement `sessionId`.
    RefinementSession,
    /// The input's advisory `runId`.
    AdvisoryRun,
}

/// The record whose visibility an action needs.
pub open spec fn subject_of(action: TaskAssistanceAction) -> AssistanceSubject {
    match action {
        TaskAssistanceAction::RefinementWorkspace | TaskAssistanceAction::RefinementProposals
        | TaskAssistanceAction::RefinementMessage | TaskAssistanceAction::RefinementDecision =>
            AssistanceSubject::RefinementSession,
        TaskAssistanceAction::ReviewGet | TaskAssistanceAction::ReviewCancel
        | TaskAssistanceAction::ReviewDecision => AssistanceSubject::AdvisoryRun,
        _ => AssistanceSubject::Task,
    }
}

/// The record whose visibility an action needs.
pub fn assistance_subject(action: TaskAssistanceAction) -> (r: AssistanceSubject)
    ensures
        r == subject_of(action),
{
    match action {
        TaskAssistanceAction::RefinementWorkspace | TaskAssistanceAction::RefinementProposals
        | TaskAssistanceAction::RefinementMessage | TaskAssistanceAction::RefinementDecision =>
            AssistanceSubject::RefinementSession,
        TaskAssistanceAction::ReviewGet | TaskAssistanceAction::ReviewCancel
        | TaskAssistanceAction::ReviewDecision => AssistanceSubject::AdvisoryRun,
        _ => AssistanceSubject::Task,
    }
}

/// Whether an action only reads.
pub open spec fn reads_only(action: TaskAssistanceAction) -> bool {
    action == TaskAssistanceAction::RefinementGet || action
        == TaskAssistanceAction::RefinementProposals || action == TaskAssistanceAction::ReviewGet
        || action == TaskAssistanceAction::ReviewHistory || action == TaskAssistanceAction::Lineage
        || action == TaskAssistanceAction::TaskLineage
}

/// The scopes an action needs, in the order they are checked.
pub open spec fn scopes_needed(action: TaskAssistanceAction) -> Seq<Seq<char>> {
    let base: Seq<Seq<char>> = if action == TaskAssistanceAction::Lineage {
        Seq::empty()
    } else if reads_only(action) {
        seq!["session:read"@]
    } else {
        seq!["session:write"@]
    };
    if action == TaskAssistanceAction::KnowledgeDraft || action
        == TaskAssistanceAction::KnowledgeCorrection || action
        == TaskAssistanceAction::KnowledgeRegenerate {
        base.push("knowledge:draft:write"@)
    } else if action == TaskAssistanceAction::KnowledgePublish || action
        == TaskAssistanceAction::KnowledgeWithdraw {
        base.push("knowledge:publish"@)
    } else {
        base
    }
}

/// The first scope in `needed` that the connection lacks.
pub open spec fn first_missing(scopes: Seq<String>, needed: Seq<Seq<char>>) -> Option<Seq<char>>
    decreases needed.len(),
{
    if needed.len() == 0 {
        None
    } else if !listed(scopes, needed[0]) {
        Some(needed[0])
    } else {
        first_missing(scopes, needed.drop_first())
    }
}

fn needed_scopes(action: TaskAssistanceAction) -> (r: Vec<&'static str>)
    ensures
        r@.len() == scopes_needed(action).len(),
        forall|i: int| 0 <= i < r@.len() ==> r@[i]@ == scopes_needed(action)[i],
{
    let mut r: Vec<&'static str> = Vec::new();
    let read_only = match action {
        TaskAssistanceAction::RefinementGet | TaskAssistanceAction::RefinementProposals
        | TaskAssistanceAction::ReviewGet | TaskAssistanceAction::ReviewHistory
        | TaskAssistanceAction::Lineage | TaskAssistanceAction::TaskLineage => true,
        _ => false,
    };
    match action {
        TaskAssistanceAction::Lineage => {},
        _ => {
            if read_only {
                r.push("session:read");
            } else {
                r.push("session:write");
            }
        },
    }
    match action {
        TaskAssistanceAction::KnowledgeDraft | TaskAssistanceAction::KnowledgeCorrection
        | TaskAssistanceAction::KnowledgeRegenerate => {
            r.push("knowledge:draft:write");
        },
        TaskAssistanceAction::KnowledgePublish | TaskAssistanceAction::KnowledgeWithdraw => {
            r.push("knowledge:publish");
        },
        _ => {},
    }
    r
}

/// Authorizes an assistance action once its subject's visibility was checked: the
/// visibility failure first, then each scope the action needs, in order.
pub fn authorize_assistance(action: TaskAssistanceAction, subject_visible: Result<(), AppError>, scopes: &Vec<String>) -> (r: Result<(), AppError>)
    ensures
        subject_visible is Err ==> r == subject_visible,
        subject_visible is Ok ==> refused(
            r,
            match first_missing(scopes@, scopes_needed(action)) {
                Some(_) => Some(deny("not_found_or_not_visible"@, "The requested capability is unavailable"@)),
                None => None,
            },
        ),
{
    if subject_visible.is_err() {
        return subject_visible;
    }
    let needed = needed_scopes(action);
    let ghost all = scopes_needed(action);
    let mut i: usize = 0;
    proof {
        assert(all.skip(0) =~= all);
    }
    while i < needed.len()
        invariant
            subject_visible is Ok,
            all == scopes_needed(action),
            i <= needed@.len(),
            needed@.len() == all.len(),
            forall|k: int| 0 <= k < needed@.len() ==> needed@[k]@ == all[k],
            first_missing(scopes@, all) == first_missing(scopes@, all.skip(i as int)),
        decreases needed@.len() - i,
    {
        proof {
            assert(all.skip(i as int).drop_first() =~= all.skip(i as int + 1));
            assert(all.skip(i as int)[0] == all[i as int]);
        }
        if !contains_text(scopes, needed[i]) {
            proof {
                let rest = all.skip(i as int);
                assert(rest[0] == needed@[i as int]@);
                assert(!listed(scopes@, rest[0]));
                assert(first_missing(scopes@, rest) == Some(rest[0]));
            }
            return Err(
                AppError::new("not_found_or_not_visible", "The requested capability is unavailable"),
            );
        }
        i = i + 1;
    }
    proof {
        assert(all.skip(i as int) =~= Seq::<Seq<char>>::empty());
    }
    Ok(())
}

/// The record a reviewed assistance action addresses.
pub open spec fn review_subject_of(action: TaskAssistanceAction) -> Option<(AssistanceSubject, Seq<char>)> {
    match action {
        TaskAssistanceAction::RefinementDecision => Some(
            (AssistanceSubject::RefinementSession, "session:write"@),
        ),
        TaskAssistanceAction::ReviewDecision => Some((AssistanceSubject::AdvisoryRun, "session:write"@)),
        TaskAssistanceAction::KnowledgeDraft | TaskAssistanceAction::KnowledgeCorrection
        | TaskAssistanceAction::KnowledgeRegenerate => Some(
            (AssistanceSubject::Task, "knowledge:draft:write"@),
        ),
        TaskAssistanceAction::KnowledgePublish | TaskAssistanceAction::KnowledgeWithdraw => Some(
            (AssistanceSubject::Task, "knowledge:publish"@),
        ),
        _ => None,
    }
}

/// The subject and scope of an action that needs a human review, or the refusal of one
/// that cannot be reviewed.
pub fn review_requirements(action: TaskAssistanceAction) -> (r: Result<(AssistanceSubject, &'static str), AppError>)
    ensures
        match review_subject_of(action) {
            Some((subject, scope)) => r matches Ok((s, sc)) && s == subject && sc@ == scope,
            None => outcome(r, Err(deny("invalid_input"@, "Unsupported Task assistance review action"@))),
        },
{
    match action {
        TaskAssistanceAction::RefinementDecision => Ok(
            (AssistanceSubject::RefinementSession, "session:write"),
        ),
        TaskAssistanceAction::ReviewDecision => Ok((AssistanceSubject::AdvisoryRun, "session:write")),
        TaskAssistanceAction::KnowledgeDraft | TaskAssistanceAction::KnowledgeCorrection
        | TaskAssistanceAction::KnowledgeRegenerate => Ok(
            (AssistanceSubject::Task, "knowledge:draft:write"),
        ),
        TaskAssistanceAction::KnowledgePublish | TaskAssistanceAction::KnowledgeWithdraw => Ok(
            (AssistanceSubject::Task, "knowledge:publish"),
        ),
        _ => Err(AppError::new("invalid_input", "Unsupported Task assistance review action")),
    }
}

/// The name a reviewed assistance action is stored under.
pub open spec fn review_name(action: TaskAssistanceAction) -> Seq<char> {
    match action {
        TaskAssistanceAction::RefinementDecision => "task_refinement_decision"@,
        TaskAssistanceAction::ReviewDecision => "task_advisory_decision"@,
        TaskAssistanceAction::KnowledgeDraft => "task_knowledge_draft"@,
        TaskAssistanceAction::KnowledgeCorrection => "task_knowledge_correction"@,
        TaskAssistanceAction::KnowledgeRegenerate => "task_knowledge_regenerate"@,
        TaskAssistanceAction::KnowledgePublish => "task_knowledge_publish"@,
        TaskAssistanceAction::KnowledgeWithdraw => "task_knowledge_withdraw"@,
        _ => "unsupported_task_assistance_review"@,
    }
}

/// The name a reviewed assistance action is stored under.
pub fn assistance_review_name(action: TaskAssistanceAction) -> (r: &'static str)
    ensures
        r@ == review_name(action),
{
    match action {
        TaskAssistanceAction::RefinementDecision => "task_refinement_decision",
        TaskAssistanceAction::ReviewDecision => "task_advisory_decision",
        TaskAssistanceAction::KnowledgeDraft => "task_knowledge_draft",
        TaskAssistanceAction::KnowledgeCorrection => "task_knowledge_correction",
        TaskAssistanceAction::KnowledgeRegenerate => "task_knowledge_regenerate",
        TaskAssistanceAction::KnowledgePublish => "task_knowledge_publish",
        TaskAssistanceAction::KnowledgeWithdraw => "task_knowledge_withdraw",
        _ => "unsupported_task_assistance_review",
    }
}

/// The text before the first colon, or all of it when it has none.
pub open spec fn code_part(s: Seq<char>) -> Seq<char>
    decreases s.len(),
{
    if s.len() == 0 || s[0] == ':' {
        Seq::empty()
    } else {
        seq![s[0]] + code_part(s.drop_first())
    }
}

proof fn code_part_step(s: Seq<char>, i: int)
    requires
        0 <= i < s.len(),
        forall|k: int| 0 <= k < i ==> s[k] != ':',
    ensures
        code_part(s) == s.take(i) + code_part(s.skip(i)),
    decreases i,
{
    if i > 0 {
        code_part_step(s.drop_first(), i - 1);
        assert(s.drop_first().take(i - 1) + code_part(s.drop_first().skip(i - 1)) == code_part(
            s.drop_first(),
        ));
        assert(s.drop_first().skip(i - 1) =~= s.skip(i));
        assert(seq![s[0]] + s.drop_first().take(i - 1) =~= s.take(i));
    } else {
        assert(s.take(0) =~= Seq::<char>::empty());
        assert(s.skip(0) =~= s);
    }
}

/// The code of a native assistance failure: its text before the first colon.
pub fn error_code(error: &str) -> (r: String)
    ensures
        r@ == code_part(error@),
{
    let chars = chars_of(error);
    let mut code = String::new();
    let mut i: usize = 0;
    while i < chars.len() && chars[i] != ':'
        invariant
            chars@ == error@,
            i <= chars@.len(),
            code@ == error@.take(i as int),
            forall|k: int| 0 <= k < i ==> error@[k] != ':',
        decreases chars@.len() - i,
    {
        push_char(&mut code, chars[i]);
        proof {
            assert(error@.take(i as int + 1) =~= error@.take(i as int).push(error@[i as int]));
        }
        i = i + 1;
    }
    proof {
        if i < chars@.len() {
            code_part_step(error@, i as int);
            assert(error@.skip(i as int)[0] == ':');
            assert(code_part(error@.skip(i as int)) =~= Seq::<char>::empty());
            assert(error@.take(i as int) + Seq::<char>::empty() =~= error@.take(i as int));
        } else {
            assert(error@.take(i as int) =~= error@);
            assert forall|n: int| 0 <= n <= error@.len() implies code_part(error@.skip(n)) =~= (
            #[trigger] error@.skip(n)) by {
                code_part_without_colon(error@, n);
            }
            assert(error@.skip(0) =~= error@);
        }
    }
    code
}

proof fn code_part_without_colon(s: Seq<char>, n: int)
    requires
        0 <= n <= s.len(),
        forall|k: int| 0 <= k < s.len() ==> s[k] != ':',
    ensures
        code_part(s.skip(n)) =~= s.skip(n),
    decreases s.len() - n,
{
    if n < s.len() {
        code_part_without_colon(s, n + 1);
        assert(s.skip(n).drop_first() =~= s.skip(n + 1));
        assert(seq![s.skip(n)[0]] + s.skip(n + 1) =~= s.skip(n));
    }
}

/// The message shown for a stable assistance outcome a caller can act on.
pub open spec fn assistance_message(code: Seq<char>) -> Option<Seq<char>> {
    if code == "draft_conflict"@ {
        Some("The Knowledge draft changed; read fresh lineage before retrying"@)
    } else if code == "head_conflict"@ {
        Some("The Task changed; read fresh state before retrying"@)
    } else if code == "operation_conflict"@ {
        Some("That operation ID was already used with different input"@)
    } else if code == "completion_conflict"@ {
        Some("The Task completion changed; read fresh state before retrying"@)
    } else if code == "subject_material_conflict"@ {
        Some("The reviewed material changed; read fresh state before retrying"@)
    } else if code == "source_changed"@ {
        Some("The Knowledge source changed outside LLM Wiki"@)
    } else if code == "review_scope_unavailable"@ {
        Some("The requested review is unavailable in this scope"@)
    } else if code == "invalid_input"@ {
        Some("The requested Task assistance input is invalid"@)
    } else if code == "cancelled"@ {
        Some("The requested Task assistance was cancelled"@)
    } else {
        None
    }
}

/// Reports a native assistance failure: a stable outcome keeps its code with a fixed
/// message; every other failure is opaque.
pub fn assistance_error(error: &str) -> (r: AppError)
    ensures
        match assistance_message(code_part(error@)) {
            Some(m) => plain_error(r, code_part(error@), m),
            None => plain_error(r, "assistance_unavailable"@, "Task assistance is unavailable"@),
        },
{
    let code = error_code(error);
    let c = code.as_str();
    let message = if text_eq(c, "draft_conflict") {
        "The Knowledge draft changed; read fresh lineage before retrying"
    } else if text_eq(c, "head_conflict") {
        "The Task changed; read fresh state before retrying"
    } else if text_eq(c, "operation_conflict") {
        "That operation ID was already used with different input"
    } else if text_eq(c, "completion_conflict") {
        "The Task completion changed; read fresh state before retrying"
    } else if text_eq(c, "subject_material_conflict") {
        "The reviewed material changed; read fresh state before retrying"
    } else if text_eq(c, "source_changed") {
        "The Knowledge source changed outside LLM Wiki"
    } else if text_eq(c, "review_scope_unavailable") {
        "The requested review is unavailable in this scope"
    } else if text_eq(c, "invalid_input") {
        "The requested Task assistance input is invalid"
    } else if text_eq(c, "cancelled") {
        "The requested Task assistance was cancelled"
    } else {
        return AppError::new("assistance_unavailable", "Task assistance is unavailable");
    };
    AppError::new(c, message)
}

/// The event kinds a chat may append.
pub open spec fn appendable_kind(value: Seq<char>) -> Option<EventKind> {
    if value == "problem_draft"@ {
        Some(EventKind::ProblemDraft)
    } else if value == "task_created"@ {
        Some(EventKind::TaskCreated)
    } else if value == "task_revision_proposed"@ {
        Some(EventKind::TaskRevisionProposed)
    } else if value == "task_transition_proposed"@ {
        Some(EventKind::TaskTransitionProposed)
    } else if value == "problem_resolution_proposed"@ {
        Some(EventKind::ProblemResolutionProposed)
    } else if value == "solution_draft"@ {
        Some(EventKind::SolutionDraft)
    } else if value == "work_log_checkpoint"@ {
        Some(EventKind::WorkLogCheckpoint)
    } else if value == "conflict_proposal"@ {
        Some(EventKind::ConflictProposal)
    } else if value == "completion_proposal"@ {
        Some(EventKind::CompletionProposal)
    } else {
        None
    }
}

/// Reads the kind of an event a chat appends; other kinds cannot be appended.
pub fn parse_kind(value: &str) -> (r: Result<EventKind, AppError>)
    ensures
        match appendable_kind(value@) {
            Some(k) => r == Ok::<EventKind, AppError>(k),
            None => outcome(r, Err(deny("invalid_input"@, "Unsupported event kind"@))),
        },
{
    if text_eq(value, "problem_draft") {
        Ok(EventKind::ProblemDraft)
    } else if text_eq(value, "task_created") {
        Ok(EventKind::TaskCreated)
    } else if text_eq(value, "task_revision_proposed") {
        Ok(EventKind::TaskRevisionProposed)
    } else if text_eq(value, "task_transition_proposed") {
        Ok(EventKind::TaskTransitionProposed)
    } else if text_eq(value, "problem_resolution_proposed") {
        Ok(EventKind::ProblemResolutionProposed)
    } else if text_eq(value, "solution_draft") {
        Ok(EventKind::SolutionDraft)
    } else if text_eq(value, "work_log_checkpoint") {
        Ok(EventKind::WorkLogCheckpoint)
    } else if text_eq(value, "conflict_proposal") {
        Ok(EventKind::ConflictProposal)
    } else if text_eq(value, "completion_proposal") {
        Ok(EventKind::CompletionProposal)
    } else {
        Err(AppError::new("invalid_input", "Unsupported event kind"))
    }
}

/// A parsed event kind is stored under the name it was parsed from.
pub proof fn parsed_kinds_round_trip(value: Seq<char>)
    requires
        appendable_kind(value) is Some,
    ensures
        appendable_kind(value)->Some_0.name() == value,
{
}

} // verus!
