//! Work-tracking vocabulary: projection status, event kinds, ordering keys and errors.

use vstd::prelude::*;
use crate::text::{bytes_le, text_eq, text_le};

verus! {

/// Outcome of projecting one work event into the workflow.
#[derive(Debug, Clone, Copy, PartialEq, Eq, Structural)]
pub enum ProjectionStatus {
    PendingReview,
    Queued,
    Claimed,
    WaitingSolution,
    Applied,
    IgnoredLate,
    Conflict,
    Failed,
}

impl ProjectionStatus {
    /// The stored name of a projection status.
    pub open spec fn name(self) -> Seq<char> {
        match self {
            ProjectionStatus::PendingReview => "pending_review"@,
            ProjectionStatus::Queued => "pending"@,
            ProjectionStatus::Claimed => "claimed"@,
            ProjectionStatus::WaitingSolution => "waiting_solution"@,
            ProjectionStatus::Applied => "applied"@,
            ProjectionStatus::IgnoredLate => "ignored_late"@,
            ProjectionStatus::Conflict => "conflict"@,
            ProjectionStatus::Failed => "failed"@,
        }
    }

    pub fn as_str(self) -> (name: &'static str)
        ensures
            name@ == self.name(),
    {
        match self {
            ProjectionStatus::PendingReview => "pending_review",
            ProjectionStatus::Queued => "pending",
            ProjectionStatus::Claimed => "claimed",
            ProjectionStatus::WaitingSolution => "waiting_solution",
            ProjectionStatus::Applied => "applied",
            ProjectionStatus::IgnoredLate => "ignored_late",
            ProjectionStatus::Conflict => "conflict",
            ProjectionStatus::Failed => "failed",
        }
    }
}

/// Kind of an event appended to a tracked work session.
#[derive(Debug, Clone, Copy, PartialEq, Eq, Structural)]
pub enum EventKind {
    Capture,
    ProblemDraft,
    TaskCreated,
    TaskRevisionProposed,
    TaskTransitionProposed,
    ProblemResolutionProposed,
    SolutionDraft,
    WorkLogCheckpoint,
    ConflictProposal,
    CompletionProposal,
    WorkCompleted,
    KnowledgeDraftSaved,
    KnowledgePublishRequested,
    KnowledgePublished,
    WorkflowLink,
}

impl EventKind {
    /// The stored name of an event kind.
    pub open spec fn name(self) -> Seq<char> {
        match self {
            EventKind::Capture => "capture"@,
            EventKind::ProblemDraft => "problem_draft"@,
            EventKind::TaskCreated => "task_created"@,
            EventKind::TaskRevisionProposed => "task_revision_proposed"@,
            EventKind::TaskTransitionProposed => "task_transition_proposed"@,
            EventKind::ProblemResolutionProposed => "problem_resolution_proposed"@,
            EventKind::SolutionDraft => "solution_draft"@,
            EventKind::WorkLogCheckpoint => "work_log_checkpoint"@,
            EventKind::ConflictProposal => "conflict_proposal"@,
            EventKind::CompletionProposal => "completion_proposal"@,
            EventKind::WorkCompleted => "work_completed"@,
            EventKind::KnowledgeDraftSaved => "knowledge_draft_saved"@,
            EventKind::KnowledgePublishRequested => "knowledge_publish_requested"@,
            EventKind::KnowledgePublished => "knowledge_published"@,
            EventKind::WorkflowLink => "workflow_link"@,
        }
    }

    pub fn as_str(self) -> (name: &'static str)
        ensures
            name@ == self.name(),
    {
        match self {
            EventKind::Capture => "capture",
            EventKind::ProblemDraft => "problem_draft",
            EventKind::TaskCreated => "task_created",
            EventKind::TaskRevisionProposed => "task_revision_proposed",
            EventKind::TaskTransitionProposed => "task_transition_proposed",
            EventKind::ProblemResolutionProposed => "problem_resolution_proposed",
            EventKind::SolutionDraft => "solution_draft",
            EventKind::WorkLogCheckpoint => "work_log_checkpoint",
            EventKind::ConflictProposal => "conflict_proposal",
            EventKind::CompletionProposal => "completion_proposal",
            EventKind::WorkCompleted => "work_completed",
            EventKind::KnowledgeDraftSaved => "knowledge_draft_saved",
            EventKind::KnowledgePublishRequested => "knowledge_publish_requested",
            EventKind::KnowledgePublished => "knowledge_published",
            EventKind::WorkflowLink => "workflow_link",
        }
    }
}

/// Position of an event in its stream: time, then per-stream sequence, then identity.
#[derive(Debug, Clone)]
pub struct EventOrderKey {
    pub occurred_at: String,
    pub source_sequence: i64,
    pub event_id: String,
}

/// Lexicographic order of event keys, with strings compared byte by byte.
pub open spec fn order_key_le(a: EventOrderKey, b: EventOrderKey) -> bool {
    let ta = a.occurred_at@;
    let tb = b.occurred_at@;
    if ta != tb {
        bytes_le(crate::text::utf8(ta), crate::text::utf8(tb))
    } else if a.source_sequence != b.source_sequence {
        a.source_sequence < b.source_sequence
    } else {
        bytes_le(crate::text::utf8(a.event_id@), crate::text::utf8(b.event_id@))
    }
}

impl EventOrderKey {
    /// Whether this key sorts at or before `other`.
    pub fn le(&self, other: &EventOrderKey) -> (r: bool)
        ensures
            r == order_key_le(*self, *other),
    {
        if !text_eq(self.occurred_at.as_str(), other.occurred_at.as_str()) {
            text_le(self.occurred_at.as_str(), other.occurred_at.as_str())
        } else if self.source_sequence != other.source_sequence {
            self.source_sequence < other.source_sequence
        } else {
            text_le(self.event_id.as_str(), other.event_id.as_str())
        }
    }
}

/// Revisions reported with a head conflict.
#[derive(Debug, Clone)]
pub struct ConflictRevisions {
    pub session: i64,
    pub entity: Option<i64>,
    pub watermark: Option<i64>,
    pub projection: Option<i64>,
}

/// A stable, caller-actionable error.
#[derive(Debug, Clone)]
pub struct AppError {
    pub code: String,
    pub message: String,
    pub retryable: bool,
    pub current_revision: Option<i64>,
    pub conflicting_fields: Option<Vec<String>>,
    pub revisions: Option<Box<ConflictRevisions>>,
}

/// An error with the given code and message and no conflict details.
pub open spec fn plain_error(e: AppError, code: Seq<char>, message: Seq<char>) -> bool {
    &&& e.code@ == code
    &&& e.message@ == message
    &&& !e.retryable
    &&& e.current_revision is None
    &&& e.conflicting_fields is None
    &&& e.revisions is None
}

/// A head conflict at the given revision.
pub open spec fn head_conflict_error(e: AppError, message: Seq<char>, revision: i64) -> bool {
    &&& e.code@ == "head_conflict"@
    &&& e.message@ == message
    &&& !e.retryable
    &&& e.current_revision == Some(revision)
    &&& e.conflicting_fields matches Some(fields) && fields@.len() == 1 && fields@[0]@
        == "headRevision"@
    &&& e.revisions matches Some(r) && r.session == revision && r.entity is None
        && r.watermark is None && r.projection is None
}

/// The retryable storage failure.
pub open spec fn storage_failure(e: AppError) -> bool {
    &&& e.code@ == "storage_unavailable"@
    &&& e.message@ == "LLM Wiki storage is temporarily unavailable"@
    &&& e.retryable
    &&& e.current_revision is None
    &&& e.conflicting_fields is None
    &&& e.revisions is None
}

/// Why a request is refused: an error code and message, and for a head conflict the
/// revision the caller must refresh to.
pub type Denial = (Seq<char>, Seq<char>, Option<i64>);

/// Whether the error is the one the denial describes.
pub open spec fn denied(e: AppError, d: Denial) -> bool {
    match d.2 {
        None => plain_error(e, d.0, d.1),
        Some(revision) => d.0 == "head_conflict"@ && head_conflict_error(e, d.1, revision),
    }
}

/// A plain denial.
pub open spec fn deny(code: Seq<char>, message: Seq<char>) -> Denial {
    (code, message, None)
}

/// A head-conflict denial at `revision`.
pub open spec fn deny_head(message: Seq<char>, revision: i64) -> Denial {
    ("head_conflict"@, message, Some(revision))
}

/// Whether a result agrees with the expected outcome, errors compared by denial.
pub open spec fn outcome<T>(r: Result<T, AppError>, expected: Result<T, Denial>) -> bool {
    match expected {
        Ok(v) => r == Ok::<T, AppError>(v),
        Err(d) => r matches Err(e) && denied(e, d),
    }
}

impl AppError {
    pub fn new(code: &str, message: &str) -> (e: AppError)
        ensures
            plain_error(e, code@, message@),
    {
        AppError {
            code: code.to_owned(),
            message: message.to_owned(),
            retryable: false,
            current_revision: None,
            conflicting_fields: None,
            revisions: None,
        }
    }

    /// The retryable error reported when storage cannot be read or written.
    pub fn storage() -> (e: AppError)
        ensures
            storage_failure(e),
    {
        AppError {
            code: "storage_unavailable".to_owned(),
            message: "LLM Wiki storage is temporarily unavailable".to_owned(),
            retryable: true,
            current_revision: None,
            conflicting_fields: None,
            revisions: None,
        }
    }

    pub fn conflict(message: &str, revision: i64) -> (e: AppError)
        ensures
            head_conflict_error(e, message@, revision),
    {
        let mut fields: Vec<String> = Vec::new();
        fields.push("headRevision".to_owned());
        AppError {
            code: "head_conflict".to_owned(),
            message: message.to_owned(),
            retryable: false,
            current_revision: Some(revision),
            conflicting_fields: Some(fields),
            revisions: Some(
                Box::new(
                    ConflictRevisions {
                        session: revision,
                        entity: None,
                        watermark: None,
                        projection: None,
                    },
                ),
            ),
        }
    }
}

} // verus!
