//! The workflow projection: claiming queued events, ordering them per stream, and the
//! state each projected event settles in.

use vstd::prelude::*;
use crate::review::{text_before, text_lt};
use crate::text::text_eq;
use crate::work_state::{AppError, Denial, EventOrderKey, ProjectionStatus, deny, order_key_le, outcome};

verus! {

/// How many attempts a projection job gets.
pub const MAX_PROJECTION_ATTEMPTS: i64 = 5;

/// A projection job row, as the projector reads it.
#[derive(Debug, Clone)]
pub struct ProjectionJob {
    pub state: String,
    pub attempts: i64,
    pub lease_expires_at: Option<String>,
    pub next_attempt_at: Option<String>,
}

/// What the projector does with a job at time `now`.
#[derive(Debug, Clone, Copy, PartialEq, Eq, Structural)]
pub enum JobAction {
    /// A lapsed claim with no attempts left fails for good.
    Exhaust,
    /// The job is claimed for another attempt.
    Claim,
    /// The job is left alone.
    Skip,
}

/// Whether a lease lapsed before `now`; a claim without a lease time never lapses.
pub open spec fn lapsed(lease: Option<String>, now: Seq<char>) -> bool {
    lease matches Some(l) && text_lt(l@, now)
}

/// The action on a job at `now`.
pub open spec fn job_action(job: ProjectionJob, now: Seq<char>) -> JobAction {
    let claimed = job.state@ == "claimed"@;
    if claimed && lapsed(job.lease_expires_at, now) && job.attempts >= MAX_PROJECTION_ATTEMPTS {
        JobAction::Exhaust
    } else if (job.state@ == "pending"@ || (claimed && lapsed(job.lease_expires_at, now)))
        && job.attempts < MAX_PROJECTION_ATTEMPTS && match job.next_attempt_at {
        None => true,
        Some(t) => !text_lt(now, t@),
    } {
        JobAction::Claim
    } else {
        JobAction::Skip
    }
}

fn lease_lapsed(lease: &Option<String>, now: &str) -> (r: bool)
    ensures
        r == lapsed(*lease, now@),
{
    match lease {
        Some(l) => text_before(l.as_str(), now),
        None => false,
    }
}

/// Decides whether a queued job is claimed, exhausted, or left for later.
pub fn job_action_at(job: &ProjectionJob, now: &str) -> (r: JobAction)
    ensures
        r == job_action(*job, now@),
{
    let claimed = text_eq(job.state.as_str(), "claimed");
    let lapsed = lease_lapsed(&job.lease_expires_at, now);
    if claimed && lapsed && job.attempts >= MAX_PROJECTION_ATTEMPTS {
        return JobAction::Exhaust;
    }
    let due = match &job.next_attempt_at {
        None => true,
        Some(t) => !text_before(now, t.as_str()),
    };
    if (text_eq(job.state.as_str(), "pending") || (claimed && lapsed)) && job.attempts
        < MAX_PROJECTION_ATTEMPTS && due {
        JobAction::Claim
    } else {
        JobAction::Skip
    }
}

/// A job that has used all its attempts is never claimed again.
pub proof fn exhausted_jobs_are_never_claimed(job: ProjectionJob, now: Seq<char>)
    requires
        job.attempts >= MAX_PROJECTION_ATTEMPTS,
    ensures
        job_action(job, now) != JobAction::Claim,
{
}

/// A claim whose lease lapsed before `now` is taken back: with attempts left and no
/// later retry time it is claimed again, and with five attempts used it is exhausted.
pub proof fn lapsed_claims_are_retried_or_exhausted(job: ProjectionJob, now: Seq<char>)
    requires
        job.state@ == "claimed"@,
        job.lease_expires_at matches Some(l) && text_lt(l@, now),
    ensures
        job.attempts >= 5 ==> job_action(job, now) == JobAction::Exhaust,
        job.attempts < 5 && (job.next_attempt_at matches Some(t) ==> !text_lt(now, t@))
            ==> job_action(job, now) == JobAction::Claim,
{
}

/// A pending job with attempts left and no later retry time is claimed.
pub proof fn due_pending_jobs_are_claimed(job: ProjectionJob, now: Seq<char>)
    requires
        job.state@ == "pending"@,
        job.attempts < 5,
        job.next_attempt_at matches Some(t) ==> !text_lt(now, t@),
    ensures
        job_action(job, now) == JobAction::Claim,
{
}

/// No job is stuck: a job left alone is held by a lease that has not lapsed, waits for a
/// later retry time, has used its five attempts, or is neither pending nor claimed.
pub proof fn skipped_jobs_are_held(job: ProjectionJob, now: Seq<char>)
    requires
        job_action(job, now) == JobAction::Skip,
    ensures
        ({
            ||| !(job.state@ == "pending"@ || job.state@ == "claimed"@)
            ||| (job.state@ == "claimed"@ && !(job.lease_expires_at matches Some(l) && text_lt(l@, now)))
            ||| (job.next_attempt_at matches Some(t) && text_lt(now, t@))
            ||| job.attempts >= 5
        }),
{
}

/// What the projector knows about one claimed event.
#[derive(Debug, Clone)]
pub struct ProjectedEvent {
    /// The event's kind, as stored.
    pub kind: String,
    /// Its position in its stream.
    pub key: EventOrderKey,
    /// A Work Log checkpoint that was already ordered while it waited for a Task.
    pub already_ordered: bool,
    /// How many accepting decisions the event has.
    pub accepted_decisions: i64,
    /// The session has adopted a Task.
    pub task_linked: bool,
}

/// Where an event settles and whether its stream's watermark moves to it.
#[derive(Debug, Clone, Copy, PartialEq, Eq, Structural)]
pub struct Settlement {
    pub state: ProjectionStatus,
    /// A Work Log entry is created for the adopted Task.
    pub records_progress: bool,
    /// The stream watermark moves to this event.
    pub advances_watermark: bool,
}

/// Where a projected event settles, given its stream's watermark.
pub open spec fn settlement(e: ProjectedEvent, watermark: Option<EventOrderKey>) -> Settlement {
    let late = !e.already_ordered && match watermark {
        Some(w) => order_key_le(e.key, w),
        None => false,
    };
    let checkpoint = e.kind@ == "work_log_checkpoint"@;
    let state = if late {
        ProjectionStatus::IgnoredLate
    } else if e.kind@ != "capture"@ && e.accepted_decisions == 0 {
        ProjectionStatus::Conflict
    } else if checkpoint && !e.task_linked {
        ProjectionStatus::WaitingSolution
    } else {
        ProjectionStatus::Applied
    };
    Settlement {
        state,
        records_progress: state == ProjectionStatus::Applied && checkpoint,
        advances_watermark: !e.already_ordered && (state == ProjectionStatus::Applied || state
            == ProjectionStatus::WaitingSolution),
    }
}

/// Settles a claimed event: a late event is ignored, an unaccepted proposal is a
/// conflict, a checkpoint waits for a Task, and everything else is applied.
pub fn settle_event(e: &ProjectedEvent, watermark: Option<&EventOrderKey>) -> (r: Settlement)
    ensures
        r == settlement(
            *e,
            match watermark {
                Some(w) => Some(*w),
                None => None,
            },
        ),
{
    let late = !e.already_ordered && match watermark {
        Some(w) => e.key.le(w),
        None => false,
    };
    let checkpoint = text_eq(e.kind.as_str(), "work_log_checkpoint");
    let state = if late {
        ProjectionStatus::IgnoredLate
    } else if !text_eq(e.kind.as_str(), "capture") && e.accepted_decisions == 0 {
        ProjectionStatus::Conflict
    } else if checkpoint && !e.task_linked {
        ProjectionStatus::WaitingSolution
    } else {
        ProjectionStatus::Applied
    };
    let applied = match state {
        ProjectionStatus::Applied => true,
        _ => false,
    };
    let waiting = match state {
        ProjectionStatus::WaitingSolution => true,
        _ => false,
    };
    Settlement {
        state,
        records_progress: applied && checkpoint,
        advances_watermark: !e.already_ordered && (applied || waiting),
    }
}

/// Byte order of text is total.
proof fn bytes_le_total(a: Seq<u8>, b: Seq<u8>, i: int)
    requires
        0 <= i,
    ensures
        crate::text::lex_le_at(a, b, i) || crate::text::lex_le_at(b, a, i),
    decreases a.len() - i,
{
    if i < a.len() && i < b.len() && a[i] == b[i] {
        bytes_le_total(a, b, i + 1);
    }
}

/// The order of event keys is total.
pub proof fn order_keys_are_total(a: EventOrderKey, b: EventOrderKey)
    ensures
        order_key_le(a, b) || order_key_le(b, a),
{
    bytes_le_total(crate::text::utf8(a.occurred_at@), crate::text::utf8(b.occurred_at@), 0);
    bytes_le_total(crate::text::utf8(a.event_id@), crate::text::utf8(b.event_id@), 0);
}

/// A stream's watermark never moves backwards: when an event advances it past an
/// existing watermark, the event sorts strictly after it, and late events are never
/// applied.
pub proof fn watermarks_only_move_forward(e: ProjectedEvent, w: EventOrderKey)
    requires
        !e.already_ordered,
    ensures
        settlement(e, Some(w)).advances_watermark ==> order_key_le(w, e.key) && !order_key_le(e.key, w),
        order_key_le(e.key, w) ==> settlement(e, Some(w)).state == ProjectionStatus::IgnoredLate,
{
    order_keys_are_total(e.key, w);
}

/// The effect of a human decision on a work event.
pub open spec fn decision_effect(decision: Seq<char>) -> Result<bool, Denial> {
    if decision == "accepted"@ || decision == "accepted_with_edits"@ {
        Ok(true)
    } else if decision == "rejected"@ {
        Ok(false)
    } else {
        Err(deny("invalid_input"@, "Unsupported decision"@))
    }
}

/// Reads a decision on a work event: whether it accepts the event (whose projection is
/// then queued again) or rejects it (whose projection becomes a conflict).
pub fn decision_accepts(decision: &str) -> (r: Result<bool, AppError>)
    ensures
        outcome(r, decision_effect(decision@)),
{
    if text_eq(decision, "accepted") || text_eq(decision, "accepted_with_edits") {
        Ok(true)
    } else if text_eq(decision, "rejected") {
        Ok(false)
    } else {
        Err(AppError::new("invalid_input", "Unsupported decision"))
    }
}

/// A bounded drain of the projection queue: events are projected one at a time until
/// the limit is reached or no job is left to claim.
pub struct ProjectionDrain {
    limit: usize,
    processed: usize,
    exhausted: bool,
}

impl ProjectionDrain {
    #[verifier::type_invariant]
    spec fn within_limit(self) -> bool {
        self.processed <= self.limit
    }

    /// The most events this drain projects.
    pub closed spec fn limit_of(self) -> nat {
        self.limit as nat
    }

    /// How many events were projected so far.
    pub closed spec fn count(self) -> nat {
        self.processed as nat
    }

    /// The queue had no job left to claim.
    pub closed spec fn is_exhausted(self) -> bool {
        self.exhausted
    }

    /// Starts a drain that projects at most `limit` events.
    pub fn new(limit: usize) -> (d: Self)
        ensures
            d.limit_of() == limit,
            d.count() == 0,
            !d.is_exhausted(),
    {
        ProjectionDrain { limit, processed: 0, exhausted: false }
    }

    /// Whether another event should be projected: the limit is not reached and the
    /// queue still had a job the last time.
    pub fn wants_more(&self) -> (r: bool)
        ensures
            r == (!self.is_exhausted() && self.count() < self.limit_of()),
    {
        !self.exhausted && self.processed < self.limit
    }

    /// Records one projection attempt: `projected` when an event was projected, false
    /// when no job was left, which ends the drain.
    pub fn record(&mut self, projected: bool)
        requires
            !old(self).is_exhausted(),
            old(self).count() < old(self).limit_of(),
        ensures
            final(self).limit_of() == old(self).limit_of(),
            final(self).count() == old(self).count() + (if projected { 1nat } else { 0nat }),
            final(self).is_exhausted() == !projected,
    {
        if projected {
            self.processed = self.processed + 1;
        } else {
            self.exhausted = true;
        }
    }

    /// How many events were projected: never more than the limit.
    pub fn processed(&self) -> (n: usize)
        ensures
            n == self.count(),
            n <= self.limit_of(),
    {
        proof {
            use_type_invariant(self);
        }
        self.processed
    }
}

} // verus!
