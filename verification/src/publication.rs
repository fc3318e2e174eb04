//! Knowledge publication: the states a session's result passes through, what a session
//! offers next, and how a publication job settles.

use vstd::prelude::*;
use crate::review::refused;
use crate::text::text_eq;
use crate::work_state::{AppError, deny};

verus! {

/// Where a session's Knowledge publication stands.
#[derive(Debug, Clone, Copy, PartialEq, Eq, Structural)]
pub enum PublicationState {
    NotRequested,
    Offered,
    Deferred,
    Draft,
    Publishing,
    Published,
    Conflicted,
    Failed,
}

impl PublicationState {
    /// The stored name of a publication state.
    pub open spec fn name(self) -> Seq<char> {
        match self {
            PublicationState::NotRequested => "not_requested"@,
            PublicationState::Offered => "offered"@,
            PublicationState::Deferred => "deferred"@,
            PublicationState::Draft => "draft"@,
            PublicationState::Publishing => "publishing"@,
            PublicationState::Published => "published"@,
            PublicationState::Conflicted => "conflicted"@,
            PublicationState::Failed => "failed"@,
        }
    }

    pub fn as_str(self) -> (name: &'static str)
        ensures
            name@ == self.name(),
    {
        match self {
            PublicationState::NotRequested => "not_requested",
            PublicationState::Offered => "offered",
            PublicationState::Deferred => "deferred",
            PublicationState::Draft => "draft",
            PublicationState::Publishing => "publishing",
            PublicationState::Published => "published",
            PublicationState::Conflicted => "conflicted",
            PublicationState::Failed => "failed",
        }
    }
}

/// What a session view shows about the Task it binds.
#[derive(Debug, Clone)]
pub struct BoundTask {
    /// The Task's lifecycle state.
    pub state: String,
    /// The Task has a completion for its current revision and is completed.
    pub completed: bool,
    /// The state of the Task's latest Knowledge draft, if it has one.
    pub draft_state: Option<String>,
}

/// The publication state a session shows. A bound Task decides it from its completion and
/// its latest draft; without one, the session's own stored state stands.
pub open spec fn shown_publication(task: Option<BoundTask>, stored: Seq<char>) -> Seq<char> {
    match task {
        None => stored,
        Some(t) => {
            let draft = match t.draft_state {
                Some(d) => d@,
                None => Seq::empty(),
            };
            if draft == "draft"@ && t.draft_state is Some {
                "draft_saved"@
            } else if draft == "published"@ && t.draft_state is Some {
                "published"@
            } else if draft == "withdrawn"@ && t.draft_state is Some {
                "deferred"@
            } else if stored == "deferred"@ {
                "deferred"@
            } else if t.completed {
                "offered"@
            } else {
                "not_requested"@
            }
        },
    }
}

/// What a session offers to do next.
pub open spec fn next_actions_of(task: Option<BoundTask>, session_state: Seq<char>, publication: Seq<char>) -> Seq<Seq<char>> {
    match task {
        Some(t) => if t.completed && publication == "offered"@ {
            seq!["offer_knowledge_publication"@, "reopen_task"@]
        } else if t.completed && publication == "draft_saved"@ {
            seq!["review_knowledge_draft"@, "reopen_task"@]
        } else if t.completed && publication == "published"@ {
            seq!["review_publication_withdrawal"@, "reopen_task"@]
        } else if t.completed {
            seq!["reopen_task"@]
        } else if t.state@ == "task"@ {
            seq!["transition_task"@, "accept_checkpoint"@]
        } else if publication == "published"@ {
            seq!["review_publication_withdrawal"@]
        } else {
            seq!["accept_checkpoint"@, "complete_task"@]
        },
        None => if session_state == "completed"@ {
            Seq::empty()
        } else {
            seq!["create_task"@]
        },
    }
}

/// The publication state and next actions of a session view.
pub struct SessionOutlook {
    pub publication_state: String,
    pub next_actions: Vec<String>,
}

/// The texts of a list of strings.
pub open spec fn texts(v: Seq<String>) -> Seq<Seq<char>> {
    Seq::new(v.len(), |i: int| v[i]@)
}

fn list1(a: &str) -> (r: Vec<String>)
    ensures
        texts(r@) == seq![a@],
{
    let mut v: Vec<String> = Vec::new();
    v.push(a.to_owned());
    assert(texts(v@) =~= seq![a@]);
    v
}

fn list2(a: &str, b: &str) -> (r: Vec<String>)
    ensures
        texts(r@) == seq![a@, b@],
{
    let mut v: Vec<String> = Vec::new();
    v.push(a.to_owned());
    v.push(b.to_owned());
    assert(texts(v@) =~= seq![a@, b@]);
    v
}

/// Derives what a session view shows about publication and what it offers next.
pub fn session_outlook(task: Option<&BoundTask>, session_state: &str, stored_publication: &str) -> (r: SessionOutlook)
    ensures
        r.publication_state@ == shown_publication(
            match task {
                Some(t) => Some(*t),
                None => None,
            },
            stored_publication@,
        ),
        texts(r.next_actions@) == next_actions_of(
            match task {
                Some(t) => Some(*t),
                None => None,
            },
            session_state@,
            r.publication_state@,
        ),
{
    let publication: String = match task {
        None => stored_publication.to_owned(),
        Some(t) => {
            let shown = match &t.draft_state {
                Some(d) if text_eq(d.as_str(), "draft") => "draft_saved",
                Some(d) if text_eq(d.as_str(), "published") => "published",
                Some(d) if text_eq(d.as_str(), "withdrawn") => "deferred",
                _ => {
                    if text_eq(stored_publication, "deferred") {
                        "deferred"
                    } else if t.completed {
                        "offered"
                    } else {
                        "not_requested"
                    }
                },
            };
            shown.to_owned()
        },
    };
    let p = publication.as_str();
    let next = match task {
        Some(t) => {
            if t.completed && text_eq(p, "offered") {
                list2("offer_knowledge_publication", "reopen_task")
            } else if t.completed && text_eq(p, "draft_saved") {
                list2("review_knowledge_draft", "reopen_task")
            } else if t.completed && text_eq(p, "published") {
                list2("review_publication_withdrawal", "reopen_task")
            } else if t.completed {
                list1("reopen_task")
            } else if text_eq(t.state.as_str(), "task") {
                list2("transition_task", "accept_checkpoint")
            } else if text_eq(p, "published") {
                list1("review_publication_withdrawal")
            } else {
                list2("accept_checkpoint", "complete_task")
            }
        },
        None => {
            if text_eq(session_state, "completed") {
                let v: Vec<String> = Vec::new();
                assert(texts(v@) =~= Seq::<Seq<char>>::empty());
                v
            } else {
                list1("create_task")
            }
        },
    };
    SessionOutlook { publication_state: publication, next_actions: next }
}

/// A completed bound Task always offers, last, to reopen it.
pub proof fn completed_tasks_offer_reopening(task: BoundTask, session_state: Seq<char>, stored: Seq<char>)
    requires
        task.completed,
    ensures
        next_actions_of(Some(task), session_state, shown_publication(Some(task), stored)).last()
            == "reopen_task"@,
{
}

/// A bound Task that is in progress (neither completed nor still a bare task) and whose
/// Knowledge is not published is offered both a checkpoint and completion; a bare task
/// is offered its transition.
pub proof fn tasks_in_progress_offer_completion(task: BoundTask, session_state: Seq<char>, stored: Seq<char>)
    requires
        !task.completed,
    ensures
        task.state@ != "task"@ && shown_publication(Some(task), stored) != "published"@ ==> {
            let a = next_actions_of(Some(task), session_state, shown_publication(Some(task), stored));
            a.contains("complete_task"@) && a.contains("accept_checkpoint"@)
        },
        task.state@ == "task"@ ==> next_actions_of(Some(task), session_state, shown_publication(Some(task), stored)).contains("transition_task"@),
{
    let p = shown_publication(Some(task), stored);
    let a = next_actions_of(Some(task), session_state, p);
    if task.state@ != "task"@ && p != "published"@ {
        assert(a[0] == "accept_checkpoint"@);
        assert(a[1] == "complete_task"@);
    }
    if task.state@ == "task"@ {
        assert(a[0] == "transition_task"@);
    }
}

/// The state of a publication job after one more attempt. The stored attempt count is the
/// one before this attempt.
pub open spec fn job_after(attempts: int, failed: bool) -> Seq<char> {
    if !failed {
        "complete"@
    } else if attempts >= 4 {
        "failed"@
    } else {
        "pending"@
    }
}

/// Settles one attempt of a publication job: a success completes it; a failure leaves it
/// pending for another attempt until its fifth attempt, which fails it.
pub fn publication_job_result(attempts: i64, error: Option<&str>) -> (r: (i64, &'static str))
    requires
        attempts < i64::MAX,
    ensures
        r.0 == attempts + 1,
        r.1@ == job_after(attempts as int, error is Some),
{
    let state = match error {
        None => "complete",
        Some(_) => if attempts >= 4 {
            "failed"
        } else {
            "pending"
        },
    };
    (attempts + 1, state)
}

/// A job that keeps failing is retried, and fails for good at its fifth attempt.
pub proof fn failing_jobs_stop_after_five_attempts(attempts: int)
    requires
        0 <= attempts,
    ensures
        attempts < 4 ==> job_after(attempts, true) == "pending"@,
        attempts >= 4 ==> job_after(attempts, true) == "failed"@,
        job_after(attempts, false) == "complete"@,
{
}

/// A session's stored publication facts, as deferral reads them.
#[derive(Debug, Clone)]
pub struct PublicationRow {
    pub state: String,
    pub publication_state: String,
    pub offer_revision: Option<i64>,
}

/// Whether publication of a completed session may be deferred.
pub open spec fn deferrable(row: Option<PublicationRow>, completion_revision: i64) -> bool {
    row matches Some(r) && r.state@ == "completed"@ && r.offer_revision == Some(completion_revision)
        && (r.publication_state@ == "offered"@ || r.publication_state@ == "deferred"@)
}

/// Defers publication of a visible completed session whose offer is still the one the
/// caller saw; otherwise the caller must refresh.
pub fn defer_publication_check(row: Option<&PublicationRow>, completion_revision: i64) -> (r: Result<(), AppError>)
    ensures
        refused(
            r,
            if deferrable(
                match row {
                    Some(x) => Some(*x),
                    None => None,
                },
                completion_revision,
            ) {
                None
            } else {
                Some(deny("head_conflict"@, "Completion or publication state changed; refresh first"@))
            },
        ),
{
    let ok = match row {
        Some(x) => text_eq(x.state.as_str(), "completed") && x.offer_revision == Some(
            completion_revision,
        ) && (text_eq(x.publication_state.as_str(), "offered") || text_eq(
            x.publication_state.as_str(),
            "deferred",
        )),
        None => false,
    };
    if ok {
        Ok(())
    } else {
        Err(AppError::new("head_conflict", "Completion or publication state changed; refresh first"))
    }
}

} // verus!
