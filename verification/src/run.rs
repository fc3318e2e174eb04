//! Execution runs of a Task work session: their lifecycle, recovery after a restart or a
//! lost provider connection, and the structured requests a run may wait on.

use vstd::prelude::*;
use crate::redact::{safe_text, safe_view};
use crate::text::{opt_str, text_eq, trim, trimmed, utf8};

verus! {

/// Where an execution run stands.
#[derive(Debug, Clone, Copy, PartialEq, Eq, Structural)]
pub enum RunStatus {
    Queued,
    Running,
    AwaitingResponse,
    Succeeded,
    Failed,
    Cancelled,
    Interrupted,
    NeedsAttention,
}

impl RunStatus {
    /// A run that has not ended.
    pub open spec fn active(self) -> bool {
        self == RunStatus::Queued || self == RunStatus::Running || self
            == RunStatus::AwaitingResponse
    }

    /// Whether the run has not ended.
    pub fn is_active(self) -> (r: bool)
        ensures
            r == self.active(),
    {
        match self {
            RunStatus::Queued | RunStatus::Running | RunStatus::AwaitingResponse => true,
            _ => false,
        }
    }

    /// The stored name of a run status.
    pub open spec fn name(self) -> Seq<char> {
        match self {
            RunStatus::Queued => "queued"@,
            RunStatus::Running => "running"@,
            RunStatus::AwaitingResponse => "awaiting_response"@,
            RunStatus::Succeeded => "succeeded"@,
            RunStatus::Failed => "failed"@,
            RunStatus::Cancelled => "cancelled"@,
            RunStatus::Interrupted => "interrupted"@,
            RunStatus::NeedsAttention => "needs_attention"@,
        }
    }

    pub fn as_str(self) -> (r: &'static str)
        ensures
            r@ == self.name(),
    {
        match self {
            RunStatus::Queued => "queued",
            RunStatus::Running => "running",
            RunStatus::AwaitingResponse => "awaiting_response",
            RunStatus::Succeeded => "succeeded",
            RunStatus::Failed => "failed",
            RunStatus::Cancelled => "cancelled",
            RunStatus::Interrupted => "interrupted",
            RunStatus::NeedsAttention => "needs_attention",
        }
    }
}

/// How far a run's dispatch to the provider got.
#[derive(Debug, Clone, Copy, PartialEq, Eq, Structural)]
pub enum DispatchState {
    /// Nothing was sent.
    NotDispatched,
    /// The dispatch was recorded before it was sent.
    DispatchRecorded,
    /// It may or may not have reached the provider.
    Uncertain,
    /// The provider accepted the turn.
    Accepted,
}

/// Why a run ended without a result.
#[derive(Debug, Clone, Copy, PartialEq, Eq, Structural)]
pub enum RunError {
    ExecutionServiceRestarted,
    ProviderConnectionLost,
    UncertainDispatch,
    TurnFailed,
}

/// The lifecycle columns of a run.
#[derive(Debug, Clone, Copy, PartialEq, Eq, Structural)]
pub struct RunState {
    pub status: RunStatus,
    pub dispatch: DispatchState,
    pub error: Option<RunError>,
    pub stop_requested: bool,
    pub revision: u64,
}

/// What the provider reported when a turn finished.
#[derive(Debug, Clone, Copy, PartialEq, Eq, Structural)]
pub enum TurnOutcome {
    Completed,
    Interrupted,
    Cancelled,
    Other,
}

/// Something that happens to a run.
#[derive(Debug, Clone, Copy, PartialEq, Eq, Structural)]
pub enum RunEvent {
    /// The dispatch is recorded just before the turn is sent.
    DispatchRecorded,
    /// Sending the turn failed in a way that leaves its fate unknown.
    DispatchUncertain,
    /// The provider accepted the turn.
    TurnAccepted,
    /// The provider asked a blocking structured question.
    BlockingRequest,
    /// The last blocking question of a waiting run was answered.
    RequestsSettled,
    /// The provider finished the turn.
    TurnFinished(TurnOutcome),
    /// The user asked to stop the run.
    StopRequested,
    /// The execution service restarted with the run unfinished.
    ServiceRestarted,
    /// The provider connection ended with the run unfinished.
    ConnectionLost,
}

/// The status an interrupted run is left in: a dispatch that may have reached the provider
/// needs a person's attention; one that did not is merely interrupted.
pub open spec fn halted_status(dispatch: DispatchState) -> RunStatus {
    if dispatch == DispatchState::NotDispatched {
        RunStatus::Interrupted
    } else {
        RunStatus::NeedsAttention
    }
}

/// The dispatch state after a halt: a recorded dispatch becomes uncertain.
pub open spec fn halted_dispatch(dispatch: DispatchState) -> DispatchState {
    if dispatch == DispatchState::DispatchRecorded {
        DispatchState::Uncertain
    } else {
        dispatch
    }
}

/// The status a finished turn leaves its run in.
pub open spec fn finished_status(outcome: TurnOutcome) -> RunStatus {
    match outcome {
        TurnOutcome::Completed => RunStatus::Succeeded,
        TurnOutcome::Interrupted | TurnOutcome::Cancelled => RunStatus::Cancelled,
        TurnOutcome::Other => RunStatus::Failed,
    }
}

/// The run after an event, or None when the event does not apply to the run as it is.
/// Every change bumps the revision.
pub open spec fn run_after(s: RunState, e: RunEvent) -> Option<RunState> {
    let bumped = (s.revision + 1) as u64;
    match e {
        RunEvent::DispatchRecorded => if s.status == RunStatus::Queued {
            Some(RunState { status: RunStatus::Running, dispatch: DispatchState::DispatchRecorded, revision: bumped, ..s })
        } else {
            None
        },
        RunEvent::DispatchUncertain => if s.status == RunStatus::Queued || s.status == RunStatus::Running {
            Some(
                RunState {
                    status: RunStatus::NeedsAttention,
                    dispatch: DispatchState::Uncertain,
                    error: Some(RunError::UncertainDispatch),
                    revision: bumped,
                    ..s
                },
            )
        } else {
            None
        },
        RunEvent::TurnAccepted => if s.status == RunStatus::Queued || s.status == RunStatus::Running {
            Some(RunState { status: RunStatus::Running, dispatch: DispatchState::Accepted, revision: bumped, ..s })
        } else {
            None
        },
        RunEvent::BlockingRequest => if s.status == RunStatus::Running {
            Some(RunState { status: RunStatus::AwaitingResponse, revision: bumped, ..s })
        } else {
            None
        },
        RunEvent::RequestsSettled => if s.status == RunStatus::AwaitingResponse {
            Some(RunState { status: RunStatus::Running, revision: bumped, ..s })
        } else {
            None
        },
        RunEvent::TurnFinished(o) => if s.status.active() {
            let status = finished_status(o);
            Some(
                RunState {
                    status,
                    error: if status == RunStatus::Failed {
                        Some(RunError::TurnFailed)
                    } else {
                        s.error
                    },
                    revision: bumped,
                    ..s
                },
            )
        } else {
            None
        },
        RunEvent::StopRequested => if s.status == RunStatus::Running || s.status
            == RunStatus::AwaitingResponse {
            Some(RunState { stop_requested: true, revision: bumped, ..s })
        } else {
            None
        },
        RunEvent::ServiceRestarted | RunEvent::ConnectionLost => if s.status.active() {
            Some(
                RunState {
                    status: halted_status(s.dispatch),
                    dispatch: halted_dispatch(s.dispatch),
                    error: Some(
                        if e == RunEvent::ServiceRestarted {
                            RunError::ExecutionServiceRestarted
                        } else {
                            RunError::ProviderConnectionLost
                        },
                    ),
                    revision: bumped,
                    ..s
                },
            )
        } else {
            None
        },
    }
}

/// Applies an event to a run; None means the event found the run in a state it does not
/// apply to, and the run is unchanged.
pub fn advance_run(s: RunState, e: RunEvent) -> (r: Option<RunState>)
    requires
        s.revision < u64::MAX,
    ensures
        r == run_after(s, e),
{
    let bumped = s.revision + 1;
    let active = s.status.is_active();
    match e {
        RunEvent::DispatchRecorded => match s.status {
            RunStatus::Queued => Some(
                RunState {
                    status: RunStatus::Running,
                    dispatch: DispatchState::DispatchRecorded,
                    revision: bumped,
                    ..s
                },
            ),
            _ => None,
        },
        RunEvent::DispatchUncertain => match s.status {
            RunStatus::Queued | RunStatus::Running => Some(
                RunState {
                    status: RunStatus::NeedsAttention,
                    dispatch: DispatchState::Uncertain,
                    error: Some(RunError::UncertainDispatch),
                    revision: bumped,
                    ..s
                },
            ),
            _ => None,
        },
        RunEvent::TurnAccepted => match s.status {
            RunStatus::Queued | RunStatus::Running => Some(
                RunState {
                    status: RunStatus::Running,
                    dispatch: DispatchState::Accepted,
                    revision: bumped,
                    ..s
                },
            ),
            _ => None,
        },
        RunEvent::BlockingRequest => match s.status {
            RunStatus::Running => Some(
                RunState { status: RunStatus::AwaitingResponse, revision: bumped, ..s },
            ),
            _ => None,
        },
        RunEvent::RequestsSettled => match s.status {
            RunStatus::AwaitingResponse => Some(
                RunState { status: RunStatus::Running, revision: bumped, ..s },
            ),
            _ => None,
        },
        RunEvent::TurnFinished(o) => {
            if !active {
                return None;
            }
            let status = match o {
                TurnOutcome::Completed => RunStatus::Succeeded,
                TurnOutcome::Interrupted | TurnOutcome::Cancelled => RunStatus::Cancelled,
                TurnOutcome::Other => RunStatus::Failed,
            };
            let error = match status {
                RunStatus::Failed => Some(RunError::TurnFailed),
                _ => s.error,
            };
            Some(RunState { status, error, revision: bumped, ..s })
        },
        RunEvent::StopRequested => match s.status {
            RunStatus::Running | RunStatus::AwaitingResponse => Some(
                RunState { stop_requested: true, revision: bumped, ..s },
            ),
            _ => None,
        },
        RunEvent::ServiceRestarted | RunEvent::ConnectionLost => {
            if !active {
                return None;
            }
            let status = match s.dispatch {
                DispatchState::NotDispatched => RunStatus::Interrupted,
                _ => RunStatus::NeedsAttention,
            };
            let dispatch = match s.dispatch {
                DispatchState::DispatchRecorded => DispatchState::Uncertain,
                d => d,
            };
            let error = match e {
                RunEvent::ServiceRestarted => RunError::ExecutionServiceRestarted,
                _ => RunError::ProviderConnectionLost,
            };
            Some(RunState { status, dispatch, error: Some(error), revision: bumped, ..s })
        },
    }
}

/// Reads the provider's turn status.
pub fn turn_outcome(status: Option<&str>) -> (r: TurnOutcome)
    ensures
        r == (match status {
            Some(s) => if s@ == "completed"@ {
                TurnOutcome::Completed
            } else if s@ == "interrupted"@ {
                TurnOutcome::Interrupted
            } else if s@ == "cancelled"@ {
                TurnOutcome::Cancelled
            } else {
                TurnOutcome::Other
            },
            None => TurnOutcome::Other,
        }),
{
    match status {
        Some(s) => {
            if text_eq(s, "completed") {
                TurnOutcome::Completed
            } else if text_eq(s, "interrupted") {
                TurnOutcome::Interrupted
            } else if text_eq(s, "cancelled") {
                TurnOutcome::Cancelled
            } else {
                TurnOutcome::Other
            }
        },
        None => TurnOutcome::Other,
    }
}

/// A run that has ended stays ended: no event changes it.
pub proof fn ended_runs_never_change(s: RunState, e: RunEvent)
    requires
        !s.status.active(),
    ensures
        run_after(s, e) is None,
{
}

/// A restart or a lost connection never leaves a run going, so nothing is run twice; a
/// run whose dispatch may have reached the provider is left for a person to look at.
pub proof fn halts_never_rerun(s: RunState, e: RunEvent)
    requires
        e == RunEvent::ServiceRestarted || e == RunEvent::ConnectionLost,
        run_after(s, e) is Some,
    ensures
        !run_after(s, e)->Some_0.status.active(),
        s.dispatch != DispatchState::NotDispatched ==> run_after(s, e)->Some_0.status
            == RunStatus::NeedsAttention,
        run_after(s, e)->Some_0.dispatch != DispatchState::DispatchRecorded,
{
}

/// Every change to a run bumps its revision by exactly one.
pub proof fn changes_bump_the_revision(s: RunState, e: RunEvent)
    requires
        s.revision < u64::MAX,
        run_after(s, e) is Some,
    ensures
        run_after(s, e)->Some_0.revision == s.revision + 1,
{
}

/// How many runs have not ended.
pub open spec fn active_count(runs: Seq<RunState>) -> nat
    decreases runs.len(),
{
    if runs.len() == 0 {
        0
    } else {
        active_count(runs.drop_last()) + if runs.last().status.active() { 1nat } else { 0nat }
    }
}

/// A run as a halt leaves it: an unfinished run is halted, an ended one is unchanged.
pub open spec fn halted_run(s: RunState, e: RunEvent) -> RunState {
    if s.status.active() {
        run_after(s, e)->Some_0
    } else {
        s
    }
}

proof fn active_count_step(runs: Seq<RunState>, i: int, e: RunEvent)
    requires
        0 <= i < runs.len(),
        e == RunEvent::ServiceRestarted || e == RunEvent::ConnectionLost,
    ensures
        active_count(runs.take(i + 1)) == active_count(runs.take(i)) + if runs[i].status.active() { 1nat } else { 0nat },
{
    assert(runs.take(i + 1).drop_last() =~= runs.take(i));
}

/// Recovers every run after a restart or a lost connection: each unfinished run is
/// halted as `run_after` says, every other run is unchanged, no run is added, and the
/// number of runs halted is returned. Afterwards no run is unfinished.
pub fn halt_unfinished_runs(runs: &mut Vec<RunState>, e: RunEvent) -> (n: usize)
    requires
        e == RunEvent::ServiceRestarted || e == RunEvent::ConnectionLost,
        forall|i: int| 0 <= i < old(runs)@.len() ==> (#[trigger] old(runs)@[i]).revision < u64::MAX,
    ensures
        final(runs)@.len() == old(runs)@.len(),
        forall|i: int| 0 <= i < old(runs)@.len() ==> #[trigger] final(runs)@[i] == halted_run(old(runs)@[i], e),
        forall|i: int| 0 <= i < final(runs)@.len() ==> !(#[trigger] final(runs)@[i]).status.active(),
        n == active_count(old(runs)@),
{
    let ghost before = runs@;
    let mut n: usize = 0;
    let mut i: usize = 0;
    while i < runs.len()
        invariant
            e == RunEvent::ServiceRestarted || e == RunEvent::ConnectionLost,
            runs@.len() == before.len(),
            i <= before.len(),
            forall|k: int| 0 <= k < before.len() ==> (#[trigger] before[k]).revision < u64::MAX,
            forall|k: int| 0 <= k < i ==> #[trigger] runs@[k] == halted_run(before[k], e),
            forall|k: int| i <= k < before.len() ==> #[trigger] runs@[k] == before[k],
            n == active_count(before.take(i as int)),
            n <= i,
        decreases before.len() - i,
    {
        let s = runs[i];
        proof {
            active_count_step(before, i as int, e);
        }
        if s.status.is_active() {
            match advance_run(s, e) {
                Some(next) => {
                    runs.set(i, next);
                },
                None => {},
            }
            n = n + 1;
        }
        i = i + 1;
    }
    proof {
        assert(before.take(before.len() as int) =~= before);
        assert forall|k: int| 0 <= k < runs@.len() implies !(#[trigger] runs@[k]).status.active() by {
            assert(runs@[k] == halted_run(before[k], e));
            if before[k].status.active() {
                halts_never_rerun(before[k], e);
            }
        }
    }
    n
}

/// A halt applied twice changes nothing the second time.
pub proof fn halting_is_idempotent(s: RunState, e: RunEvent)
    requires
        e == RunEvent::ServiceRestarted || e == RunEvent::ConnectionLost,
        s.status.active(),
    ensures
        run_after(s, e) matches Some(h) && run_after(h, e) is None,
{
}

/// A finished turn ends an unfinished run: completed gives success, interrupted or
/// cancelled gives cancelled, anything else a failure recorded as a failed turn.
pub proof fn finished_turns_end_runs(s: RunState, o: TurnOutcome)
    requires
        s.status.active(),
        s.revision < u64::MAX,
    ensures
        run_after(s, RunEvent::TurnFinished(o)) matches Some(t) && !t.status.active()
            && (o == TurnOutcome::Completed ==> t.status == RunStatus::Succeeded)
            && (o == TurnOutcome::Interrupted || o == TurnOutcome::Cancelled ==> t.status == RunStatus::Cancelled)
            && (o == TurnOutcome::Other ==> t.status == RunStatus::Failed && t.error == Some(RunError::TurnFailed)),
{
}

/// A stop asked for while a run is going is recorded on it, and the run keeps going until
/// its turn ends; a queued run takes no stop request.
pub proof fn stops_are_recorded_while_running(s: RunState)
    requires
        s.revision < u64::MAX,
    ensures
        (s.status == RunStatus::Running || s.status == RunStatus::AwaitingResponse) ==> (
            run_after(s, RunEvent::StopRequested) matches Some(t) && t.stop_requested && t.status == s.status),
        s.status == RunStatus::Queued ==> run_after(s, RunEvent::StopRequested) is None,
{
}

/// A running run that the provider asks a blocking question waits for the answer: it
/// shows it is awaiting a response, keeps its dispatch, error and stop request, and
/// once the question is settled it is running again.
pub proof fn blocking_questions_make_runs_wait(s: RunState)
    requires
        s.status == RunStatus::Running,
        s.revision < u64::MAX - 1,
    ensures
        ({
            &&& run_after(s, RunEvent::BlockingRequest) matches Some(w)
            &&& w.status == RunStatus::AwaitingResponse
            &&& w.dispatch == s.dispatch
            &&& w.error == s.error
            &&& w.stop_requested == s.stop_requested
            &&& w.revision == s.revision + 1
            &&& run_after(w, RunEvent::RequestsSettled) matches Some(b)
            &&& b.status == RunStatus::Running
            &&& b.revision == s.revision + 2
        }),
        run_after(s, RunEvent::RequestsSettled) is None,
{
}

/// Where a structured provider request stands.
#[derive(Debug, Clone, Copy, PartialEq, Eq, Structural)]
pub enum RequestStatus {
    Pending,
    Submitting,
    Answered,
    Error,
    Stale,
}

/// Whether an answer to a request may be submitted, or why not, given the provider
/// connection generation it was asked under and the current one.
pub open spec fn answer_admission(
    request_generation: i64,
    current_generation: i64,
    run: RunStatus,
    request: RequestStatus,
) -> Option<Seq<char>> {
    if request_generation != current_generation {
        Some("stale_request: provider connection changed"@)
    } else if !(run == RunStatus::Running || run == RunStatus::AwaitingResponse) {
        Some("stale_request: Run is no longer active"@)
    } else if !(request == RequestStatus::Pending || request == RequestStatus::Error) {
        Some("stale_request: request is no longer actionable"@)
    } else {
        None
    }
}

/// Opens an answer to a structured request; it then moves to `submitting`.
pub fn open_answer(
    request_generation: i64,
    current_generation: i64,
    run: RunStatus,
    request: RequestStatus,
) -> (r: Result<RequestStatus, String>)
    ensures
        match answer_admission(request_generation, current_generation, run, request) {
            Some(m) => r matches Err(e) && e@ == m,
            None => r == Ok::<RequestStatus, String>(RequestStatus::Submitting),
        },
{
    if request_generation != current_generation {
        return Err("stale_request: provider connection changed".to_owned());
    }
    match run {
        RunStatus::Running | RunStatus::AwaitingResponse => {},
        _ => {
            return Err("stale_request: Run is no longer active".to_owned());
        },
    }
    match request {
        RequestStatus::Pending | RequestStatus::Error => Ok(RequestStatus::Submitting),
        _ => Err("stale_request: request is no longer actionable".to_owned()),
    }
}

/// Settles a submitted answer: the provider took it, or it failed and may be answered again.
pub fn settle_answer(request: RequestStatus, accepted: bool) -> (r: Result<RequestStatus, String>)
    ensures
        request == RequestStatus::Submitting ==> r == Ok::<RequestStatus, String>(
            if accepted {
                RequestStatus::Answered
            } else {
                RequestStatus::Error
            },
        ),
        request != RequestStatus::Submitting ==> (r matches Err(e) && e@
            == "stale_request: response state changed"@),
{
    match request {
        RequestStatus::Submitting => Ok(
            if accepted {
                RequestStatus::Answered
            } else {
                RequestStatus::Error
            },
        ),
        _ => Err("stale_request: response state changed".to_owned()),
    }
}

/// A request that can still be answered becomes stale when its run ends.
pub fn stale_on_run_end(request: RequestStatus) -> (r: RequestStatus)
    ensures
        r == (if request == RequestStatus::Pending || request == RequestStatus::Submitting
            || request == RequestStatus::Error {
            RequestStatus::Stale
        } else {
            request
        }),
{
    match request {
        RequestStatus::Pending | RequestStatus::Submitting | RequestStatus::Error => RequestStatus::Stale,
        r => r,
    }
}

/// An answer is admitted at most once: once submitting, answered or stale, a request
/// takes no second answer until a failed submission returns it to `error`.
pub proof fn answers_are_not_doubled(g: i64, run: RunStatus)
    ensures
        answer_admission(g, g, run, RequestStatus::Submitting) is Some,
        answer_admission(g, g, run, RequestStatus::Answered) is Some,
        answer_admission(g, g, run, RequestStatus::Stale) is Some,
{
}

/// Where a completed provider item is stored, or why it is not.
pub open spec fn item_admission(replay: bool, run: Option<RunStatus>, order: i64, next_order: i64) -> Result<Option<i64>, Seq<char>> {
    if replay {
        Ok(None)
    } else {
        match run {
            None => Err("ownership_failure: Run not found"@),
            Some(s) => if !s.active() {
                Err("stale_run: completed item arrived after terminal state"@)
            } else {
                Ok(Some(if order < next_order { next_order } else { order }))
            },
        }
    }
}

/// Places a completed provider item: a replayed item is ignored, an item after the run
/// ended is refused, and a new one is stored no earlier than the next free position.
pub fn place_item(replay: bool, run: Option<RunStatus>, order: i64, next_order: i64) -> (r: Result<Option<i64>, String>)
    ensures
        match item_admission(replay, run, order, next_order) {
            Ok(v) => r == Ok::<Option<i64>, String>(v),
            Err(m) => r matches Err(e) && e@ == m,
        },
{
    if replay {
        return Ok(None);
    }
    match run {
        None => Err("ownership_failure: Run not found".to_owned()),
        Some(s) => {
            if !s.is_active() {
                return Err("stale_run: completed item arrived after terminal state".to_owned());
            }
            Ok(Some(if order < next_order { next_order } else { order }))
        },
    }
}

/// A Task may be executed only while it exists and has not been deleted.
pub fn ensure_task_owner(task_exists: bool) -> (r: Result<(), String>)
    ensures
        task_exists ==> r is Ok,
        !task_exists ==> (r matches Err(e) && e@ == "ownership_failure: Task not found"@),
{
    if task_exists {
        Ok(())
    } else {
        Err("ownership_failure: Task not found".to_owned())
    }
}

/// The provider connection generation after a new connection is made.
pub fn next_connection_generation(current: i64) -> (r: i64)
    requires
        current < i64::MAX,
    ensures
        r == current + 1,
{
    current + 1
}

/// How an existing provider conversation is attached to a Task.
#[derive(Debug, Clone, PartialEq, Eq)]
pub enum ThreadLink {
    /// It already belongs to this work session; nothing changes.
    AlreadyLinked(String),
    /// A new work session is created for it.
    CreateSession,
    /// The given empty work session takes it.
    BindSession,
}

/// The step linking takes, as the decision sees it.
#[derive(Debug, Clone, Copy, PartialEq, Eq, Structural)]
pub enum LinkStep {
    Keep,
    Create,
    Bind,
}

/// How an existing conversation is linked, or why it cannot be. `owner` is the Task and
/// session the conversation already belongs to; `target` is the named session's current
/// conversation (None when the session does not exist; Some(None) when it has none).
pub open spec fn link_outcome(
    task_exists: bool,
    owner: Option<(Seq<char>, Seq<char>)>,
    task_id: Seq<char>,
    session_id: Option<Seq<char>>,
    target: Option<Option<Seq<char>>>,
    thread_id: Seq<char>,
    has_history: bool,
) -> Result<LinkStep, Seq<char>> {
    if !task_exists {
        Err("ownership_failure: Task not found"@)
    } else {
        match owner {
            Some((owner_task, owner_session)) => if owner_task != task_id {
                Err("ownership_failure: conversation belongs to another Task"@)
            } else if session_id is None || session_id == Some(owner_session) {
                Ok(LinkStep::Keep)
            } else {
                Err("session_history_conflict: conversation is already linked to work session "@ + owner_session)
            },
            None => match session_id {
                None => Ok(LinkStep::Create),
                Some(_) => match target {
                    None => Err("ownership_failure: work session not found"@),
                    Some(Some(current)) => if current == thread_id {
                        Ok(LinkStep::Keep)
                    } else {
                        Err("session_history_conflict: work session is already linked to a different conversation"@)
                    },
                    Some(None) => if has_history {
                        Err("session_history_conflict: create an empty work session before linking an existing conversation"@)
                    } else {
                        Ok(LinkStep::Bind)
                    },
                },
            },
        }
    }
}

/// The session a conversation is already linked to, when linking again changes nothing.
pub open spec fn already_linked_session(
    owner: Option<(Seq<char>, Seq<char>)>,
    session_id: Option<Seq<char>>,
) -> Seq<char> {
    match owner {
        Some((_, owner_session)) => owner_session,
        None => session_id->Some_0,
    }
}

/// Decides how an existing provider conversation is linked to a Task: never to another
/// Task, never over a session's different conversation or its local history, and again
/// without change when it is already there.
pub fn link_plan(
    task_exists: bool,
    owner: Option<(&str, &str)>,
    task_id: &str,
    session_id: Option<&str>,
    target: Option<Option<&str>>,
    thread_id: &str,
    has_history: bool,
) -> (r: Result<ThreadLink, String>)
    ensures
        ({
            let o = match owner {
                Some((t, s)) => Some((t@, s@)),
                None => None,
            };
            let t = match target {
                Some(Some(c)) => Some(Some(c@)),
                Some(None) => Some(None),
                None => None,
            };
            match link_outcome(task_exists, o, task_id@, opt_str(session_id), t, thread_id@, has_history) {
                Ok(LinkStep::Keep) => r matches Ok(ThreadLink::AlreadyLinked(s)) && s@
                    == already_linked_session(o, opt_str(session_id)),
                Ok(LinkStep::Create) => r == Ok::<ThreadLink, String>(ThreadLink::CreateSession),
                Ok(LinkStep::Bind) => r == Ok::<ThreadLink, String>(ThreadLink::BindSession),
                Err(m) => r matches Err(e) && e@ == m,
            }
        }),
{
    if !task_exists {
        return Err("ownership_failure: Task not found".to_owned());
    }
    match owner {
        Some((owner_task, owner_session)) => {
            if !text_eq(owner_task, task_id) {
                return Err("ownership_failure: conversation belongs to another Task".to_owned());
            }
            let same = match session_id {
                None => true,
                Some(s) => text_eq(s, owner_session),
            };
            if same {
                return Ok(ThreadLink::AlreadyLinked(owner_session.to_owned()));
            }
            let mut m = "session_history_conflict: conversation is already linked to work session ".to_owned();
            m.append(owner_session);
            Err(m)
        },
        None => match session_id {
            None => Ok(ThreadLink::CreateSession),
            Some(sid) => match target {
                None => Err("ownership_failure: work session not found".to_owned()),
                Some(Some(current)) => {
                    if text_eq(current, thread_id) {
                        Ok(ThreadLink::AlreadyLinked(sid.to_owned()))
                    } else {
                        Err("session_history_conflict: work session is already linked to a different conversation".to_owned())
                    }
                },
                Some(None) => {
                    if has_history {
                        Err("session_history_conflict: create an empty work session before linking an existing conversation".to_owned())
                    } else {
                        Ok(ThreadLink::BindSession)
                    }
                },
            },
        },
    }
}

/// The title a new session for an imported conversation gets: the trimmed title within
/// 200 bytes, or a fixed title when nothing is left.
pub open spec fn imported_title(title: Seq<char>) -> Seq<char> {
    let safe = safe_view(trim(title), 200);
    if safe.len() == 0 {
        "Imported Codex conversation"@
    } else {
        safe
    }
}

/// The model a new session for an imported conversation uses: the given one, trimmed,
/// when it is present and at most 200 bytes, else the default model.
pub open spec fn imported_model(model: Option<Seq<char>>) -> Seq<char> {
    match model {
        Some(m) => if trim(m).len() > 0 && utf8(trim(m)).len() <= 200 {
            trim(m)
        } else {
            "gpt-5.6-sol"@
        },
        None => "gpt-5.6-sol"@,
    }
}

/// Names the session created for an imported conversation.
pub fn imported_session_names(title: &str, model: Option<&str>) -> (r: (String, String))
    ensures
        r.0@ == imported_title(title@),
        r.1@ == imported_model(opt_str(model)),
{
    let t = trimmed(title);
    let safe = safe_text(t.as_str(), 200);
    let name = if safe.as_str().is_empty() {
        "Imported Codex conversation".to_owned()
    } else {
        safe
    };
    let chosen = match model {
        Some(m) => {
            let tm = trimmed(m);
            if !tm.as_str().is_empty() && tm.as_str().as_bytes().len() <= 200 {
                tm
            } else {
                "gpt-5.6-sol".to_owned()
            }
        },
        None => "gpt-5.6-sol".to_owned(),
    };
    (name, chosen)
}

/// The work session created for an imported provider conversation.
#[derive(Debug, Clone)]
pub struct ImportedSession {
    pub task_id: String,
    pub title: String,
    pub provider: String,
    pub model: String,
    pub approval_mode: String,
    pub approvals_reviewer: String,
    pub workspace_path: String,
    pub thread_id: String,
    /// No Task context has been sent in it yet.
    pub context_hash: Option<String>,
}

/// The work session for an imported conversation: a Codex session under the Task, named
/// and modelled as `imported_session_names` says, asking the user to approve its requests,
/// bound to the conversation and its folder, with no context sent yet.
pub fn imported_session(task_id: &str, title: &str, model: Option<&str>, workspace_path: &str, thread_id: &str) -> (r: ImportedSession)
    ensures
        r.task_id@ == task_id@,
        r.title@ == imported_title(title@),
        r.provider@ == "codex"@,
        r.model@ == imported_model(opt_str(model)),
        r.approval_mode@ == "ask"@,
        r.approvals_reviewer@ == "user"@,
        r.workspace_path@ == workspace_path@,
        r.thread_id@ == thread_id@,
        r.context_hash is None,
{
    let (name, chosen) = imported_session_names(title, model);
    ImportedSession {
        task_id: task_id.to_owned(),
        title: name,
        provider: "codex".to_owned(),
        model: chosen,
        approval_mode: "ask".to_owned(),
        approvals_reviewer: "user".to_owned(),
        workspace_path: workspace_path.to_owned(),
        thread_id: thread_id.to_owned(),
        context_hash: None,
    }
}

/// A conversation already linked to another Task is never rebound to this one.
pub proof fn conversations_never_change_task(
    owner_task: Seq<char>,
    owner_session: Seq<char>,
    task_id: Seq<char>,
    session_id: Option<Seq<char>>,
    target: Option<Option<Seq<char>>>,
    thread_id: Seq<char>,
    has_history: bool,
)
    requires
        owner_task != task_id,
    ensures
        link_outcome(true, Some((owner_task, owner_session)), task_id, session_id, target, thread_id, has_history)
            == Err::<LinkStep, Seq<char>>("ownership_failure: conversation belongs to another Task"@),
{
}

} // verus!
