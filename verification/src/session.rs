//! Tracked work sessions: opening under review, replaying operations, appending events.

use vstd::prelude::*;
use crate::digest::{request_digest, request_hash};
use crate::evidence::{field, Json};
use crate::review::{refused, text_before, text_lt};
use crate::text::{integer_text, render_integer, text_eq, trim, trimmed, utf8};
use crate::work_state::{AppError, Denial, EventKind, denied, deny, deny_head, outcome, plain_error};

verus! {

/// A required text field: trimmed, present and at most `max` UTF-8 bytes.
pub open spec fn required_text(value: Option<Seq<char>>, field: Seq<char>, max: nat) -> Result<Seq<char>, Denial> {
    let t = match value {
        Some(v) => trim(v),
        None => Seq::empty(),
    };
    if t.len() == 0 {
        Err(deny("invalid_input"@, field + " is required"@))
    } else if utf8(t).len() > max {
        Err(deny("content_too_large"@, field + " is too long"@))
    } else {
        Ok(t)
    }
}

/// Reads a required text field.
pub fn require_text(value: Option<&str>, field: &str, max: usize) -> (r: Result<String, AppError>)
    ensures
        match required_text(
            match value {
                Some(v) => Some(v@),
                None => None,
            },
            field@,
            max as nat,
        ) {
            Ok(t) => r matches Ok(s) && s@ == t,
            Err(d) => outcome(r, Err(d)),
        },
{
    let t = match value {
        Some(v) => trimmed(v),
        None => String::new(),
    };
    if t.as_str().is_empty() {
        let mut message = field.to_owned();
        message.append(" is required");
        return Err(AppError::new("invalid_input", message.as_str()));
    }
    if t.as_str().as_bytes().len() > max {
        let mut message = field.to_owned();
        message.append(" is too long");
        return Err(AppError::new("content_too_large", message.as_str()));
    }
    Ok(t)
}

/// The interface a connection's sessions are recorded under.
pub open spec fn source_interface(connection: Seq<char>) -> Seq<char> {
    if connection == crate::access::native_connection() {
        "in_app_chat"@
    } else {
        "external_mcp_chat"@
    }
}

/// The event stream a connection appends to.
pub open spec fn stream_of(connection: Seq<char>) -> Seq<char> {
    source_interface(connection) + ":"@ + connection
}

/// The event stream of a connection: its interface, a colon, and its ID.
pub fn stream_id(connection: &str) -> (r: String)
    ensures
        r@ == stream_of(connection@),
{
    let mut s = if text_eq(connection, "native-in-app-chat") {
        "in_app_chat".to_owned()
    } else {
        "external_mcp_chat".to_owned()
    };
    s.append(":");
    s.append(connection);
    s
}

/// The resource a work session is read from.
pub open spec fn session_uri(session_id: Seq<char>) -> Seq<char> {
    "llm-wiki://work-session/"@ + session_id
}

/// The resource URI of a work session.
pub fn resource_uri(session_id: &str) -> (r: String)
    ensures
        r@ == session_uri(session_id@),
{
    let mut uri = "llm-wiki://work-session/".to_owned();
    uri.append(session_id);
    uri
}

/// What opening a new work session answers.
#[derive(Debug, Clone)]
pub struct OpenedSession {
    pub session_id: String,
    pub head_revision: i64,
    pub state: String,
    pub created: bool,
    pub deduplicated: bool,
    pub persistence_status: String,
    pub projection_status: String,
    pub resource_uri: String,
}

/// The answer for a newly opened session: it starts at head revision 1, active, newly
/// created and durable. A session opened from a capture queues its first event for the
/// workflow projection; one bound to an existing Task needs no projection.
pub fn opened_session(session_id: &str, binds_task: bool) -> (r: OpenedSession)
    ensures
        r.session_id@ == session_id@,
        r.head_revision == 1,
        r.state@ == "active"@,
        r.created,
        !r.deduplicated,
        r.persistence_status@ == "durable"@,
        r.projection_status@ == (if binds_task { "not_required"@ } else { "queued"@ }),
        r.resource_uri@ == session_uri(session_id@),
{
    OpenedSession {
        session_id: session_id.to_owned(),
        head_revision: 1,
        state: "active".to_owned(),
        created: true,
        deduplicated: false,
        persistence_status: "durable".to_owned(),
        projection_status: if binds_task { "not_required".to_owned() } else { "queued".to_owned() },
        resource_uri: resource_uri(session_id),
    }
}

/// `output` is the stored response `input` as a replay answers it: every field but
/// `deduplicated` kept in order, then `deduplicated` set to true.
pub open spec fn marked_replayed(input: Json, output: Json) -> bool {
    match (input, output) {
        (Json::Object(entries), Json::Object(outs)) => {
            &&& outs@.len() > 0
            &&& outs@.drop_last() == entries@.filter(|e: (String, Json)| e.0@ != "deduplicated"@)
            &&& outs@.last().0@ == "deduplicated"@
            &&& outs@.last().1 == Json::Bool(true)
        },
        _ => false,
    }
}

/// Marks a stored response as a replay: its `deduplicated` field becomes true and every
/// other field is kept.
pub fn mark_replayed(response: Json) -> (r: Json)
    requires
        response is Object,
    ensures
        marked_replayed(response, r),
{
    match response {
        Json::Object(entries) => {
            let ghost pred = |e: (String, Json)| e.0@ != "deduplicated"@;
            let ghost all = entries@;
            let mut rest = entries;
            let mut outs: Vec<(String, Json)> = Vec::new();
            let mut taken: usize = 0;
            let n = rest.len();
            proof {
                assert(all.take(0) =~= Seq::<(String, Json)>::empty());
                assert(all.skip(0) =~= all);
            }
            while rest.len() > 0
                invariant
                    pred == (|e: (String, Json)| e.0@ != "deduplicated"@),
                    taken + rest@.len() == all.len(),
                    all.len() == n,
                    rest@ == all.skip(taken as int),
                    outs@ == all.take(taken as int).filter(pred),
                decreases rest@.len(),
            {
                let e = rest.remove(0);
                proof {
                    assert(e == all[taken as int]);
                    assert(all.take(taken as int + 1) =~= all.take(taken as int).push(e));
                    all.take(taken as int).lemma_filter_push(e, pred);
                    assert(rest@ =~= all.skip(taken as int + 1));
                }
                if !text_eq(e.0.as_str(), "deduplicated") {
                    outs.push(e);
                }
                taken = taken + 1;
            }
            proof {
                assert(all.take(all.len() as int) =~= all);
            }
            let ghost kept = outs@;
            outs.push(("deduplicated".to_owned(), Json::Bool(true)));
            proof {
                assert(outs@.drop_last() =~= kept);
            }
            Json::Object(outs)
        },
        _ => Json::Null,
    }
}

proof fn entry_shift(a: Seq<(String, Json)>, b: Seq<(String, Json)>, j: int, k: Seq<char>)
    requires
        0 <= j <= b.len(),
    ensures
        crate::evidence::entry_from(a + b, a.len() + j, k) == crate::evidence::entry_from(b, j, k),
    decreases b.len() - j,
{
    if j < b.len() {
        entry_shift(a, b, j + 1, k);
        assert((a + b)[a.len() + j] == b[j]);
    }
}

proof fn entry_concat(a: Seq<(String, Json)>, b: Seq<(String, Json)>, i: int, k: Seq<char>)
    requires
        0 <= i <= a.len(),
    ensures
        crate::evidence::entry_from(a + b, i, k) == (match crate::evidence::entry_from(a, i, k) {
            Some(x) => Some(x),
            None => crate::evidence::entry_from(b, 0, k),
        }),
    decreases a.len() - i,
{
    if i == a.len() {
        entry_shift(a, b, 0, k);
    } else {
        entry_concat(a, b, i + 1, k);
        assert((a + b)[i] == a[i]);
    }
}

proof fn entry_filtered(s: Seq<(String, Json)>, k: Seq<char>)
    requires
        k != "deduplicated"@,
    ensures
        crate::evidence::entry_from(s.filter(|e: (String, Json)| e.0@ != "deduplicated"@), 0, k)
            == crate::evidence::entry_from(s, 0, k),
    decreases s.len(),
{
    let pred = |e: (String, Json)| e.0@ != "deduplicated"@;
    if s.len() > 0 {
        let d = s.drop_last();
        let last = s.last();
        entry_filtered(d, k);
        assert(s =~= d + seq![last]);
        entry_concat(d, seq![last], 0, k);
        d.lemma_filter_push(last, pred);
        assert(d.push(last) =~= s);
        if pred(last) {
            assert(s.filter(pred) =~= d.filter(pred) + seq![last]);
            entry_concat(d.filter(pred), seq![last], 0, k);
        } else {
            assert(last.0@ != k);
            assert(crate::evidence::entry_from(seq![last], 1, k) is None);
        }
    } else {
        assert(s.filter(pred) =~= s) by {
            reveal(Seq::filter);
        }
    }
}

/// A replayed answer says it is a replay, and says everything else as the stored
/// response did.
pub proof fn replayed_answers_say_deduplicated(stored: Json, replayed: Json, k: Seq<char>)
    requires
        marked_replayed(stored, replayed),
    ensures
        field(replayed, "deduplicated"@) == Some(Json::Bool(true)),
        k != "deduplicated"@ ==> field(replayed, k) == field(stored, k),
{
    let pred = |e: (String, Json)| e.0@ != "deduplicated"@;
    match (stored, replayed) {
        (Json::Object(entries), Json::Object(outs)) => {
            let kept = entries@.filter(pred);
            let last = outs@.last();
            assert(outs@ =~= kept + seq![last]);
            entry_concat(kept, seq![last], 0, "deduplicated"@);
            entry_concat(kept, seq![last], 0, k);
            assert forall|i: int| 0 <= i < kept.len() implies pred(#[trigger] kept[i]) by {
                entries@.lemma_filter_pred(pred, i);
            }
            assert(crate::evidence::entry_from(kept, 0, "deduplicated"@) is None) by {
                entry_none(kept, 0);
            }
            if k != "deduplicated"@ {
                entry_filtered(entries@, k);
                if last.0@ != k {
                    assert(crate::evidence::entry_from(seq![last], 1, k) is None);
                }
            }
        },
        _ => {},
    }
}

proof fn entry_none(s: Seq<(String, Json)>, i: int)
    requires
        0 <= i <= s.len(),
        forall|j: int| 0 <= j < s.len() ==> (#[trigger] s[j]).0@ != "deduplicated"@,
    ensures
        crate::evidence::entry_from(s, i, "deduplicated"@) is None,
    decreases s.len() - i,
{
    if i < s.len() {
        entry_none(s, i + 1);
    }
}

/// Replays an operation whose stored response is a JSON object: for the same request it
/// answers the stored response marked as a replay, for a different request under the
/// same operation ID it refuses, and for a new operation it answers nothing.
pub fn replay_response(stored: Option<(String, Json)>, request_hash: &str) -> (r: Result<Option<Json>, AppError>)
    requires
        stored matches Some((_, v)) ==> v is Object,
    ensures
        match replay_outcome(
            match stored {
                Some((h, v)) => Some((h@, v)),
                None => None,
            },
            request_hash@,
        ) {
            Ok(None) => r matches Ok(None),
            Ok(Some(v)) => r matches Ok(Some(m)) && marked_replayed(v, m),
            Err(d) => outcome(r, Err(d)),
        },
{
    match check_replay(stored, request_hash) {
        Ok(Some(v)) => Ok(Some(mark_replayed(v))),
        Ok(None) => Ok(None),
        Err(e) => Err(e),
    }
}

/// Replays the answer to an advance: like `replay_response`, but an operation whose
/// stored response holds no decision yet has nothing to replay.
pub fn advance_replay(stored: Option<(String, Json)>, request_hash: &str) -> (r: Result<Option<Json>, AppError>)
    requires
        stored matches Some((_, v)) ==> v is Object,
    ensures
        match replay_outcome(
            match stored {
                Some((h, v)) => Some((h@, v)),
                None => None,
            },
            request_hash@,
        ) {
            Ok(None) => r matches Ok(None),
            Ok(Some(v)) => if field(v, "decision"@) is None {
                r matches Ok(None)
            } else {
                r matches Ok(Some(m)) && marked_replayed(v, m)
            },
            Err(d) => outcome(r, Err(d)),
        },
{
    match check_replay(stored, request_hash) {
        Ok(Some(v)) => {
            if crate::evidence::get_field(&v, "decision").is_none() {
                Ok(None)
            } else {
                Ok(Some(mark_replayed(v)))
            }
        },
        Ok(None) => Ok(None),
        Err(e) => Err(e),
    }
}

/// What an operation ID was stored with: the request hash and the response.
pub open spec fn replay_outcome<T>(stored: Option<(Seq<char>, T)>, request_hash: Seq<char>) -> Result<Option<T>, Denial> {
    match stored {
        None => Ok(None),
        Some((hash, response)) => if hash == request_hash {
            Ok(Some(response))
        } else {
            Err(deny("idempotency_conflict"@, "Operation ID was already used with different input"@))
        },
    }
}

/// Replays an operation: the response stored for the same request, a conflict for a
/// different request under the same operation ID, and nothing for a new operation.
pub fn check_replay<T>(stored: Option<(String, T)>, request_hash: &str) -> (r: Result<Option<T>, AppError>)
    ensures
        outcome(
            r,
            replay_outcome(
                match stored {
                    Some((h, v)) => Some((h@, v)),
                    None => None,
                },
                request_hash@,
            ),
        ),
{
    match stored {
        None => Ok(None),
        Some((hash, response)) => {
            if text_eq(hash.as_str(), request_hash) {
                Ok(Some(response))
            } else {
                Err(
                    AppError::new(
                        "idempotency_conflict",
                        "Operation ID was already used with different input",
                    ),
                )
            }
        },
    }
}

/// Replaying an operation with the request it was stored with returns the stored
/// response; any other request under that operation ID is refused.
pub proof fn replay_returns_what_was_stored<T>(hash: Seq<char>, response: T, request_hash: Seq<char>)
    ensures
        request_hash == hash ==> replay_outcome(Some((hash, response)), request_hash) == Ok::<
            Option<T>,
            Denial,
        >(Some(response)),
        request_hash != hash ==> replay_outcome(Some((hash, response)), request_hash) is Err,
        replay_outcome(None::<(Seq<char>, T)>, request_hash) == Ok::<Option<T>, Denial>(None),
{
}

/// A stored review of a Capture or a Task continuation.
#[derive(Debug, Clone)]
pub struct StoredReview {
    pub id: String,
    pub payload_hash: String,
    pub state: String,
    pub expires_at: String,
}

/// Which kind of opening a review guards.
#[derive(Debug, Clone, Copy, PartialEq, Eq, Structural)]
pub enum ReviewStage {
    Capture,
    TaskContinuation,
}

/// The name a stage is shown under in its messages.
pub open spec fn stage_name(stage: ReviewStage) -> Seq<char> {
    match stage {
        ReviewStage::Capture => "Capture"@,
        ReviewStage::TaskContinuation => "Task continuation"@,
    }
}

fn stage_label(stage: ReviewStage) -> (r: &'static str)
    ensures
        r@ == stage_name(stage),
{
    match stage {
        ReviewStage::Capture => "Capture",
        ReviewStage::TaskContinuation => "Task continuation",
    }
}

fn message(stage: ReviewStage, tail: &str) -> (r: String)
    ensures
        r@ == stage_name(stage) + tail@,
{
    let mut m = stage_label(stage).to_owned();
    m.append(tail);
    m
}

/// Whether a stored review may still be decided, or why not; without one, whether a
/// new review may be opened.
pub open spec fn review_gate(stage: ReviewStage, stored: Option<StoredReview>, request_hash: Seq<char>, now: Seq<char>, decision_supplied: bool) -> Option<Denial> {
    match stored {
        Some(r) => if r.payload_hash@ != request_hash {
            Some(deny("idempotency_conflict"@, "Preview content changed; create a new review"@))
        } else if r.state@ != "pending"@ {
            Some(deny("challenge_replayed"@, stage_name(stage) + " review was already decided"@))
        } else if text_lt(r.expires_at@, now) {
            Some(deny("challenge_expired"@, stage_name(stage) + " review expired"@))
        } else {
            None
        },
        None => if decision_supplied {
            Some(deny("invalid_input"@, stage_name(stage) + " review is unavailable"@))
        } else {
            None
        },
    }
}

/// A stored review for the same request that is still pending opens nothing once it has
/// expired: it is refused as expired, with the stage's message. Until it expires, the
/// gate lets it through.
pub proof fn expired_reviews_are_refused(stage: ReviewStage, r: StoredReview, h: Seq<char>, now: Seq<char>, decision_supplied: bool)
    requires
        r.payload_hash@ == h,
        r.state@ == "pending"@,
    ensures
        text_lt(r.expires_at@, now) ==> ({
            &&& review_gate(stage, Some(r), h, now, decision_supplied) matches Some(d)
            &&& d.0 == "challenge_expired"@
            &&& d.1 == (if stage == ReviewStage::Capture { "Capture review expired"@ } else { "Task continuation review expired"@ })
            &&& d.2 is None
        }),
        !text_lt(r.expires_at@, now) ==> review_gate(stage, Some(r), h, now, decision_supplied) is None,
{
    assert("Capture"@ + " review expired"@ =~= "Capture review expired"@) by {
        reveal_strlit("Capture");
        reveal_strlit(" review expired");
        reveal_strlit("Capture review expired");
    }
    assert("Task continuation"@ + " review expired"@ =~= "Task continuation review expired"@) by {
        reveal_strlit("Task continuation");
        reveal_strlit(" review expired");
        reveal_strlit("Task continuation review expired");
    }
}

/// Checks the review guarding an opening: a stored review must be for the same request,
/// undecided and unexpired; a decision cannot be made on a review that was never shown.
pub fn check_review_gate(stage: ReviewStage, stored: Option<&StoredReview>, request_hash: &str, now: &str, decision_supplied: bool) -> (r: Result<(), AppError>)
    ensures
        refused(
            r,
            review_gate(
                stage,
                match stored {
                    Some(s) => Some(*s),
                    None => None,
                },
                request_hash@,
                now@,
                decision_supplied,
            ),
        ),
{
    match stored {
        Some(review) => {
            if !text_eq(review.payload_hash.as_str(), request_hash) {
                return Err(
                    AppError::new(
                        "idempotency_conflict",
                        "Preview content changed; create a new review",
                    ),
                );
            }
            if !text_eq(review.state.as_str(), "pending") {
                let m = message(stage, " review was already decided");
                return Err(AppError::new("challenge_replayed", m.as_str()));
            }
            if text_before(review.expires_at.as_str(), now) {
                let m = message(stage, " review expired");
                return Err(AppError::new("challenge_expired", m.as_str()));
            }
            Ok(())
        },
        None => {
            if decision_supplied {
                let m = message(stage, " review is unavailable");
                return Err(AppError::new("invalid_input", m.as_str()));
            }
            Ok(())
        },
    }
}

/// What a review's decision leads to.
#[derive(Debug, Clone, Copy, PartialEq, Eq, Structural)]
pub enum ReviewStep {
    /// No decision yet: show the preview and wait.
    Preview,
    /// Rejected or cancelled: record it and stop.
    Declined,
    /// Accepted: open the session.
    Accepted,
}

/// The step a supplied decision leads to, or the refusal of an invalid one.
pub open spec fn review_step(stage: ReviewStage, review_id: Seq<char>, supplied: Option<(Seq<char>, Seq<char>)>) -> Result<ReviewStep, Denial> {
    match supplied {
        None => Ok(ReviewStep::Preview),
        Some((id, decision)) => if id != review_id || !(decision == "accept"@ || decision
            == "reject"@ || decision == "cancel"@) {
            Err(deny("invalid_input"@, "Invalid "@ + stage_name(stage) + " decision"@))
        } else if decision == "accept"@ {
            Ok(ReviewStep::Accepted)
        } else {
            Ok(ReviewStep::Declined)
        },
    }
}

/// Reads the decision supplied for a review.
pub fn decide_review(stage: ReviewStage, review_id: &str, supplied: Option<(&str, &str)>) -> (r: Result<ReviewStep, AppError>)
    ensures
        outcome(
            r,
            review_step(
                stage,
                review_id@,
                match supplied {
                    Some((i, d)) => Some((i@, d@)),
                    None => None,
                },
            ),
        ),
{
    match supplied {
        None => Ok(ReviewStep::Preview),
        Some((id, decision)) => {
            let accept = text_eq(decision, "accept");
            if !text_eq(id, review_id) || !(accept || text_eq(decision, "reject") || text_eq(
                decision,
                "cancel",
            )) {
                let mut m = "Invalid ".to_owned();
                m.append(stage_label(stage));
                m.append(" decision");
                return Err(AppError::new("invalid_input", m.as_str()));
            }
            if accept {
                Ok(ReviewStep::Accepted)
            } else {
                Ok(ReviewStep::Declined)
            }
        },
    }
}

/// A session can be opened only under a review that was shown, is for this request, and
/// is still undecided; the decision then decides the step.
pub proof fn decided_reviews_stay_decided(stage: ReviewStage, stored: StoredReview, request_hash: Seq<char>, now: Seq<char>, decision_supplied: bool)
    requires
        stored.state@ != "pending"@,
    ensures
        review_gate(stage, Some(stored), request_hash, now, decision_supplied) is Some,
{
}

/// The head of a session as the appending transaction reads it.
#[derive(Debug, Clone)]
pub struct SessionHead {
    pub head_revision: i64,
    pub state: String,
}

/// What appending an event writes.
#[derive(Debug, Clone)]
pub struct AppendPlan {
    /// The new head revision.
    pub revision: i64,
    /// The stream the event is appended to.
    pub stream_id: String,
    /// The session moves to `completion_proposed`.
    pub proposes_completion: bool,
    /// The connection's policy accepts the event without review.
    pub auto_accept: bool,
    /// The initial projection job state.
    pub job_state: String,
    /// The review state reported to the caller.
    pub review_state: String,
}

/// The largest canonical event payload a session accepts, in bytes.
pub const MAX_EVENT_BYTES: usize = 16384;

/// The plan for appending an event, or the refusal.
pub open spec fn append_outcome(
    connection: Seq<char>,
    payload_bytes: nat,
    session: Option<SessionHead>,
    expected_revision: i64,
    kind: EventKind,
    checkpoint_policy: Seq<char>,
) -> Result<(int, Seq<char>, bool, bool, Seq<char>, Seq<char>), Denial> {
    if payload_bytes > MAX_EVENT_BYTES {
        Err(deny("content_too_large"@, "Checkpoint exceeds 16 KiB"@))
    } else {
        match session {
            None => Err(deny("not_found_or_not_visible"@, "Work session is unavailable"@)),
            Some(s) => if s.state@ == "completed"@ {
                Err(deny("session_closed"@, "Completed work requires a follow-up session"@))
            } else if s.head_revision != expected_revision {
                Err(deny_head("Work session changed; refresh before saving"@, s.head_revision))
            } else {
                let auto = kind == EventKind::WorkLogCheckpoint && checkpoint_policy
                    == "allowed_for_started_sessions"@;
                Ok(
                    (
                        s.head_revision + 1,
                        stream_of(connection),
                        kind == EventKind::CompletionProposal,
                        auto,
                        if auto {
                            "pending"@
                        } else {
                            "pending_review"@
                        },
                        if auto {
                            "accepted_by_policy"@
                        } else {
                            "pending"@
                        },
                    ),
                )
            },
        }
    }
}

/// The view of an append plan, in the order of `append_outcome`.
pub open spec fn append_view(p: AppendPlan) -> (int, Seq<char>, bool, bool, Seq<char>, Seq<char>) {
    (p.revision as int, p.stream_id@, p.proposes_completion, p.auto_accept, p.job_state@, p.review_state@)
}

/// Decides how an event is appended to a session: the payload size, the session's
/// visibility and state, the caller's expected head, and whether the connection's
/// checkpoint policy accepts a Work Log checkpoint without review.
pub fn append_plan(
    connection: &str,
    payload_bytes: usize,
    session: Option<&SessionHead>,
    expected_revision: i64,
    kind: EventKind,
    checkpoint_policy: &str,
) -> (r: Result<AppendPlan, AppError>)
    requires
        session matches Some(s) ==> s.head_revision < i64::MAX,
    ensures
        match append_outcome(
            connection@,
            payload_bytes as nat,
            match session {
                Some(s) => Some(*s),
                None => None,
            },
            expected_revision,
            kind,
            checkpoint_policy@,
        ) {
            Ok(p) => r matches Ok(plan) && append_view(plan) == p,
            Err(d) => outcome(r, Err(d)),
        },
{
    if payload_bytes > MAX_EVENT_BYTES {
        return Err(AppError::new("content_too_large", "Checkpoint exceeds 16 KiB"));
    }
    let s = match session {
        None => {
            return Err(AppError::new("not_found_or_not_visible", "Work session is unavailable"));
        },
        Some(s) => s,
    };
    if text_eq(s.state.as_str(), "completed") {
        return Err(AppError::new("session_closed", "Completed work requires a follow-up session"));
    }
    if s.head_revision != expected_revision {
        return Err(AppError::conflict("Work session changed; refresh before saving", s.head_revision));
    }
    let auto = kind == EventKind::WorkLogCheckpoint && text_eq(
        checkpoint_policy,
        "allowed_for_started_sessions",
    );
    Ok(
        AppendPlan {
            revision: s.head_revision + 1,
            stream_id: stream_id(connection),
            proposes_completion: kind == EventKind::CompletionProposal,
            auto_accept: auto,
            job_state: if auto {
                "pending".to_owned()
            } else {
                "pending_review".to_owned()
            },
            review_state: if auto {
                "accepted_by_policy".to_owned()
            } else {
                "pending".to_owned()
            },
        },
    )
}

/// Every accepted append moves the head forward by exactly one revision, and only from
/// the revision the caller expected.
pub proof fn append_advances_head_by_one(
    connection: Seq<char>,
    payload_bytes: nat,
    session: SessionHead,
    expected_revision: i64,
    kind: EventKind,
    checkpoint_policy: Seq<char>,
)
    requires
        append_outcome(connection, payload_bytes, Some(session), expected_revision, kind, checkpoint_policy) is Ok,
    ensures
        session.head_revision == expected_revision,
        append_outcome(connection, payload_bytes, Some(session), expected_revision, kind, checkpoint_policy)->Ok_0.0
            == session.head_revision + 1,
{
}

/// A completed session refuses every append: completed work needs a follow-up session.
pub proof fn completed_sessions_refuse_appends(
    connection: Seq<char>,
    payload_bytes: nat,
    session: SessionHead,
    expected_revision: i64,
    kind: EventKind,
    checkpoint_policy: Seq<char>,
)
    requires
        session.state@ == "completed"@,
    ensures
        append_outcome(connection, payload_bytes, Some(session), expected_revision, kind, checkpoint_policy) is Err,
{
}

/// Only a Work Log checkpoint under the started-sessions policy skips review.
pub proof fn only_checkpoints_skip_review(
    connection: Seq<char>,
    payload_bytes: nat,
    session: SessionHead,
    expected_revision: i64,
    kind: EventKind,
    checkpoint_policy: Seq<char>,
)
    requires
        append_outcome(connection, payload_bytes, Some(session), expected_revision, kind, checkpoint_policy) is Ok,
        append_outcome(connection, payload_bytes, Some(session), expected_revision, kind, checkpoint_policy)->Ok_0.3,
    ensures
        kind == EventKind::WorkLogCheckpoint,
        checkpoint_policy == "allowed_for_started_sessions"@,
{
}

/// A session linked to a changed Task or Problem, as the desktop change fan-out reads it.
#[derive(Debug, Clone)]
pub struct LinkedSession {
    pub id: String,
    pub head_revision: i64,
    /// The session already holds the change event of this operation.
    pub already_present: bool,
    /// The next source sequence of the desktop stream in this session.
    pub next_sequence: i64,
}

/// One change event appended to a linked session.
#[derive(Debug, Clone)]
pub struct ChangeAppend {
    pub session_id: String,
    pub revision: i64,
    pub source_sequence: i64,
}

/// The sessions that receive a desktop change, from position `i` on: every linked
/// session except the one the change came from and those that already hold it.
pub open spec fn fan_out(sessions: Seq<LinkedSession>, origin: Option<Seq<char>>, i: int) -> Seq<(Seq<char>, int, i64)>
    decreases sessions.len() - i,
{
    if i < 0 || i >= sessions.len() {
        Seq::empty()
    } else {
        let s = sessions[i];
        let rest = fan_out(sessions, origin, i + 1);
        if origin == Some(s.id@) || s.already_present {
            rest
        } else {
            seq![(s.id@, s.head_revision + 1, s.next_sequence)] + rest
        }
    }
}

/// The view of planned change events.
pub open spec fn appends_view(a: Seq<ChangeAppend>) -> Seq<(Seq<char>, int, i64)> {
    Seq::new(a.len(), |i: int| (a[i].session_id@, a[i].revision as int, a[i].source_sequence))
}

/// Plans how a desktop change reaches linked sessions: one event per session, at the
/// revision after its head, never back to the session the change came from and never
/// twice for one operation.
pub fn plan_fan_out(sessions: &Vec<LinkedSession>, origin: Option<&str>) -> (r: Vec<ChangeAppend>)
    requires
        forall|i: int| 0 <= i < sessions@.len() ==> (#[trigger] sessions@[i]).head_revision < i64::MAX,
    ensures
        appends_view(r@) == fan_out(sessions@, crate::text::opt_str(origin), 0),
{
    let mut out: Vec<ChangeAppend> = Vec::new();
    let ghost o = crate::text::opt_str(origin);
    let mut i: usize = 0;
    proof {
        assert(appends_view(out@) + fan_out(sessions@, o, 0) =~= fan_out(sessions@, o, 0));
    }
    while i < sessions.len()
        invariant
            i <= sessions@.len(),
            o == crate::text::opt_str(origin),
            forall|k: int| 0 <= k < sessions@.len() ==> (#[trigger] sessions@[k]).head_revision < i64::MAX,
            fan_out(sessions@, o, 0) == appends_view(out@) + fan_out(sessions@, o, i as int),
        decreases sessions@.len() - i,
    {
        let s = &sessions[i];
        let from_origin = match origin {
            Some(id) => text_eq(id, s.id.as_str()),
            None => false,
        };
        let ghost before = appends_view(out@);
        if !(from_origin || s.already_present) {
            out.push(ChangeAppend { session_id: s.id.clone(), revision: s.head_revision + 1, source_sequence: s.next_sequence });
            proof {
                let x = (s.id@, s.head_revision + 1, s.next_sequence);
                assert(appends_view(out@) =~= before.push(x));
                assert(before.push(x) + fan_out(sessions@, o, i as int + 1) =~= before + (seq![x] + fan_out(sessions@, o, i as int + 1)));
            }
        }
        i = i + 1;
    }
    proof {
        assert(appends_view(out@) + Seq::empty() =~= appends_view(out@));
    }
    out
}

} // verus!

verus! {

/// Entry `e` is `key` with the text `value`.
pub open spec fn text_entry(e: (String, Json), key: Seq<char>, value: Seq<char>) -> bool {
    &&& e.0@ == key
    &&& e.1 matches Json::Text(t) && t@ == value
}

/// Entry `e` is `key` with the text `value`, or null when there is none.
pub open spec fn opt_text_entry(e: (String, Json), key: Seq<char>, value: Option<Seq<char>>) -> bool {
    e.0@ == key && match value {
        Some(v) => e.1 matches Json::Text(t) && t@ == v,
        None => e.1 is Null,
    }
}

/// Entry `e` is `key` with the document `value`, or null when there is none.
pub open spec fn opt_json_entry(e: (String, Json), key: Seq<char>, value: Option<Json>) -> bool {
    e.0@ == key && match value {
        Some(v) => e.1 == v,
        None => e.1 is Null,
    }
}

fn text_value(s: &str) -> (j: Json)
    ensures
        j matches Json::Text(t) && t@ == s@,
{
    Json::Text(s.to_owned())
}

fn opt_text_value(s: Option<&str>) -> (j: Json)
    ensures
        match s {
            Some(v) => j matches Json::Text(t) && t@ == v@,
            None => j is Null,
        },
{
    match s {
        Some(v) => Json::Text(v.to_owned()),
        None => Json::Null,
    }
}

fn opt_json_value(v: Option<Json>) -> (j: Json)
    ensures
        match v {
            Some(x) => j == x,
            None => j is Null,
        },
{
    match v {
        Some(x) => x,
        None => Json::Null,
    }
}

/// The request an opening is identified by: its lineage key, mode, capture, parent
/// session, review context and Task, each null when absent.
pub fn open_request_document(
    lineage_key: &str,
    mode: &str,
    capture: Option<Json>,
    parent_session_id: Option<&str>,
    review_context: Option<Json>,
    task_id: Option<&str>,
) -> (r: Json)
    ensures
        r matches Json::Object(es) && es@.len() == 6
            && text_entry(es@[0], "lineageKey"@, lineage_key@)
            && text_entry(es@[1], "mode"@, mode@)
            && opt_json_entry(es@[2], "capture"@, capture)
            && opt_text_entry(es@[3], "parentSessionId"@, crate::text::opt_str(parent_session_id))
            && opt_json_entry(es@[4], "reviewContext"@, review_context)
            && opt_text_entry(es@[5], "taskId"@, crate::text::opt_str(task_id)),
{
    let mut es: Vec<(String, Json)> = Vec::new();
    es.push(("lineageKey".to_owned(), text_value(lineage_key)));
    es.push(("mode".to_owned(), text_value(mode)));
    es.push(("capture".to_owned(), opt_json_value(capture)));
    es.push(("parentSessionId".to_owned(), opt_text_value(parent_session_id)));
    es.push(("reviewContext".to_owned(), opt_json_value(review_context)));
    es.push(("taskId".to_owned(), opt_text_value(task_id)));
    Json::Object(es)
}

/// The request an append is identified by: the session, the head revision expected, the
/// event kind and payload, when it was observed and the event it supersedes.
pub fn append_request_document(
    session_id: &str,
    expected_revision: i64,
    kind: &str,
    event: Json,
    observed_at: Option<&str>,
    supersedes_event_id: Option<&str>,
) -> (r: Json)
    ensures
        r matches Json::Object(es) && es@.len() == 6
            && text_entry(es@[0], "sessionId"@, session_id@)
            && es@[1].0@ == "expectedHeadRevision"@
            && (es@[1].1 matches Json::Number(n) && n@ == integer_text(expected_revision as int))
            && text_entry(es@[2], "kind"@, kind@)
            && es@[3].0@ == "event"@ && es@[3].1 == event
            && opt_text_entry(es@[4], "observedAt"@, crate::text::opt_str(observed_at))
            && opt_text_entry(es@[5], "supersedesEventId"@, crate::text::opt_str(supersedes_event_id)),
{
    let mut es: Vec<(String, Json)> = Vec::new();
    es.push(("sessionId".to_owned(), text_value(session_id)));
    es.push(("expectedHeadRevision".to_owned(), Json::Number(render_integer(expected_revision))));
    es.push(("kind".to_owned(), text_value(kind)));
    es.push(("event".to_owned(), event));
    es.push(("observedAt".to_owned(), opt_text_value(observed_at)));
    es.push(("supersedesEventId".to_owned(), opt_text_value(supersedes_event_id)));
    Json::Object(es)
}

/// The stored hash and response under an operation ID, viewed.
pub open spec fn stored_view(stored: Option<(String, Json)>) -> Option<(Seq<char>, Json)> {
    match stored {
        Some((h, v)) => Some((h@, v)),
        None => None,
    }
}

/// Replays an operation identified by its request document, as `replay_response` does
/// with the hash of that document.
pub fn operation_replay(stored: Option<(String, Json)>, request: &Json) -> (r: Result<Option<Json>, AppError>)
    requires
        stored matches Some((_, v)) ==> v is Object,
    ensures
        match replay_outcome(stored_view(stored), request_digest(*request)) {
            Ok(None) => r matches Ok(None),
            Ok(Some(v)) => r matches Ok(Some(m)) && marked_replayed(v, m),
            Err(d) => outcome(r, Err(d)),
        },
{
    let hash = request_hash(request);
    replay_response(stored, hash.as_str())
}

/// Replays an advance identified by its request document, as `advance_replay` does with
/// the hash of that document.
pub fn advance_request_replay(stored: Option<(String, Json)>, request: &Json) -> (r: Result<Option<Json>, AppError>)
    requires
        stored matches Some((_, v)) ==> v is Object,
    ensures
        match replay_outcome(stored_view(stored), request_digest(*request)) {
            Ok(None) => r matches Ok(None),
            Ok(Some(v)) => if field(v, "decision"@) is None {
                r matches Ok(None)
            } else {
                r matches Ok(Some(m)) && marked_replayed(v, m)
            },
            Err(d) => outcome(r, Err(d)),
        },
{
    let hash = request_hash(request);
    advance_replay(stored, hash.as_str())
}

/// Checks the review guarding an opening against the opening's request document, as
/// `check_review_gate` does with the hash of that document.
pub fn request_review_gate(stage: ReviewStage, stored: Option<&StoredReview>, request: &Json, now: &str, decision_supplied: bool) -> (r: Result<(), AppError>)
    ensures
        refused(
            r,
            review_gate(
                stage,
                match stored {
                    Some(s) => Some(*s),
                    None => None,
                },
                request_digest(*request),
                now@,
                decision_supplied,
            ),
        ),
{
    let hash = request_hash(request);
    check_review_gate(stage, stored, hash.as_str(), now, decision_supplied)
}

/// The key a review stage is answered under.
pub open spec fn stage_key(stage: ReviewStage) -> Seq<char> {
    match stage {
        ReviewStage::Capture => "capture"@,
        ReviewStage::TaskContinuation => "task_continuation"@,
    }
}

/// The answer while a review waits for a decision: the review, its stage, what it shows,
/// when it expires, that nothing was created, and that a decision is required.
pub fn preview_answer(stage: ReviewStage, review_id: &str, preview: Json, expires_at: &str) -> (r: Json)
    ensures
        r matches Json::Object(es) && es@.len() == 6
            && text_entry(es@[0], "reviewState"@, review_id@)
            && text_entry(es@[1], "stage"@, stage_key(stage))
            && es@[2].0@ == "preview"@ && es@[2].1 == preview
            && text_entry(es@[3], "expiresAt"@, expires_at@)
            && es@[4].0@ == "created"@ && es@[4].1 == Json::Bool(false)
            && es@[5].0@ == "decisionRequired"@ && es@[5].1 == Json::Bool(true),
{
    let key = match stage {
        ReviewStage::Capture => "capture",
        ReviewStage::TaskContinuation => "task_continuation",
    };
    proof {
        reveal_strlit("capture");
        reveal_strlit("task_continuation");
    }
    let mut es: Vec<(String, Json)> = Vec::new();
    es.push(("reviewState".to_owned(), text_value(review_id)));
    es.push(("stage".to_owned(), text_value(key)));
    es.push(("preview".to_owned(), preview));
    es.push(("expiresAt".to_owned(), text_value(expires_at)));
    es.push(("created".to_owned(), Json::Bool(false)));
    es.push(("decisionRequired".to_owned(), Json::Bool(true)));
    Json::Object(es)
}

/// The answer when a review is rejected or cancelled: the decision, and that nothing was
/// created.
pub fn declined_answer(decision: &str) -> (r: Json)
    ensures
        r matches Json::Object(es) && es@.len() == 2
            && text_entry(es@[0], "decision"@, decision@)
            && es@[1].0@ == "created"@ && es@[1].1 == Json::Bool(false),
{
    let mut es: Vec<(String, Json)> = Vec::new();
    es.push(("decision".to_owned(), text_value(decision)));
    es.push(("created".to_owned(), Json::Bool(false)));
    Json::Object(es)
}

/// A session already opened for the same conversation lineage.
#[derive(Debug, Clone)]
pub struct ExistingSession {
    pub session_id: String,
    pub capture_id: Option<String>,
    pub head_event_id: String,
    pub head_revision: i64,
    pub state: String,
}

/// The answer for an opening that finds its session already open: the session as it
/// stands, not created, not a replay, with its resource URI.
pub fn existing_session_answer(s: &ExistingSession) -> (r: Json)
    ensures
        r matches Json::Object(es) && es@.len() == 8
            && text_entry(es@[0], "sessionId"@, s.session_id@)
            && opt_text_entry(es@[1], "captureId"@, match s.capture_id { Some(c) => Some(c@), None => None })
            && text_entry(es@[2], "headEventId"@, s.head_event_id@)
            && es@[3].0@ == "headRevision"@
            && (es@[3].1 matches Json::Number(n) && n@ == integer_text(s.head_revision as int))
            && text_entry(es@[4], "state"@, s.state@)
            && es@[5].0@ == "created"@ && es@[5].1 == Json::Bool(false)
            && es@[6].0@ == "deduplicated"@ && es@[6].1 == Json::Bool(false)
            && text_entry(es@[7], "resourceUri"@, session_uri(s.session_id@)),
{
    let mut es: Vec<(String, Json)> = Vec::new();
    es.push(("sessionId".to_owned(), text_value(s.session_id.as_str())));
    let capture = match &s.capture_id {
        Some(c) => Json::Text(c.clone()),
        None => Json::Null,
    };
    es.push(("captureId".to_owned(), capture));
    es.push(("headEventId".to_owned(), text_value(s.head_event_id.as_str())));
    es.push(("headRevision".to_owned(), Json::Number(render_integer(s.head_revision))));
    es.push(("state".to_owned(), text_value(s.state.as_str())));
    es.push(("created".to_owned(), Json::Bool(false)));
    es.push(("deduplicated".to_owned(), Json::Bool(false)));
    es.push(("resourceUri".to_owned(), Json::Text(resource_uri(s.session_id.as_str()))));
    Json::Object(es)
}

/// Where an opening goes once its connection and operation are checked.
#[derive(Debug)]
pub enum OpenStep {
    /// The same request was answered before: give back this answer.
    Replay(Json),
    /// A session is already open for this lineage: answer it.
    Existing,
    /// Continue the named Task, under a Task continuation review.
    ContinueTask(String),
    /// Open a session from this capture, under a capture review.
    Capture { title: String, summary: String },
}

/// The first decisions of an opening: the connection must be active; the same request
/// under the operation ID is replayed, a different one refused; a session already open
/// for the lineage is answered; otherwise the mode says what is opened: a Task
/// continuation needs a Task, a resume finds nothing, and a new session needs a capture
/// with a title of at most 200 bytes and a summary of at most 20000 bytes.
pub fn open_session_step(
    connection_active: bool,
    stored: Option<(String, Json)>,
    request: &Json,
    existing: bool,
    mode: &str,
    task_id: Option<&str>,
    capture: Option<(Option<&str>, Option<&str>)>,
) -> (r: Result<OpenStep, AppError>)
    requires
        stored matches Some((_, v)) ==> v is Object,
    ensures
        !connection_active ==> (r matches Err(e) && plain_error(e, "not_found_or_not_visible"@, "Connection is unavailable"@)),
        connection_active ==> match replay_outcome(stored_view(stored), request_digest(*request)) {
            Err(d) => r matches Err(e) && denied(e, d),
            Ok(Some(v)) => r matches Ok(OpenStep::Replay(m)) && marked_replayed(v, m),
            Ok(None) => if existing {
                r matches Ok(OpenStep::Existing)
            } else if mode@ == "continue_task"@ {
                match task_id {
                    Some(t) => r matches Ok(OpenStep::ContinueTask(id)) && id@ == t@,
                    None => r matches Err(e) && plain_error(e, "invalid_input"@, "taskId is required"@),
                }
            } else if mode@ == "resume"@ {
                r matches Err(e) && plain_error(e, "not_found_or_not_visible"@, "Work session is unavailable"@)
            } else {
                match capture {
                    None => r matches Err(e) && plain_error(e, "invalid_input"@, "capture is required"@),
                    Some((title, summary)) => match required_text(crate::text::opt_str(title), "title"@, 200) {
                        Err(d) => r matches Err(e) && denied(e, d),
                        Ok(t) => match required_text(crate::text::opt_str(summary), "summary"@, 20000) {
                            Err(d) => r matches Err(e) && denied(e, d),
                            Ok(u) => r matches Ok(OpenStep::Capture { title: a, summary: b }) && a@ == t && b@ == u,
                        },
                    },
                }
            },
        },
{
    if !connection_active {
        return Err(AppError::new("not_found_or_not_visible", "Connection is unavailable"));
    }
    match operation_replay(stored, request) {
        Err(e) => return Err(e),
        Ok(Some(m)) => return Ok(OpenStep::Replay(m)),
        Ok(None) => {},
    }
    if existing {
        return Ok(OpenStep::Existing);
    }
    if text_eq(mode, "continue_task") {
        return match task_id {
            Some(t) => Ok(OpenStep::ContinueTask(t.to_owned())),
            None => Err(AppError::new("invalid_input", "taskId is required")),
        };
    }
    if text_eq(mode, "resume") {
        return Err(AppError::new("not_found_or_not_visible", "Work session is unavailable"));
    }
    match capture {
        None => Err(AppError::new("invalid_input", "capture is required")),
        Some((title, summary)) => {
            let t = match require_text(title, "title", 200) {
                Ok(t) => t,
                Err(e) => return Err(e),
            };
            let u = match require_text(summary, "summary", 20000) {
                Ok(u) => u,
                Err(e) => return Err(e),
            };
            Ok(OpenStep::Capture { title: t, summary: u })
        },
    }
}

/// Where the review guarding an opening leads: a stored review must pass its gate;
/// without one, the new review is shown for a decision; with one, the supplied decision
/// on it says whether to open, decline or keep waiting.
pub fn open_review(stage: ReviewStage, stored: Option<&StoredReview>, request: &Json, now: &str, supplied: Option<(&str, &str)>) -> (r: Result<ReviewStep, AppError>)
    ensures
        match review_gate(
            stage,
            match stored {
                Some(s) => Some(*s),
                None => None,
            },
            request_digest(*request),
            now@,
            supplied is Some,
        ) {
            Some(d) => r matches Err(e) && denied(e, d),
            None => match stored {
                None => r == Ok::<ReviewStep, AppError>(ReviewStep::Preview),
                Some(s) => outcome(
                    r,
                    review_step(
                        stage,
                        s.id@,
                        match supplied {
                            Some((i, d)) => Some((i@, d@)),
                            None => None,
                        },
                    ),
                ),
            },
        },
{
    match request_review_gate(stage, stored, request, now, supplied.is_some()) {
        Err(e) => return Err(e),
        Ok(()) => {},
    }
    match stored {
        None => Ok(ReviewStep::Preview),
        Some(s) => decide_review(stage, s.id.as_str(), supplied),
    }
}

} // verus!
