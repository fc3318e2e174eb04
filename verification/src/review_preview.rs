//! Preparing a review: the bounded review envelope, reuse of a pending review for the
//! same request, the Knowledge draft a review may act on, and the previews a person is
//! shown of the Tasks and Problems under review.

use vstd::prelude::*;
use crate::digest::{request_digest, request_hash};
use crate::evidence::{copied_or_null, copy_json, field, get_field, same_json, Json};
use crate::overview::{bytes_lt, text_precedes};
use crate::text::{bounded_overview_text, natural_text, overview_text, render_natural, text_eq, utf8};
use crate::work_state::{plain_error, AppError};

verus! {

/// The largest review envelope that is stored, in bytes.
pub open spec fn envelope_limit() -> nat {
    262144
}

/// Checks the size of a review envelope as written.
pub fn check_envelope(bytes: usize) -> (r: Result<(), AppError>)
    ensures
        bytes <= envelope_limit() ==> r is Ok,
        bytes > envelope_limit() ==> (r matches Err(e) && plain_error(e, "invalid_input"@, "Review content exceeds the bounded payload limit"@)),
{
    if bytes > 262144 {
        Err(AppError::new("invalid_input", "Review content exceeds the bounded payload limit"))
    } else {
        Ok(())
    }
}

/// A review already stored for the same connection, operation and action.
#[derive(Debug, Clone)]
pub struct StoredReview {
    pub id: String,
    pub payload_hash: String,
    pub state: String,
    pub expires_at: String,
}

/// Decides on a review request against one stored for the same operation: the stored
/// review is reused when it is for the same content, still pending and not expired;
/// with none stored, a new review is made (`None`).
pub fn reuse_review(existing: Option<&StoredReview>, request_hash: &str, now: &str) -> (r: Result<Option<String>, AppError>)
    ensures
        match existing {
            None => r == Ok::<Option<String>, AppError>(None),
            Some(s) => if s.payload_hash@ != request_hash@ {
                r matches Err(e) && plain_error(e, "idempotency_conflict"@, "Reviewed content changed"@)
            } else if s.state@ != "pending"@ || bytes_lt(utf8(s.expires_at@), utf8(now@)) {
                r matches Err(e) && plain_error(e, "challenge_replayed"@, "Create a fresh review operation"@)
            } else {
                r matches Ok(Some(id)) && id@ == s.id@
            },
        },
{
    match existing {
        None => Ok(None),
        Some(s) => {
            if !text_eq(s.payload_hash.as_str(), request_hash) {
                return Err(AppError::new("idempotency_conflict", "Reviewed content changed"));
            }
            if !text_eq(s.state.as_str(), "pending") || text_precedes(s.expires_at.as_str(), now) {
                return Err(AppError::new("challenge_replayed", "Create a fresh review operation"));
            }
            Ok(Some(s.id.clone()))
        },
    }
}

/// A Knowledge draft as a review of it reads it.
#[derive(Debug, Clone)]
pub struct DraftForReview {
    pub content_hash: String,
    /// The source hash its lineage records, if any.
    pub source_hash: Option<String>,
    pub state: String,
}

/// The state a draft must be in for a review: published to withdraw it, a draft to
/// publish it.
pub open spec fn reviewable_state(withdraw: bool) -> Seq<char> {
    if withdraw { "published"@ } else { "draft"@ }
}

/// Checks that a Knowledge draft may be reviewed: it exists, it is the content and source
/// the person deciding saw, and it is in the state the decision acts on.
pub fn check_draft_for_review(draft: Option<&DraftForReview>, content_hash: &str, source_hash: &str, withdraw: bool) -> (r: Result<(), AppError>)
    ensures
        match draft {
            None => r matches Err(e) && plain_error(e, "not_found_or_not_visible"@, "Knowledge draft is unavailable"@),
            Some(d) => if d.content_hash@ != content_hash@ || !(d.source_hash matches Some(h) && h@ == source_hash@) {
                r matches Err(e) && plain_error(e, "draft_conflict"@, "Knowledge draft body or source changed; refresh before review"@)
            } else if d.state@ != reviewable_state(withdraw) {
                r matches Err(e) && plain_error(e, "workflow_precondition"@, "Knowledge draft must be "@ + reviewable_state(withdraw))
            } else {
                r is Ok
            },
        },
{
    let d = match draft {
        Some(d) => d,
        None => return Err(AppError::new("not_found_or_not_visible", "Knowledge draft is unavailable")),
    };
    let same_source = match &d.source_hash {
        Some(h) => text_eq(h.as_str(), source_hash),
        None => false,
    };
    if !text_eq(d.content_hash.as_str(), content_hash) || !same_source {
        return Err(AppError::new("draft_conflict", "Knowledge draft body or source changed; refresh before review"));
    }
    let expected = if withdraw { "published" } else { "draft" };
    if !text_eq(d.state.as_str(), expected) {
        let mut message = "Knowledge draft must be ".to_owned();
        message.append(expected);
        return Err(AppError::new("workflow_precondition", message.as_str()));
    }
    Ok(())
}

/// A field whose text a preview bounds.
pub open spec fn previewed_text_key(k: Seq<char>) -> bool {
    k == "statement"@ || k == "detail"@
}

/// `out` is a Problem revision as previewed: its statement and detail texts collapsed and
/// cut to 4000 characters, every other field copied.
pub open spec fn previewed_revision(rev: Json, out: Json) -> bool {
    match rev {
        Json::Object(entries) => {
            &&& out is Object
            &&& out->Object_0@.len() == entries@.len()
            &&& forall|i: int| 0 <= i < entries@.len() ==> {
                let e = entries@[i];
                &&& (#[trigger] out->Object_0@[i]).0@ == e.0@
                &&& if previewed_text_key(e.0@) && e.1 is Text {
                    out->Object_0@[i].1 matches Json::Text(u) && u@ == overview_text(e.1->Text_0@, 4000)
                } else {
                    same_json(e.1, out->Object_0@[i].1)
                }
            }
        },
        _ => same_json(rev, out),
    }
}

/// `out` is a Problem as previewed: its `revision` object previewed, every other field
/// copied.
pub open spec fn previewed_problem(problem: Json, out: Json) -> bool {
    match problem {
        Json::Object(entries) => {
            &&& out is Object
            &&& out->Object_0@.len() == entries@.len()
            &&& forall|i: int| 0 <= i < entries@.len() ==> {
                let e = entries@[i];
                &&& (#[trigger] out->Object_0@[i]).0@ == e.0@
                &&& if e.0@ == "revision"@ {
                    previewed_revision(e.1, out->Object_0@[i].1)
                } else {
                    same_json(e.1, out->Object_0@[i].1)
                }
            }
        },
        _ => same_json(problem, out),
    }
}

fn preview_revision(rev: &Json) -> (r: Json)
    ensures
        previewed_revision(*rev, r),
{
    match rev {
        Json::Object(entries) => {
            let mut outs: Vec<(String, Json)> = Vec::new();
            let mut i: usize = 0;
            while i < entries.len()
                invariant
                    i <= entries@.len(),
                    outs@.len() == i,
                    forall|k: int| 0 <= k < i ==> {
                        let e = entries@[k];
                        &&& (#[trigger] outs@[k]).0@ == e.0@
                        &&& if previewed_text_key(e.0@) && e.1 is Text {
                            outs@[k].1 matches Json::Text(u) && u@ == overview_text(e.1->Text_0@, 4000)
                        } else {
                            same_json(e.1, outs@[k].1)
                        }
                    },
                decreases entries.len() - i,
            {
                let key = entries[i].0.as_str();
                let bounded = text_eq(key, "statement") || text_eq(key, "detail");
                let o = match &entries[i].1 {
                    Json::Text(t) => if bounded {
                        Json::Text(bounded_overview_text(t.as_str(), 4000))
                    } else {
                        copy_json(&entries[i].1)
                    },
                    _ => copy_json(&entries[i].1),
                };
                outs.push((entries[i].0.clone(), o));
                i = i + 1;
            }
            Json::Object(outs)
        },
        _ => copy_json(rev),
    }
}

/// The preview of a Problem under review: its revision's statement and detail bounded.
pub fn preview_problem(problem: &Json) -> (r: Json)
    ensures
        previewed_problem(*problem, r),
{
    match problem {
        Json::Object(entries) => {
            let mut outs: Vec<(String, Json)> = Vec::new();
            let mut i: usize = 0;
            while i < entries.len()
                invariant
                    i <= entries@.len(),
                    outs@.len() == i,
                    forall|k: int| 0 <= k < i ==> {
                        let e = entries@[k];
                        &&& (#[trigger] outs@[k]).0@ == e.0@
                        &&& if e.0@ == "revision"@ {
                            previewed_revision(e.1, outs@[k].1)
                        } else {
                            same_json(e.1, outs@[k].1)
                        }
                    },
                decreases entries.len() - i,
            {
                let o = if text_eq(entries[i].0.as_str(), "revision") {
                    preview_revision(&entries[i].1)
                } else {
                    copy_json(&entries[i].1)
                };
                outs.push((entries[i].0.clone(), o));
                i = i + 1;
            }
            Json::Object(outs)
        },
        _ => copy_json(problem),
    }
}

/// How many items an array field of a snapshot holds; none when it is no array.
pub open spec fn count_of(snapshot: Json, key: Seq<char>) -> nat {
    match field(snapshot, key) {
        Some(Json::Array(items)) => items@.len(),
        _ => 0,
    }
}

/// `out` holds the count of the array field `key` of `snapshot`, as a number.
pub open spec fn count_entry(f: (String, Json), key: Seq<char>, snapshot: Json, name: Seq<char>) -> bool {
    &&& f.0@ == name
    &&& f.1 matches Json::Number(n) && n@ == natural_text(count_of(snapshot, key))
}

/// The Task a snapshot is about; null when it has none.
pub open spec fn task_of(snapshot: Json) -> Json {
    match field(snapshot, "task"@) {
        Some(t) => t,
        None => Json::Null,
    }
}

/// `out` is the preview of a Task continuation snapshot: the Task's identity, state and
/// hashes with its title collapsed and cut to 240 characters, its Problem links and
/// relationships, counts of its activity, and the hash of the whole snapshot as written
/// (`source_hash`).
pub open spec fn continuation_preview_of(snapshot: Json, source_hash: Seq<char>, out: Json) -> bool {
    &&& out is Object
    &&& {
        let f = out->Object_0@;
        let task = task_of(snapshot);
        &&& f.len() == 5
        &&& f[0].0@ == "task"@
        &&& f[0].1 is Object
        &&& {
            let t = f[0].1->Object_0@;
            &&& t.len() == 6
            &&& t[0].0@ == "taskId"@ && copied_or_null(task, "taskId"@, t[0].1)
            &&& t[1].0@ == "taskRevision"@ && copied_or_null(task, "taskRevision"@, t[1].1)
            &&& t[2].0@ == "title"@ && (t[2].1 matches Json::Text(u) && u@ == overview_text(
                match field(task, "title"@) { Some(Json::Text(x)) => x@, _ => Seq::empty() }, 240))
            &&& t[3].0@ == "state"@ && copied_or_null(task, "state"@, t[3].1)
            &&& t[4].0@ == "contentHash"@ && copied_or_null(task, "contentHash"@, t[4].1)
            &&& t[5].0@ == "workspaceRevision"@ && copied_or_null(task, "workspaceRevision"@, t[5].1)
        }
        &&& f[1].0@ == "problemLinks"@ && copied_or_null(snapshot, "problemLinks"@, f[1].1)
        &&& f[2].0@ == "relationships"@ && copied_or_null(snapshot, "relationships"@, f[2].1)
        &&& f[3].0@ == "activity"@
        &&& f[3].1 is Object
        &&& {
            let a = f[3].1->Object_0@;
            &&& a.len() == 5
            &&& count_entry(a[0], "workLog"@, snapshot, "workLogCount"@)
            &&& count_entry(a[1], "checklist"@, snapshot, "checklistCount"@)
            &&& count_entry(a[2], "decisions"@, snapshot, "decisionCount"@)
            &&& count_entry(a[3], "completions"@, snapshot, "completionCount"@)
            &&& count_entry(a[4], "knowledge"@, snapshot, "knowledgeCount"@)
        }
        &&& f[4].0@ == "sourceHash"@ && (f[4].1 matches Json::Text(h) && h@ == source_hash)
    }
}

fn copy_field_or_null(value: &Json, key: &str) -> (r: Json)
    ensures
        copied_or_null(*value, key@, r),
{
    match get_field(value, key) {
        Some(v) => copy_json(v),
        None => Json::Null,
    }
}

fn count_field(snapshot: &Json, key: &str, name: &str) -> (r: (String, Json))
    ensures
        count_entry(r, key@, *snapshot, name@),
{
    let n: usize = match get_field(snapshot, key) {
        Some(Json::Array(items)) => items.len(),
        _ => 0,
    };
    (name.to_owned(), Json::Number(render_natural(n as u64)))
}

fn task_title(task: &Json) -> (r: String)
    ensures
        r@ == overview_text(match field(*task, "title"@) { Some(Json::Text(x)) => x@, _ => Seq::empty() }, 240),
{
    match get_field(task, "title") {
        Some(Json::Text(x)) => bounded_overview_text(x.as_str(), 240),
        _ => {
            let empty = String::new();
            bounded_overview_text(empty.as_str(), 240)
        },
    }
}

/// The preview of a Task continuation snapshot shown for review; `source_hash` is the
/// hash of the snapshot as written.
pub fn continuation_preview(snapshot: &Json, source_hash: &str) -> (r: Json)
    ensures
        continuation_preview_of(*snapshot, source_hash@, r),
{
    let null = Json::Null;
    let task: &Json = match get_field(snapshot, "task") {
        Some(t) => t,
        None => &null,
    };
    let mut t: Vec<(String, Json)> = Vec::new();
    t.push(("taskId".to_owned(), copy_field_or_null(task, "taskId")));
    t.push(("taskRevision".to_owned(), copy_field_or_null(task, "taskRevision")));
    t.push(("title".to_owned(), Json::Text(task_title(task))));
    t.push(("state".to_owned(), copy_field_or_null(task, "state")));
    t.push(("contentHash".to_owned(), copy_field_or_null(task, "contentHash")));
    t.push(("workspaceRevision".to_owned(), copy_field_or_null(task, "workspaceRevision")));
    let mut a: Vec<(String, Json)> = Vec::new();
    a.push(count_field(snapshot, "workLog", "workLogCount"));
    a.push(count_field(snapshot, "checklist", "checklistCount"));
    a.push(count_field(snapshot, "decisions", "decisionCount"));
    a.push(count_field(snapshot, "completions", "completionCount"));
    a.push(count_field(snapshot, "knowledge", "knowledgeCount"));
    let mut f: Vec<(String, Json)> = Vec::new();
    f.push(("task".to_owned(), Json::Object(t)));
    f.push(("problemLinks".to_owned(), copy_field_or_null(snapshot, "problemLinks")));
    f.push(("relationships".to_owned(), copy_field_or_null(snapshot, "relationships")));
    f.push(("activity".to_owned(), Json::Object(a)));
    f.push(("sourceHash".to_owned(), Json::Text(source_hash.to_owned())));
    Json::Object(f)
}

/// What a person decided on a review.
#[derive(Debug, Clone, Copy, PartialEq, Eq, Structural)]
pub enum ReviewVerdict {
    Accept,
    Reject,
    Cancel,
}

/// The verdict a decision word names.
pub open spec fn verdict_of(decision: Seq<char>) -> Option<ReviewVerdict> {
    if decision == "accept"@ {
        Some(ReviewVerdict::Accept)
    } else if decision == "reject"@ {
        Some(ReviewVerdict::Reject)
    } else if decision == "cancel"@ {
        Some(ReviewVerdict::Cancel)
    } else {
        None
    }
}

/// The outcome of deciding a stored review, by the checks in their order.
pub open spec fn review_consumption(decision: Seq<char>, stored: Option<(Seq<char>, Seq<char>, Seq<char>)>, request_hash: Seq<char>, now: Seq<char>) -> Result<ReviewVerdict, (Seq<char>, Seq<char>)> {
    match verdict_of(decision) {
        None => Err(("invalid_input"@, "Invalid review decision"@)),
        Some(v) => match stored {
            None => Err(("invalid_input"@, "Review is unavailable"@)),
            Some((hash, state, expires)) => if hash != request_hash {
                Err(("invalid_input"@, "Reviewed payload changed"@))
            } else if state != "pending"@ {
                Err(("challenge_replayed"@, "Review was already decided"@))
            } else if bytes_lt(utf8(expires), utf8(now)) {
                Err(("challenge_expired"@, "Review expired"@))
            } else {
                Ok(v)
            },
        },
    }
}

/// Checks a decision on a stored review: a known decision, on the review of this very
/// request, still pending and not expired.
pub fn consume_review(decision: &str, stored: Option<&StoredReview>, request_hash: &str, now: &str) -> (r: Result<ReviewVerdict, AppError>)
    ensures
        match review_consumption(decision@, match stored {
            Some(s) => Some((s.payload_hash@, s.state@, s.expires_at@)),
            None => None,
        }, request_hash@, now@) {
            Ok(v) => r == Ok::<ReviewVerdict, AppError>(v),
            Err((code, message)) => r matches Err(e) && plain_error(e, code, message),
        },
{
    let v = if text_eq(decision, "accept") {
        ReviewVerdict::Accept
    } else if text_eq(decision, "reject") {
        ReviewVerdict::Reject
    } else if text_eq(decision, "cancel") {
        ReviewVerdict::Cancel
    } else {
        return Err(AppError::new("invalid_input", "Invalid review decision"));
    };
    let s = match stored {
        Some(s) => s,
        None => return Err(AppError::new("invalid_input", "Review is unavailable")),
    };
    if !text_eq(s.payload_hash.as_str(), request_hash) {
        return Err(AppError::new("invalid_input", "Reviewed payload changed"));
    }
    if !text_eq(s.state.as_str(), "pending") {
        return Err(AppError::new("challenge_replayed", "Review was already decided"));
    }
    if text_precedes(s.expires_at.as_str(), now) {
        return Err(AppError::new("challenge_expired", "Review expired"));
    }
    Ok(v)
}

/// The scope a connection needs to decide a review of this action.
pub open spec fn review_scope_of(action: Seq<char>) -> Seq<char> {
    if action == "task_knowledge_publish"@ || action == "task_knowledge_withdraw"@ {
        "knowledge:publish"@
    } else if action == "task_knowledge_draft"@ || action == "task_knowledge_correction"@ || action == "task_knowledge_regenerate"@ {
        "knowledge:draft:write"@
    } else {
        "session:write"@
    }
}

/// The scope a connection needs to decide a review of this action.
pub fn review_scope(action: &str) -> (r: &'static str)
    ensures
        r@ == review_scope_of(action@),
{
    if text_eq(action, "task_knowledge_publish") || text_eq(action, "task_knowledge_withdraw") {
        "knowledge:publish"
    } else if text_eq(action, "task_knowledge_draft") || text_eq(action, "task_knowledge_correction")
        || text_eq(action, "task_knowledge_regenerate") {
        "knowledge:draft:write"
    } else {
        "session:write"
    }
}

/// Whether deciding a review queues a publication job: only an accepted publication or
/// withdrawal does.
pub fn queues_publication(verdict: ReviewVerdict, action: &str) -> (r: bool)
    ensures
        r == (verdict == ReviewVerdict::Accept && (action@ == "task_knowledge_publish"@ || action@ == "task_knowledge_withdraw"@)),
{
    verdict == ReviewVerdict::Accept && (text_eq(action, "task_knowledge_publish") || text_eq(action, "task_knowledge_withdraw"))
}

/// Whether two documents are the same.
pub fn json_equal(a: &Json, b: &Json) -> (r: bool)
    ensures
        r == same_json(*a, *b),
    decreases a,
{
    match (a, b) {
        (Json::Null, Json::Null) => true,
        (Json::Bool(x), Json::Bool(y)) => *x == *y,
        (Json::Number(x), Json::Number(y)) => text_eq(x.as_str(), y.as_str()),
        (Json::Text(x), Json::Text(y)) => text_eq(x.as_str(), y.as_str()),
        (Json::Array(xs), Json::Array(ys)) => {
            if xs.len() != ys.len() {
                return false;
            }
            let mut i: usize = 0;
            while i < xs.len()
                invariant
                    *a == Json::Array(*xs),
                    *b == Json::Array(*ys),
                    xs@.len() == ys@.len(),
                    i <= xs@.len(),
                    forall|k: int| 0 <= k < i ==> same_json(xs@[k], #[trigger] ys@[k]),
                decreases xs.len() - i,
            {
                proof {
                    assert(decreases_to!(*a => a->Array_0));
                    assert(decreases_to!(*xs => xs@));
                    assert(decreases_to!(xs@ => xs@[i as int]));
                }
                if !json_equal(&xs[i], &ys[i]) {
                    return false;
                }
                i = i + 1;
            }
            true
        },
        (Json::Object(xs), Json::Object(ys)) => {
            if xs.len() != ys.len() {
                return false;
            }
            let mut i: usize = 0;
            while i < xs.len()
                invariant
                    *a == Json::Object(*xs),
                    *b == Json::Object(*ys),
                    xs@.len() == ys@.len(),
                    i <= xs@.len(),
                    forall|k: int| 0 <= k < i ==> {
                        &&& (#[trigger] ys@[k]).0@ == xs@[k].0@
                        &&& same_json(xs@[k].1, ys@[k].1)
                    },
                decreases xs.len() - i,
            {
                proof {
                    assert(decreases_to!(*a => a->Object_0));
                    assert(decreases_to!(*xs => xs@));
                    assert(decreases_to!(xs@ => xs@[i as int]));
                    assert(decreases_to!(xs@[i as int] => xs@[i as int].1));
                }
                if !text_eq(xs[i].0.as_str(), ys[i].0.as_str()) {
                    return false;
                }
                if !json_equal(&xs[i].1, &ys[i].1) {
                    return false;
                }
                i = i + 1;
            }
            true
        },
        _ => false,
    }
}

/// Checks that the Task material under review is still what the person decided on.
pub fn check_reviewed_target(reviewed: &Json, current: &Json) -> (r: Result<(), AppError>)
    ensures
        same_json(*reviewed, *current) ==> r is Ok,
        !same_json(*reviewed, *current) ==> (r matches Err(e) && plain_error(e, "head_conflict"@,
            "The reviewed Task material changed; review again"@)),
{
    if json_equal(reviewed, current) {
        Ok(())
    } else {
        Err(AppError::new("head_conflict", "The reviewed Task material changed; review again"))
    }
}

/// The Task a Knowledge draft is written for, with its current revision and completion.
#[derive(Debug, Clone)]
pub struct KnowledgeSubject {
    pub task_id: String,
    pub expected_task_revision: i64,
    pub completion_id: String,
}

/// Chooses the Task a session's Knowledge draft is written for: only a Task the session
/// has adopted, and only once that Task has a completion at its current revision, so
/// that only completed work becomes Knowledge. `completion` is the completion recorded at
/// the adopted Task's current revision, with that revision.
pub fn knowledge_subject(adopted_task: Option<&str>, completion: Option<(i64, &str)>) -> (r: Result<KnowledgeSubject, AppError>)
    ensures
        adopted_task is None ==> (r matches Err(e) && plain_error(e, "workflow_precondition"@,
            "A canonical Task must be linked before Knowledge can be drafted"@)),
        adopted_task is Some && completion is None ==> (r matches Err(e) && plain_error(e,
            "workflow_precondition"@, "A completed current Task is required before Knowledge can be drafted"@)),
        adopted_task is Some && completion is Some ==> (r matches Ok(k)
            && k.task_id@ == adopted_task->Some_0@
            && k.expected_task_revision == completion->Some_0.0
            && k.completion_id@ == completion->Some_0.1@),
{
    let task = match adopted_task {
        Some(t) => t,
        None => return Err(AppError::new("workflow_precondition", "A canonical Task must be linked before Knowledge can be drafted")),
    };
    match completion {
        Some((revision, id)) => Ok(KnowledgeSubject { task_id: task.to_owned(), expected_task_revision: revision, completion_id: id.to_owned() }),
        None => Err(AppError::new("workflow_precondition", "A completed current Task is required before Knowledge can be drafted")),
    }
}

/// Decides on a review request document against one stored for the same operation, as
/// `reuse_review` does with the hash of that document.
pub fn reuse_review_for(existing: Option<&StoredReview>, request: &Json, now: &str) -> (r: Result<Option<String>, AppError>)
    ensures
        match existing {
            None => r == Ok::<Option<String>, AppError>(None),
            Some(s) => if s.payload_hash@ != request_digest(*request) {
                r matches Err(e) && plain_error(e, "idempotency_conflict"@, "Reviewed content changed"@)
            } else if s.state@ != "pending"@ || bytes_lt(utf8(s.expires_at@), utf8(now@)) {
                r matches Err(e) && plain_error(e, "challenge_replayed"@, "Create a fresh review operation"@)
            } else {
                r matches Ok(Some(id)) && id@ == s.id@
            },
        },
{
    let hash = request_hash(request);
    reuse_review(existing, hash.as_str(), now)
}

/// Checks a decision on a stored review against the reviewed request document, as
/// `consume_review` does with the hash of that document.
pub fn consume_review_for(decision: &str, stored: Option<&StoredReview>, request: &Json, now: &str) -> (r: Result<ReviewVerdict, AppError>)
    ensures
        match review_consumption(decision@, match stored {
            Some(s) => Some((s.payload_hash@, s.state@, s.expires_at@)),
            None => None,
        }, request_digest(*request), now@) {
            Ok(v) => r == Ok::<ReviewVerdict, AppError>(v),
            Err((code, message)) => r matches Err(e) && plain_error(e, code, message),
        },
{
    let hash = request_hash(request);
    consume_review(decision, stored, hash.as_str(), now)
}

/// The preview of a Task continuation snapshot, its source hash taken over the snapshot
/// as serde_json writes it.
pub fn snapshot_preview(snapshot: &Json) -> (r: Json)
    ensures
        continuation_preview_of(*snapshot, request_digest(*snapshot), r),
{
    let hash = request_hash(snapshot);
    continuation_preview(snapshot, hash.as_str())
}

} // verus!
