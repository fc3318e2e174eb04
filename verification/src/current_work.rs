//! The current-work view of a connection: recent progress of each tracked session, room
//! left for Tasks that no session tracks, and what the active selection names.

use vstd::prelude::*;
use crate::text::{first_chars, take_chars, text_eq};
use crate::work_state::{plain_error, AppError};

verus! {

/// A recent event of a tracked session, as the current-work view reads it.
#[derive(Debug, Clone)]
pub struct SessionEvent {
    pub kind: String,
    pub event_id: String,
    pub occurred_at: String,
    pub projection_status: String,
    /// The event's text summary, if it has one.
    pub summary: Option<String>,
}

/// One progress note of the current-work view.
#[derive(Debug, Clone)]
pub struct ProgressNote {
    pub event_id: String,
    pub occurred_at: String,
    pub projection_status: String,
    pub summary: String,
}

/// An event that records work progress.
pub open spec fn is_checkpoint(e: SessionEvent) -> bool {
    e.kind@ == "work_log_checkpoint"@
}

/// The progress events among `events`, in order.
pub open spec fn checkpoints(events: Seq<SessionEvent>) -> Seq<SessionEvent>
    decreases events.len(),
{
    if events.len() == 0 {
        Seq::empty()
    } else {
        let rest = checkpoints(events.drop_last());
        if is_checkpoint(events.last()) {
            rest.push(events.last())
        } else {
            rest
        }
    }
}

/// The summary a progress note shows: at most 500 characters, empty when there is none.
pub open spec fn note_summary(e: SessionEvent) -> Seq<char> {
    match e.summary {
        Some(s) => take_chars(s@, 500),
        None => Seq::empty(),
    }
}

/// `n` is the progress note for event `e`.
pub open spec fn note_of(e: SessionEvent, n: ProgressNote) -> bool {
    &&& n.event_id@ == e.event_id@
    &&& n.occurred_at@ == e.occurred_at@
    &&& n.projection_status@ == e.projection_status@
    &&& n.summary@ == note_summary(e)
}

proof fn checkpoints_grow(events: Seq<SessionEvent>, k: int)
    requires
        0 <= k < events.len(),
    ensures
        checkpoints(events.take(k + 1)) == if is_checkpoint(events[k]) {
            checkpoints(events.take(k)).push(events[k])
        } else {
            checkpoints(events.take(k))
        },
{
    assert(events.take(k + 1).drop_last() =~= events.take(k));
}

proof fn checkpoints_only_grow(events: Seq<SessionEvent>, k: int, j: int)
    requires
        0 <= k <= j <= events.len(),
    ensures
        checkpoints(events.take(k)).len() <= checkpoints(events.take(j)).len(),
        forall|i: int| 0 <= i < checkpoints(events.take(k)).len()
            ==> #[trigger] checkpoints(events.take(j))[i] == checkpoints(events.take(k))[i],
    decreases j - k,
{
    if k < j {
        checkpoints_only_grow(events, k, j - 1);
        checkpoints_grow(events, j - 1);
    }
}

/// The progress notes of a session: its first two progress events, in order.
pub fn recent_progress(events: &Vec<SessionEvent>) -> (notes: Vec<ProgressNote>)
    ensures
        notes@.len() == if checkpoints(events@).len() < 2 { checkpoints(events@).len() } else { 2 },
        forall|i: int| 0 <= i < notes@.len() ==> note_of(checkpoints(events@)[i], #[trigger] notes@[i]),
{
    let mut notes: Vec<ProgressNote> = Vec::new();
    let mut k: usize = 0;
    while k < events.len() && notes.len() < 2
        invariant
            k <= events@.len(),
            notes@.len() <= 2,
            notes@.len() == checkpoints(events@.take(k as int)).len(),
            forall|i: int| 0 <= i < notes@.len() ==> note_of(checkpoints(events@.take(k as int))[i], #[trigger] notes@[i]),
        decreases events.len() - k,
    {
        proof {
            checkpoints_grow(events@, k as int);
        }
        let e = &events[k];
        if text_eq(e.kind.as_str(), "work_log_checkpoint") {
            let summary = match &e.summary {
                Some(s) => first_chars(s.as_str(), 500),
                None => String::new(),
            };
            notes.push(ProgressNote {
                event_id: e.event_id.clone(),
                occurred_at: e.occurred_at.clone(),
                projection_status: e.projection_status.clone(),
                summary,
            });
        }
        k = k + 1;
    }
    proof {
        checkpoints_only_grow(events@, k as int, events@.len() as int);
        assert(events@.take(events@.len() as int) =~= events@);
    }
    notes
}

/// How many Tasks without a tracking session still fit in a view of `limit` rows that
/// already lists `listed` sessions.
pub fn direct_task_room(limit: usize, listed: usize) -> (room: usize)
    ensures
        room == if listed < limit { limit - listed } else { 0 },
{
    if listed < limit {
        limit - listed
    } else {
        0
    }
}

/// What kind of entity an active selection names.
#[derive(Debug, Clone, Copy, PartialEq, Eq, Structural)]
pub enum SelectionKind {
    Task,
    Capture,
    Problem,
    Feature,
}

/// The entity kind a selection's entity type names; other types select nothing.
pub open spec fn selection_kind_of(entity_type: Seq<char>) -> Option<SelectionKind> {
    if entity_type == "tasks"@ {
        Some(SelectionKind::Task)
    } else if entity_type == "captures"@ {
        Some(SelectionKind::Capture)
    } else if entity_type == "problems"@ {
        Some(SelectionKind::Problem)
    } else if entity_type == "features"@ {
        Some(SelectionKind::Feature)
    } else {
        None
    }
}

/// Reads the entity kind of an active selection.
pub fn selection_kind(entity_type: &str) -> (r: Option<SelectionKind>)
    ensures
        r == selection_kind_of(entity_type@),
{
    if text_eq(entity_type, "tasks") {
        Some(SelectionKind::Task)
    } else if text_eq(entity_type, "captures") {
        Some(SelectionKind::Capture)
    } else if text_eq(entity_type, "problems") {
        Some(SelectionKind::Problem)
    } else if text_eq(entity_type, "features") {
        Some(SelectionKind::Feature)
    } else {
        None
    }
}

/// The column that names an entity of a non-Task selection: a capture's text, a
/// Problem's statement or a Feature's title; a Task is selected through its links.
pub open spec fn selection_title_column(kind: SelectionKind) -> Option<Seq<char>> {
    match kind {
        SelectionKind::Capture => Some("text"@),
        SelectionKind::Problem => Some("statement"@),
        SelectionKind::Feature => Some("title"@),
        SelectionKind::Task => None,
    }
}

/// Reads what a selection request selects; an unknown entity type is refused.
pub fn selection_target(entity_type: &str) -> (r: Result<(SelectionKind, Option<&'static str>), AppError>)
    ensures
        match selection_kind_of(entity_type@) {
            Some(k) => r matches Ok((kind, column)) && kind == k
                && match selection_title_column(k) {
                    Some(c) => column matches Some(x) && x@ == c,
                    None => column is None,
                },
            None => r matches Err(e) && plain_error(e, "invalid_input"@, "Unsupported selection"@),
        },
{
    match selection_kind(entity_type) {
        Some(SelectionKind::Task) => Ok((SelectionKind::Task, None)),
        Some(SelectionKind::Capture) => Ok((SelectionKind::Capture, Some("text"))),
        Some(SelectionKind::Problem) => Ok((SelectionKind::Problem, Some("statement"))),
        Some(SelectionKind::Feature) => Ok((SelectionKind::Feature, Some("title"))),
        None => Err(AppError::new("invalid_input", "Unsupported selection")),
    }
}

/// Where a topic member is looked up: its table and key column.
pub open spec fn member_location(kind: Seq<char>) -> Option<(Seq<char>, Seq<char>)> {
    if kind == "vault"@ {
        Some(("vault_documents"@, "path"@))
    } else if kind == "captures"@ || kind == "problems"@ || kind == "features"@ || kind == "tasks"@ {
        Some((kind, "id"@))
    } else {
        None
    }
}

/// Where to look up a topic member of this kind; an unsupported kind is refused.
pub fn topic_member_location(kind: &str) -> (r: Result<(&'static str, &'static str), AppError>)
    ensures
        match member_location(kind@) {
            None => r matches Err(e) && plain_error(e, "invalid_input"@, "Unsupported topic member"@),
            Some((table, key)) => r matches Ok((t, k)) && t@ == table && k@ == key,
        },
{
    if text_eq(kind, "vault") {
        Ok(("vault_documents", "path"))
    } else if text_eq(kind, "captures") {
        Ok(("captures", "id"))
    } else if text_eq(kind, "problems") {
        Ok(("problems", "id"))
    } else if text_eq(kind, "features") {
        Ok(("features", "id"))
    } else if text_eq(kind, "tasks") {
        Ok(("tasks", "id"))
    } else {
        Err(AppError::new("invalid_input", "Unsupported topic member"))
    }
}

/// Decides a topic membership change once the member was looked up: it must exist, and
/// whether it is included must be given as a boolean.
pub fn membership_decision(exists: bool, included: Option<bool>) -> (r: Result<bool, AppError>)
    ensures
        !exists ==> (r matches Err(e) && plain_error(e, "not_found_or_not_visible"@, "Topic member is unavailable"@)),
        exists && included is None ==> (r matches Err(e) && plain_error(e, "invalid_input"@, "included must be a boolean"@)),
        exists && included is Some ==> r == Ok::<bool, AppError>(included->0),
{
    if !exists {
        return Err(AppError::new("not_found_or_not_visible", "Topic member is unavailable"));
    }
    match included {
        Some(b) => Ok(b),
        None => Err(AppError::new("invalid_input", "included must be a boolean")),
    }
}

} // verus!
