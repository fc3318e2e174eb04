//! Checks of chat requests to the work-tracking service, read from their JSON documents:
//! an event to append, and the findings that complete a current-chat advisory.

use vstd::prelude::*;
use crate::assistance::{appendable_kind, parse_kind};
use crate::evidence::{field, get_field, text_field, Json};
use crate::service::{is_authority_field, reject_authority_fields};
use crate::text::{text_eq, trim, trimmed};
use crate::work_state::{deny, outcome, plain_error, AppError, Denial, EventKind};

verus! {

/// A required text field of a request: present as a text that is not blank; it is kept
/// as given.
pub open spec fn request_text(value: Json, name: Seq<char>) -> Result<Seq<char>, Denial> {
    match text_field(value, name) {
        Some(t) => if trim(t).len() > 0 {
            Ok(t)
        } else {
            Err(deny("invalid_input"@, name + " is required"@))
        },
        None => Err(deny("invalid_input"@, name + " is required"@)),
    }
}

/// Reads a required text field of a request.
pub fn request_field(value: &Json, name: &str) -> (r: Result<String, AppError>)
    ensures
        match request_text(*value, name@) {
            Ok(t) => r matches Ok(s) && s@ == t,
            Err(d) => r matches Err(e) && plain_error(e, d.0, d.1),
        },
{
    match get_field(value, name) {
        Some(Json::Text(t)) => {
            if !trimmed(t.as_str()).as_str().is_empty() {
                return Ok(t.clone());
            }
        },
        _ => {},
    }
    let mut message = name.to_owned();
    message.append(" is required");
    Err(AppError::new("invalid_input", message.as_str()))
}

/// The keys of an object; none for any other value.
pub open spec fn keys_of(value: Json) -> Seq<Seq<char>> {
    match value {
        Json::Object(entries) => entries@.map_values(|e: (String, Json)| e.0@),
        _ => Seq::empty(),
    }
}

/// An object that carries a field only the deciding person may set.
pub open spec fn carries_authority(value: Json) -> bool {
    exists|i: int| 0 <= i < keys_of(value).len() && is_authority_field(#[trigger] keys_of(value)[i])
}

fn key_list(value: &Json) -> (r: Vec<String>)
    ensures
        r@.map_values(|s: String| s@) == keys_of(*value),
{
    let mut out: Vec<String> = Vec::new();
    match value {
        Json::Object(entries) => {
            let mut i: usize = 0;
            while i < entries.len()
                invariant
                    i <= entries@.len(),
                    out@.len() == i,
                    out@.map_values(|s: String| s@) == entries@.take(i as int).map_values(|e: (String, Json)| e.0@),
                decreases entries.len() - i,
            {
                let ghost before = out@;
                out.push(entries[i].0.clone());
                assert(entries@.take(i as int + 1) =~= entries@.take(i as int).push(entries@[i as int]));
                assert(out@ =~= before.push(out@[i as int]));
                assert forall|k: int| 0 <= k < i implies out@[k]@ == entries@[k].0@ by {
                    assert(before.map_values(|s: String| s@)[k] == before[k]@);
                    assert(entries@.take(i as int).map_values(|e: (String, Json)| e.0@)[k] == entries@[k].0@);
                }
                assert(out@.map_values(|s: String| s@) =~= entries@.take(i as int + 1).map_values(|e: (String, Json)| e.0@));
                i = i + 1;
            }
            assert(entries@.take(entries@.len() as int) =~= entries@);
        },
        _ => {
            assert(out@.map_values(|s: String| s@) =~= Seq::<Seq<char>>::empty());
        },
    }
    out
}

fn check_authority(value: &Json) -> (r: Result<(), AppError>)
    ensures
        !carries_authority(*value) ==> r is Ok,
        carries_authority(*value) ==> (r matches Err(e) && plain_error(e, "invalid_input"@, "Caller authority fields are not accepted"@)),
{
    let keys = key_list(value);
    let r = reject_authority_fields(&keys);
    proof {
        assert forall|i: int| 0 <= i < keys@.len() implies (#[trigger] keys@[i])@ == keys_of(*value)[i] by {
            assert(keys@.map_values(|s: String| s@)[i] == keys@[i]@);
        }
        if carries_authority(*value) {
            let w = choose|w: int| 0 <= w < keys_of(*value).len() && is_authority_field(#[trigger] keys_of(*value)[w]);
            assert(is_authority_field(keys@[w]@));
        }
        if exists|i: int| 0 <= i < keys@.len() && is_authority_field((#[trigger] keys@[i])@) {
            let w = choose|w: int| 0 <= w < keys@.len() && is_authority_field((#[trigger] keys@[w])@);
            assert(is_authority_field(keys_of(*value)[w]));
        }
    }
    r
}

/// An event a chat asks to append.
#[derive(Debug, Clone)]
pub struct AppendRequest {
    pub kind: EventKind,
    pub operation_id: String,
    pub session_id: String,
    pub expected_head_revision: i64,
}

/// The outcome of reading an append request, by the checks in their order: an event
/// object with a text kind of an appendable kind, no authority field on the request or its
/// event, an operation ID, a session ID, and the head revision it expects.
pub open spec fn append_request_of(input: Json, expected_head: Option<i64>) -> Result<(EventKind, Seq<char>, Seq<char>, i64), Denial> {
    match field(input, "event"@) {
        Some(Json::Object(entries)) => {
            let event = Json::Object(entries);
            match text_field(event, "kind"@) {
                None => Err(deny("invalid_input"@, "event.kind is required"@)),
                Some(k) => match appendable_kind(k) {
                    None => Err(deny("invalid_input"@, "Unsupported event kind"@)),
                    Some(kind) => if carries_authority(input) || carries_authority(event) {
                        Err(deny("invalid_input"@, "Caller authority fields are not accepted"@))
                    } else {
                        match (request_text(input, "operationId"@), request_text(input, "sessionId"@)) {
                            (Err(d), _) => Err(d),
                            (Ok(_), Err(d)) => Err(d),
                            (Ok(op), Ok(session)) => match expected_head {
                                None => Err(deny("invalid_input"@, "expectedHeadRevision is required"@)),
                                Some(h) => Ok((kind, op, session, h)),
                            },
                        }
                    },
                },
            }
        },
        _ => Err(deny("invalid_input"@, "event is required"@)),
    }
}

/// Reads a request to append an event; `expected_head` is its integer
/// `expectedHeadRevision`, none when absent or no integer.
pub fn append_request(input: &Json, expected_head: Option<i64>) -> (r: Result<AppendRequest, AppError>)
    ensures
        match append_request_of(*input, expected_head) {
            Ok((kind, op, session, head)) => r matches Ok(a) && a.kind == kind && a.operation_id@ == op
                && a.session_id@ == session && a.expected_head_revision == head,
            Err(d) => r matches Err(e) && plain_error(e, d.0, d.1),
        },
{
    let event = match get_field(input, "event") {
        Some(e) => e,
        None => return Err(AppError::new("invalid_input", "event is required")),
    };
    match event {
        Json::Object(_) => {},
        _ => return Err(AppError::new("invalid_input", "event is required")),
    }
    let kind_text = match get_field(event, "kind") {
        Some(Json::Text(k)) => k,
        _ => return Err(AppError::new("invalid_input", "event.kind is required")),
    };
    let kind = match parse_kind(kind_text.as_str()) {
        Ok(k) => k,
        Err(e) => return Err(e),
    };
    match check_authority(input) {
        Ok(()) => {},
        Err(e) => return Err(e),
    }
    match check_authority(event) {
        Ok(()) => {},
        Err(e) => return Err(e),
    }
    let operation_id = match request_field(input, "operationId") {
        Ok(v) => v,
        Err(e) => return Err(e),
    };
    let session_id = match request_field(input, "sessionId") {
        Ok(v) => v,
        Err(e) => return Err(e),
    };
    match expected_head {
        Some(h) => Ok(AppendRequest { kind, operation_id, session_id, expected_head_revision: h }),
        None => Err(AppError::new("invalid_input", "expectedHeadRevision is required")),
    }
}

/// An array field's items; none when the field is absent, and a refusal when it is no
/// array.
pub open spec fn list_field(value: Json, name: Seq<char>) -> Option<Option<Seq<Json>>> {
    match field(value, name) {
        None => None,
        Some(Json::Array(items)) => Some(Some(items@)),
        Some(_) => Some(None),
    }
}

/// The outcome of checking the findings and evidence that complete an advisory.
pub open spec fn advisory_check(input: Json) -> Result<(Seq<Json>, Seq<Json>), Denial> {
    match (list_field(input, "findings"@), list_field(input, "evidenceRefs"@)) {
        (None, _) => Err(deny("invalid_input"@, "findings is required"@)),
        (Some(_), None) => Err(deny("invalid_input"@, "evidenceRefs is required"@)),
        (Some(None), Some(_)) => Err(deny("invalid_input"@, "findings must be an array"@)),
        (Some(Some(_)), Some(None)) => Err(deny("invalid_input"@, "evidenceRefs must be an array"@)),
        (Some(Some(f)), Some(Some(e))) => if f.len() > 50 || e.len() > 100 {
            Err(deny("invalid_input"@, "Too many advisory findings or evidence references"@))
        } else {
            Ok((f, e))
        },
    }
}

/// An evidence reference an advisory cites.
#[derive(Debug, Clone)]
pub struct EvidenceRef {
    pub evidence_id: String,
    pub revision: String,
}

/// Checks what completes a current-chat advisory: at most 50 findings and 100 evidence
/// references, each given as an array. Gives back how many findings there are and the
/// evidence references as lists to check, each needing an ID and a revision.
pub fn advisory_lists(input: &Json) -> (r: Result<(usize, usize), AppError>)
    ensures
        match advisory_check(*input) {
            Ok((f, e)) => r == Ok::<(usize, usize), AppError>((f.len() as usize, e.len() as usize)),
            Err(d) => r matches Err(x) && plain_error(x, d.0, d.1),
        },
{
    let findings = get_field(input, "findings");
    let refs = get_field(input, "evidenceRefs");
    let findings = match findings {
        None => return Err(AppError::new("invalid_input", "findings is required")),
        Some(f) => f,
    };
    let refs = match refs {
        None => return Err(AppError::new("invalid_input", "evidenceRefs is required")),
        Some(e) => e,
    };
    let n = match findings {
        Json::Array(items) => items.len(),
        _ => return Err(AppError::new("invalid_input", "findings must be an array")),
    };
    let m = match refs {
        Json::Array(items) => items.len(),
        _ => return Err(AppError::new("invalid_input", "evidenceRefs must be an array")),
    };
    if n > 50 || m > 100 {
        return Err(AppError::new("invalid_input", "Too many advisory findings or evidence references"));
    }
    Ok((n, m))
}

/// Reads one evidence reference of an advisory: its ID, then its revision.
pub fn evidence_ref(value: &Json) -> (r: Result<EvidenceRef, AppError>)
    ensures
        match (request_text(*value, "evidenceId"@), request_text(*value, "revision"@)) {
            (Err(d), _) => r matches Err(e) && plain_error(e, d.0, d.1),
            (Ok(_), Err(d)) => r matches Err(e) && plain_error(e, d.0, d.1),
            (Ok(id), Ok(rev)) => r matches Ok(x) && x.evidence_id@ == id && x.revision@ == rev,
        },
{
    let evidence_id = match request_field(value, "evidenceId") {
        Ok(v) => v,
        Err(e) => return Err(e),
    };
    let revision = match request_field(value, "revision") {
        Ok(v) => v,
        Err(e) => return Err(e),
    };
    Ok(EvidenceRef { evidence_id, revision })
}

/// Whether accepting an advance of this action reads cited evidence: only conflict
/// resolutions and conflict reviews do.
pub open spec fn cites_evidence(decision: Seq<char>, action: Option<Seq<char>>) -> bool {
    decision == "accept"@ && (action == Some("resolve_conflict"@) || action == Some("review_conflict"@))
}

/// The evidence an accepted conflict advance cites: the proposed payload's
/// `evidenceRefs` when it is an array, else its `evidence` when that is one.
pub open spec fn cited_evidence(input: Json) -> Seq<Json> {
    let payload = match field(input, "proposedPayload"@) {
        Some(p) => p,
        None => Json::Null,
    };
    match field(payload, "evidenceRefs"@) {
        Some(Json::Array(items)) => items@,
        _ => match field(payload, "evidence"@) {
            Some(Json::Array(items)) => items@,
            _ => Seq::empty(),
        },
    }
}

/// The evidence references an advance must have read before it is accepted: none unless
/// it accepts a conflict resolution or review, else each cited item, which needs an ID
/// and a revision. The first item without them is refused.
pub fn advance_evidence(input: &Json, decision: &str) -> (r: Result<Vec<EvidenceRef>, AppError>)
    ensures
        !cites_evidence(decision@, text_field(*input, "action"@)) ==> (r matches Ok(v) && v@.len() == 0),
        cites_evidence(decision@, text_field(*input, "action"@)) ==> match r {
            Ok(v) => v@.len() == cited_evidence(*input).len() && forall|i: int| 0 <= i < v@.len() ==> {
                &&& request_text(cited_evidence(*input)[i], "evidenceId"@) == Ok::<Seq<char>, Denial>((#[trigger] v@[i]).evidence_id@)
                &&& request_text(cited_evidence(*input)[i], "revision"@) == Ok::<Seq<char>, Denial>(v@[i].revision@)
            },
            Err(e) => exists|i: int| 0 <= i < cited_evidence(*input).len() && {
                let item = #[trigger] cited_evidence(*input)[i];
                match (request_text(item, "evidenceId"@), request_text(item, "revision"@)) {
                    (Err(d), _) => plain_error(e, d.0, d.1),
                    (Ok(_), Err(d)) => plain_error(e, d.0, d.1),
                    _ => false,
                }
            },
        },
{
    let mut out: Vec<EvidenceRef> = Vec::new();
    let action = match get_field(input, "action") {
        Some(Json::Text(a)) => Some(a.as_str()),
        _ => None,
    };
    let conflict = match action {
        Some(a) => text_eq(a, "resolve_conflict") || text_eq(a, "review_conflict"),
        None => false,
    };
    if !text_eq(decision, "accept") || !conflict {
        return Ok(out);
    }
    let null = Json::Null;
    let payload: &Json = match get_field(input, "proposedPayload") {
        Some(p) => p,
        None => &null,
    };
    let items: &Vec<Json> = match get_field(payload, "evidenceRefs") {
        Some(Json::Array(items)) => items,
        _ => match get_field(payload, "evidence") {
            Some(Json::Array(items)) => items,
            _ => return Ok(out),
        },
    };
    assert(items@ == cited_evidence(*input));
    let mut i: usize = 0;
    while i < items.len()
        invariant
            items@ == cited_evidence(*input),
            cites_evidence(decision@, text_field(*input, "action"@)),
            i <= items@.len(),
            out@.len() == i,
            forall|k: int| 0 <= k < i ==> {
                &&& request_text(items@[k], "evidenceId"@) == Ok::<Seq<char>, Denial>((#[trigger] out@[k]).evidence_id@)
                &&& request_text(items@[k], "revision"@) == Ok::<Seq<char>, Denial>(out@[k].revision@)
            },
        decreases items.len() - i,
    {
        match evidence_ref(&items[i]) {
            Ok(r) => out.push(r),
            Err(e) => {
                assert(0 <= i < cited_evidence(*input).len() && cited_evidence(*input)[i as int] == items@[i as int]);
                return Err(e);
            },
        }
        i = i + 1;
    }
    Ok(out)
}

/// What recovering an approved legacy publication does.
#[derive(Debug, Clone, Copy, PartialEq, Eq, Structural)]
pub enum LegacyRecovery {
    /// Withdraw the document published at the draft's path.
    Withdraw,
    /// Publish the draft at its approved path.
    Publish,
}

/// Decides on recovering an approved legacy publication job from the draft's state and
/// path: a withdrawal needs a published draft; a publication needs a draft not withdrawn
/// with an approved path.
pub fn legacy_recovery(withdraw: bool, state: &str, published_path: Option<&str>) -> (r: Result<LegacyRecovery, AppError>)
    ensures
        withdraw && state@ != "published"@ ==> (r matches Err(e) && plain_error(e, "workflow_precondition"@,
            "Only an already published legacy draft can be recovered for withdrawal"@)),
        withdraw && state@ == "published"@ ==> r == Ok::<LegacyRecovery, AppError>(LegacyRecovery::Withdraw),
        !withdraw && state@ == "withdrawn"@ ==> (r matches Err(e) && plain_error(e, "publish_conflict"@,
            "Withdrawn legacy draft cannot be republished"@)),
        !withdraw && state@ != "withdrawn"@ && published_path is None ==> (r matches Err(e) && plain_error(e,
            "publish_conflict"@, "Approved legacy publication path is unavailable"@)),
        !withdraw && state@ != "withdrawn"@ && published_path is Some ==> r == Ok::<LegacyRecovery, AppError>(LegacyRecovery::Publish),
{
    if withdraw {
        if !text_eq(state, "published") {
            return Err(AppError::new("workflow_precondition", "Only an already published legacy draft can be recovered for withdrawal"));
        }
        Ok(LegacyRecovery::Withdraw)
    } else {
        if text_eq(state, "withdrawn") {
            return Err(AppError::new("publish_conflict", "Withdrawn legacy draft cannot be republished"));
        }
        if published_path.is_none() {
            return Err(AppError::new("publish_conflict", "Approved legacy publication path is unavailable"));
        }
        Ok(LegacyRecovery::Publish)
    }
}

} // verus!
