//! Task lifecycle and relationship rules, and Task content hashing.

use vstd::prelude::*;
use crate::digest::{hash_text, text_hash};
use crate::text::{push_char, text_eq};

verus! {

/// Task fields whose readiness is reported, in report order.
pub const READINESS_FIELDS: [&'static str; 4] = ["outcome", "scope", "validationCriteria", "prerequisites"];

/// The parts joined by the given separator character.
pub open spec fn join_with(parts: Seq<Seq<char>>, sep: char) -> Seq<char>
    decreases parts.len(),
{
    if parts.len() == 0 {
        Seq::empty()
    } else if parts.len() == 1 {
        parts[0]
    } else {
        join_with(parts.drop_last(), sep).push(sep) + parts.last()
    }
}

/// The content hash of a list of fields: SHA-256 of the fields joined by U+001F.
pub open spec fn spec_content_hash(fields: Seq<Seq<char>>) -> Seq<char> {
    text_hash(join_with(fields, '\u{1f}'))
}

/// Hashes Task content fields, joined by the unit separator U+001F.
pub fn content_hash(fields: &[&str]) -> (out: String)
    ensures
        out@ == spec_content_hash(fields@.map_values(|f: &str| f@)),
{
    let ghost parts = fields@.map_values(|f: &str| f@);
    let mut joined = String::new();
    let mut i: usize = 0;
    while i < fields.len()
        invariant
            i <= fields@.len(),
            parts == fields@.map_values(|f: &str| f@),
            joined@ == join_with(parts.take(i as int), '\u{1f}'),
        decreases fields@.len() - i,
    {
        if i > 0 {
            push_char(&mut joined, '\u{1f}');
        }
        joined.append(fields[i]);
        proof {
            assert(parts.take(i as int + 1).drop_last() =~= parts.take(i as int));
            if i == 0 {
                assert(parts.take(1) =~= seq![parts[0]]);
            }
        }
        i = i + 1;
    }
    proof {
        assert(parts.take(fields@.len() as int) =~= parts);
    }
    hash_text(joined.as_str())
}

/// The outcome of moving a Task from `from` by the request `to`.
pub open spec fn state_transition(from: Seq<char>, to: Seq<char>) -> Result<Seq<char>, Seq<char>> {
    if (from == "task"@ && to == "in_progress"@) || (from == "in_progress"@ && to == "completed"@) {
        Ok(to)
    } else if from == "completed"@ && to == "reopen"@ {
        Ok("in_progress"@)
    } else {
        Err("transition_invalid: "@ + from + " to "@ + to)
    }
}

/// Validates a Task lifecycle request and returns the resulting state.
///
/// `task -> in_progress -> completed`; a completed Task returns to
/// `in_progress` only by an explicit `reopen`.
pub fn validate_state_transition(from: &str, to: &str) -> (r: Result<String, String>)
    ensures
        r matches Ok(s) ==> state_transition(from@, to@) == Ok::<Seq<char>, Seq<char>>(s@),
        r matches Err(e) ==> state_transition(from@, to@) == Err::<Seq<char>, Seq<char>>(e@),
{
    if (text_eq(from, "task") && text_eq(to, "in_progress")) || (text_eq(from, "in_progress")
        && text_eq(to, "completed")) {
        Ok(to.to_owned())
    } else if text_eq(from, "completed") && text_eq(to, "reopen") {
        Ok("in_progress".to_owned())
    } else {
        let mut message = "transition_invalid: ".to_owned();
        message.append(from);
        message.append(" to ");
        message.append(to);
        Err(message)
    }
}

/// Relationship kinds that a Task may hold.
pub open spec fn is_relationship_kind(kind: Seq<char>) -> bool {
    kind == "prerequisite"@ || kind == "split_from"@ || kind == "related"@
}

/// Whether a relationship of `kind` from `source` to `target` may exist.
pub open spec fn relationship_check(source: Seq<char>, target: Seq<char>, kind: Seq<char>) -> Result<(), Seq<char>> {
    if source == target {
        Err("relationship_invalid: self links are not allowed"@)
    } else if !is_relationship_kind(kind) {
        Err("relationship_invalid: unsupported relationship"@)
    } else {
        Ok(())
    }
}

/// Rejects self links and unsupported relationship kinds.
pub fn validate_relationship(source: &str, target: &str, kind: &str) -> (r: Result<(), String>)
    ensures
        r is Ok <==> relationship_check(source@, target@, kind@) is Ok,
        r matches Err(e) ==> relationship_check(source@, target@, kind@) == Err::<(), Seq<char>>(e@),
{
    if text_eq(source, target) {
        return Err("relationship_invalid: self links are not allowed".to_owned());
    }
    if !(text_eq(kind, "prerequisite") || text_eq(kind, "split_from") || text_eq(kind, "related")) {
        return Err("relationship_invalid: unsupported relationship".to_owned());
    }
    Ok(())
}

/// A Task cannot skip a stage: only a Task in progress completes, and a completed Task
/// moves only by an explicit reopen, back to in progress.
pub proof fn lifecycle_has_no_shortcuts(from: Seq<char>, to: Seq<char>)
    ensures
        state_transition(from, to) == Ok::<Seq<char>, Seq<char>>("completed"@) ==> from == "in_progress"@,
        from == "completed"@ && state_transition(from, to) is Ok ==> to == "reopen"@
            && state_transition(from, to) == Ok::<Seq<char>, Seq<char>>("in_progress"@),
{
    reveal_strlit("completed");
    reveal_strlit("in_progress");
    reveal_strlit("task");
    assert("in_progress"@[0] != "completed"@[0]);
    assert("task"@[0] != "completed"@[0]);
}

/// A recorded decision overriding one readiness field.
#[derive(Debug, Clone)]
pub struct ReadinessOverride {
    pub status: String,
    pub reason: String,
    pub evidence_refs: String,
}

/// One field of a Task's readiness.
#[derive(Debug, Clone)]
pub struct ReadinessEntry {
    pub key: String,
    pub status: String,
    pub reason: String,
    pub evidence_refs: String,
}

/// The readiness of one field: a recorded decision wins (not applicable, or otherwise
/// missing); prerequisites are resolved unless a decision says otherwise; any other
/// field is resolved when its text is present.
pub open spec fn readiness_of(key: Seq<char>, value: Seq<char>, decision: Option<ReadinessOverride>) -> (Seq<char>, Seq<char>, Seq<char>) {
    match decision {
        Some(d) => (
            if d.status@ == "not_applicable"@ {
                "not_applicable"@
            } else {
                "missing"@
            },
            d.reason@,
            d.evidence_refs@,
        ),
        None => if key == "prerequisites"@ {
            ("resolved"@, "No explicit prerequisite"@, "[]"@)
        } else if value.len() > 0 {
            ("resolved"@, Seq::empty(), "[]"@)
        } else {
            ("missing"@, Seq::empty(), "[]"@)
        },
    }
}

/// The readiness of a Task's current revision: one entry per readiness field, in order.
/// `values` holds the outcome, scope and validation criteria; `decisions` the latest
/// recorded decision for each of the four fields.
pub fn readiness(values: &Vec<String>, decisions: &Vec<Option<ReadinessOverride>>) -> (r: Vec<ReadinessEntry>)
    requires
        values@.len() == 3,
        decisions@.len() == 4,
    ensures
        r@.len() == 4,
        forall|i: int| 0 <= i < 4 ==> (#[trigger] r@[i]).key@ == READINESS_FIELDS@[i]@ && (
        r@[i].status@,
        r@[i].reason@,
        r@[i].evidence_refs@,
        ) == readiness_of(
            READINESS_FIELDS@[i]@,
            if i < 3 {
                values@[i]@
            } else {
                Seq::empty()
            },
            decisions@[i],
        ),
{
    let mut out: Vec<ReadinessEntry> = Vec::new();
    let mut i: usize = 0;
    while i < 4
        invariant
            values@.len() == 3,
            decisions@.len() == 4,
            i <= 4,
            out@.len() == i,
            forall|k: int| 0 <= k < i ==> (#[trigger] out@[k]).key@ == READINESS_FIELDS@[k]@ && (
            out@[k].status@,
            out@[k].reason@,
            out@[k].evidence_refs@,
            ) == readiness_of(
                READINESS_FIELDS@[k]@,
                if k < 3 {
                    values@[k]@
                } else {
                    Seq::empty()
                },
                decisions@[k],
            ),
        decreases 4 - i,
    {
        let key = READINESS_FIELDS[i];
        let value: &str = if i < 3 {
            values[i].as_str()
        } else {
            ""
        };
        proof {
            reveal_strlit("");
        }
        let entry = match &decisions[i] {
            Some(d) => ReadinessEntry {
                key: key.to_owned(),
                status: if text_eq(d.status.as_str(), "not_applicable") {
                    "not_applicable".to_owned()
                } else {
                    "missing".to_owned()
                },
                reason: d.reason.clone(),
                evidence_refs: d.evidence_refs.clone(),
            },
            None => {
                if text_eq(key, "prerequisites") {
                    ReadinessEntry {
                        key: key.to_owned(),
                        status: "resolved".to_owned(),
                        reason: "No explicit prerequisite".to_owned(),
                        evidence_refs: "[]".to_owned(),
                    }
                } else if !value.is_empty() {
                    ReadinessEntry {
                        key: key.to_owned(),
                        status: "resolved".to_owned(),
                        reason: String::new(),
                        evidence_refs: "[]".to_owned(),
                    }
                } else {
                    ReadinessEntry {
                        key: key.to_owned(),
                        status: "missing".to_owned(),
                        reason: String::new(),
                        evidence_refs: "[]".to_owned(),
                    }
                }
            },
        };
        out.push(entry);
        i = i + 1;
    }
    out
}

} // verus!
