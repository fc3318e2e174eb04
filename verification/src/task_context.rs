//! The Task context handed to a chat: every text cut to 4000 characters, every list to
//! 100 items, binary payloads left out, and whether anything was cut.

use vstd::prelude::*;
use crate::digest::{hash_text, request_digest, serialize_json, text_hash};
use crate::evidence::{copy_json, kept_len, same_json, Json};
use crate::text::{first_chars, take_chars, text_eq};

verus! {

/// Object keys whose values never reach a chat: they carry binary data.
pub open spec fn binary_key(k: Seq<char>) -> bool {
    k == "imageData"@ || k == "data"@
}

/// `output` is `input` bounded for a chat: texts cut to 4000 characters, arrays to their
/// first 100 items, objects without their binary fields, at every depth.
pub open spec fn context_bound_of(input: Json, output: Json) -> bool
    decreases input,
{
    match input {
        Json::Null => output is Null,
        Json::Bool(b) => output == Json::Bool(b),
        Json::Number(n) => output matches Json::Number(m) && m@ == n@,
        Json::Text(t) => output matches Json::Text(u) && u@ == take_chars(t@, 4000),
        Json::Array(items) => {
            &&& output is Array
            &&& output->Array_0@.len() == kept_len(items@.len())
            &&& forall|i: int| 0 <= i < output->Array_0@.len()
                ==> context_bound_of(items@[i], #[trigger] output->Array_0@[i])
        },
        Json::Object(entries) => output is Object && bounded_entries(entries@, output->Object_0@),
    }
}

/// `outs` holds, in order, the entries of `entries` that carry no binary data, each value
/// bounded.
pub open spec fn bounded_entries(entries: Seq<(String, Json)>, outs: Seq<(String, Json)>) -> bool
    decreases entries,
{
    if entries.len() == 0 {
        outs.len() == 0
    } else {
        let e = entries.last();
        if !binary_key(e.0@) {
            &&& outs.len() > 0
            &&& outs.last().0@ == e.0@
            &&& context_bound_of(e.1, outs.last().1)
            &&& bounded_entries(entries.drop_last(), outs.drop_last())
        } else {
            bounded_entries(entries.drop_last(), outs)
        }
    }
}

/// Whether bounding `input` cuts a text or a list somewhere.
pub open spec fn context_cut(input: Json) -> bool
    decreases input,
{
    match input {
        Json::Text(t) => t@.len() > 4000,
        Json::Array(items) => items@.len() > 100 || exists|i: int|
            0 <= i < kept_len(items@.len()) && context_cut(#[trigger] items@[i]),
        Json::Object(entries) => entries_cut(entries@),
        _ => false,
    }
}

/// Whether bounding the kept entries cuts something.
pub open spec fn entries_cut(entries: Seq<(String, Json)>) -> bool
    decreases entries,
{
    if entries.len() == 0 {
        false
    } else {
        let e = entries.last();
        (!binary_key(e.0@) && context_cut(e.1)) || entries_cut(entries.drop_last())
    }
}

/// No text in `j` is longer than 4000 characters, no array longer than 100 items, and no
/// object has a binary field, at any depth.
pub open spec fn within_context_bounds(j: Json) -> bool
    decreases j,
{
    match j {
        Json::Text(t) => t@.len() <= 4000,
        Json::Array(items) => {
            &&& items@.len() <= 100
            &&& forall|i: int| 0 <= i < items@.len() ==> within_context_bounds(#[trigger] items@[i])
        },
        Json::Object(entries) => forall|i: int| 0 <= i < entries@.len() ==> {
            &&& !binary_key((#[trigger] entries@[i]).0@)
            &&& within_context_bounds(entries@[i].1)
        },
        _ => true,
    }
}

/// A bounded Task context, whatever it was bounded from, holds no text over 4000
/// characters, no list over 100 items and no binary field.
pub proof fn bounded_context_is_within_bounds(input: Json, output: Json)
    requires
        context_bound_of(input, output),
    ensures
        within_context_bounds(output),
    decreases input,
{
    match input {
        Json::Array(items) => {
            let outs = output->Array_0@;
            assert forall|i: int| 0 <= i < outs.len() implies within_context_bounds(#[trigger] outs[i]) by {
                assert(decreases_to!(input => input->Array_0));
                assert(decreases_to!(items => items@));
                assert(decreases_to!(items@ => items@[i]));
                bounded_context_is_within_bounds(items@[i], outs[i]);
            }
        },
        Json::Object(entries) => {
            assert(decreases_to!(input => input->Object_0));
            assert(decreases_to!(entries => entries@));
            bounded_entries_are_within_bounds(entries@, output->Object_0@);
        },
        _ => {},
    }
}

proof fn bounded_entries_are_within_bounds(entries: Seq<(String, Json)>, outs: Seq<(String, Json)>)
    requires
        bounded_entries(entries, outs),
    ensures
        forall|i: int| 0 <= i < outs.len() ==> {
            &&& !binary_key((#[trigger] outs[i]).0@)
            &&& within_context_bounds(outs[i].1)
        },
    decreases entries,
{
    if entries.len() > 0 {
        let e = entries.last();
        assert(decreases_to!(entries => entries.drop_last()));
        if !binary_key(e.0@) {
            bounded_entries_are_within_bounds(entries.drop_last(), outs.drop_last());
            assert(decreases_to!(entries => entries[entries.len() - 1]));
            assert(decreases_to!(entries[entries.len() - 1] => entries[entries.len() - 1].1));
            bounded_context_is_within_bounds(e.1, outs.last().1);
            assert forall|i: int| 0 <= i < outs.len() implies {
                &&& !binary_key((#[trigger] outs[i]).0@)
                &&& within_context_bounds(outs[i].1)
            } by {
                if i < outs.len() - 1 {
                    assert(outs[i] == outs.drop_last()[i]);
                }
            }
        } else {
            bounded_entries_are_within_bounds(entries.drop_last(), outs);
        }
    }
}

fn is_binary_key(k: &str) -> (r: bool)
    ensures
        r == binary_key(k@),
{
    text_eq(k, "imageData") || text_eq(k, "data")
}

/// Bounds a Task context for a chat, and tells whether anything was cut.
pub fn bound_context(value: &Json) -> (r: (Json, bool))
    ensures
        context_bound_of(*value, r.0),
        r.1 == context_cut(*value),
    decreases value,
{
    match value {
        Json::Null => (Json::Null, false),
        Json::Bool(b) => (Json::Bool(*b), false),
        Json::Number(n) => (Json::Number(n.clone()), false),
        Json::Text(t) => {
            let n = t.as_str().unicode_len();
            (Json::Text(first_chars(t.as_str(), 4000)), n > 4000)
        },
        Json::Array(items) => {
            let n: usize = if items.len() < 100 { items.len() } else { 100 };
            let mut outs: Vec<Json> = Vec::new();
            let mut cut = items.len() > 100;
            let mut i: usize = 0;
            while i < n
                invariant
                    *value == Json::Array(*items),
                    n == kept_len(items@.len()),
                    i <= n,
                    outs@.len() == i,
                    forall|k: int| 0 <= k < i ==> context_bound_of(items@[k], #[trigger] outs@[k]),
                    cut == (items@.len() > 100 || exists|k: int| 0 <= k < i && context_cut(#[trigger] items@[k])),
                decreases n - i,
            {
                proof {
                    assert(decreases_to!(*value => value->Array_0));
                    assert(decreases_to!(*items => items@));
                    assert(decreases_to!(items@ => items@[i as int]));
                }
                let (o, c) = bound_context(&items[i]);
                outs.push(o);
                proof {
                    if c {
                        assert(context_cut(items@[i as int]));
                    }
                }
                cut = cut || c;
                i = i + 1;
            }
            (Json::Array(outs), cut)
        },
        Json::Object(entries) => {
            let mut outs: Vec<(String, Json)> = Vec::new();
            let mut cut = false;
            let mut i: usize = 0;
            while i < entries.len()
                invariant
                    *value == Json::Object(*entries),
                    i <= entries@.len(),
                    bounded_entries(entries@.take(i as int), outs@),
                    cut == entries_cut(entries@.take(i as int)),
                decreases entries.len() - i,
            {
                let ghost before = outs@;
                assert(entries@.take(i as int + 1).drop_last() =~= entries@.take(i as int));
                if !is_binary_key(entries[i].0.as_str()) {
                    proof {
                        assert(decreases_to!(*value => value->Object_0));
                        assert(decreases_to!(*entries => entries@));
                        assert(decreases_to!(entries@ => entries@[i as int]));
                        assert(decreases_to!(entries@[i as int] => entries@[i as int].1));
                    }
                    let (o, c) = bound_context(&entries[i].1);
                    outs.push((entries[i].0.clone(), o));
                    assert(outs@.drop_last() =~= before);
                    cut = cut || c;
                }
                i = i + 1;
            }
            assert(entries@.take(entries@.len() as int) =~= entries@);
            (Json::Object(outs), cut)
        },
    }
}

/// An object without the fields under `key`; any other value copied.
pub open spec fn without_field(input: Json, key: Seq<char>, output: Json) -> bool {
    match input {
        Json::Object(entries) => {
            &&& output is Object
            &&& output->Object_0@.len() == entries@.filter(|e: (String, Json)| e.0@ != key).len()
            &&& forall|i: int| 0 <= i < output->Object_0@.len() ==> {
                let e = entries@.filter(|e: (String, Json)| e.0@ != key)[i];
                &&& (#[trigger] output->Object_0@[i]).0@ == e.0@
                &&& same_json(e.1, output->Object_0@[i].1)
            }
        },
        _ => same_json(input, output),
    }
}

/// Removes a field from an object, as the lineage of a Knowledge draft is removed before
/// a Task context is handed to a chat.
pub fn strip_field(value: &Json, key: &str) -> (r: Json)
    ensures
        without_field(*value, key@, r),
{
    match value {
        Json::Object(entries) => {
            let ghost pred = |e: (String, Json)| e.0@ != key@;
            let mut outs: Vec<(String, Json)> = Vec::new();
            let mut i: usize = 0;
            while i < entries.len()
                invariant
                    pred == (|e: (String, Json)| e.0@ != key@),
                    i <= entries@.len(),
                    outs@.len() == entries@.take(i as int).filter(pred).len(),
                    forall|k: int| 0 <= k < outs@.len() ==> {
                        &&& (#[trigger] outs@[k]).0@ == entries@.take(i as int).filter(pred)[k].0@
                        &&& same_json(entries@.take(i as int).filter(pred)[k].1, outs@[k].1)
                    },
                decreases entries.len() - i,
            {
                let ghost before = outs@;
                proof {
                    assert(entries@.take(i as int + 1) =~= entries@.take(i as int).push(entries@[i as int]));
                    entries@.take(i as int).lemma_filter_push(entries@[i as int], pred);
                }
                if !text_eq(entries[i].0.as_str(), key) {
                    let o = copy_json(&entries[i].1);
                    outs.push((entries[i].0.clone(), o));
                }
                i = i + 1;
            }
            assert(entries@.take(entries@.len() as int) =~= entries@);
            Json::Object(outs)
        },
        _ => copy_json(value),
    }
}

/// A Task context ready for a chat, with the hash of the complete snapshot it was cut from.
#[derive(Debug)]
pub struct TaskContext {
    /// The snapshot, bounded.
    pub context: Json,
    /// Lowercase hexadecimal SHA-256 of the complete snapshot, before anything was cut.
    pub source_hash: String,
    /// Whether bounding cut a text or a list.
    pub truncated: bool,
}

/// Prepares a Task context: `snapshot_text` is the complete snapshot as rendered before
/// anything is cut, and is what `source_hash` covers; `prepared` is that snapshot with
/// draft lineage removed and readiness added, and is what gets bounded.
pub fn task_context(prepared: &Json, snapshot_text: &str) -> (r: TaskContext)
    ensures
        context_bound_of(*prepared, r.context),
        r.truncated == context_cut(*prepared),
        r.source_hash@ == text_hash(snapshot_text@),
{
    let source_hash = hash_text(snapshot_text);
    let (context, truncated) = bound_context(prepared);
    TaskContext { context, source_hash, truncated }
}

/// Prepares a Task context, its source hash taken over the complete snapshot as serde_json
/// writes it, before anything is removed or cut.
pub fn snapshot_context(snapshot: &Json, prepared: &Json) -> (r: TaskContext)
    ensures
        context_bound_of(*prepared, r.context),
        r.truncated == context_cut(*prepared),
        r.source_hash@ == request_digest(*snapshot),
{
    let text = serialize_json(snapshot);
    task_context(prepared, text.as_str())
}

} // verus!
