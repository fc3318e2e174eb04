//! Evidence reported by the coding agent, reduced to what is safe to keep: a JSON document
//! model, and the rules that cut arrays, drop unknown object keys and redact text.

use vstd::prelude::*;
use crate::redact::{credential_like, redact_text, redacted, safe_text, safe_view};
use crate::text::text_eq;

verus! {

/// A JSON document as the evidence rules see it. A number is carried by its text, which
/// these rules never read.
#[derive(Debug, PartialEq)]
pub enum Json {
    Null,
    Bool(bool),
    Number(String),
    Text(String),
    Array(Vec<Json>),
    Object(Vec<(String, Json)>),
}

/// What `redact_text` keeps of a text.
pub open spec fn redact_view(s: Seq<char>, max: nat) -> Seq<char> {
    if credential_like(s) {
        redacted()
    } else {
        safe_view(s, max)
    }
}

/// Object keys that evidence may keep.
pub open spec fn evidence_key(k: Seq<char>) -> bool {
    ||| k == "path"@
    ||| k == "kind"@
    ||| k == "status"@
    ||| k == "type"@
    ||| k == "name"@
    ||| k == "summary"@
    ||| k == "description"@
}

/// How many items of an array are kept.
pub open spec fn kept_len(n: nat) -> nat {
    if n < 100 { n } else { 100 }
}

/// `output` is the sanitised form of the evidence value `input`: texts redacted within
/// 4000 bytes, arrays cut to their first 100 items, objects reduced to the evidence keys,
/// everything else unchanged.
pub open spec fn evidence_of(input: Json, output: Json) -> bool
    decreases input,
{
    match input {
        Json::Null => output is Null,
        Json::Bool(b) => output == Json::Bool(b),
        Json::Number(n) => output matches Json::Number(m) && m@ == n@,
        Json::Text(t) => output matches Json::Text(r) && r@ == redact_view(t@, 4000),
        Json::Array(items) => {
            &&& output is Array
            &&& output->Array_0@.len() == kept_len(items@.len())
            &&& forall|i: int|
                0 <= i < output->Array_0@.len() ==> evidence_of(items@[i], #[trigger] output->Array_0@[i])
        },
        Json::Object(entries) => output is Object && kept_entries(entries@, output->Object_0@),
    }
}

/// `outs` holds, in order, the entries of `entries` whose key is an evidence key, each
/// value sanitised.
pub open spec fn kept_entries(entries: Seq<(String, Json)>, outs: Seq<(String, Json)>) -> bool
    decreases entries,
{
    if entries.len() == 0 {
        outs.len() == 0
    } else {
        let e = entries.last();
        if evidence_key(e.0@) {
            &&& outs.len() > 0
            &&& outs.last().0@ == e.0@
            &&& evidence_of(e.1, outs.last().1)
            &&& kept_entries(entries.drop_last(), outs.drop_last())
        } else {
            kept_entries(entries.drop_last(), outs)
        }
    }
}


/// Every object in `j`, at any depth, has only evidence keys, and every array at most 100
/// items.
pub open spec fn bounded_evidence(j: Json) -> bool
    decreases j,
{
    match j {
        Json::Array(items) => {
            &&& items@.len() <= 100
            &&& forall|i: int| 0 <= i < items@.len() ==> bounded_evidence(#[trigger] items@[i])
        },
        Json::Object(entries) => forall|i: int| 0 <= i < entries@.len() ==> {
            &&& evidence_key((#[trigger] entries@[i]).0@)
            &&& bounded_evidence(entries@[i].1)
        },
        _ => true,
    }
}

/// Sanitised evidence, however deep the value it came from, keeps no object key outside
/// the evidence keys and no array longer than 100 items.
pub proof fn sanitized_evidence_is_bounded(input: Json, output: Json)
    requires
        evidence_of(input, output),
    ensures
        bounded_evidence(output),
    decreases input,
{
    match input {
        Json::Array(items) => {
            let outs = output->Array_0@;
            assert forall|i: int| 0 <= i < outs.len() implies bounded_evidence(#[trigger] outs[i]) by {
                assert(decreases_to!(input => input->Array_0));
                assert(decreases_to!(items => items@));
                assert(decreases_to!(items@ => items@[i]));
                sanitized_evidence_is_bounded(items@[i], outs[i]);
            }
        },
        Json::Object(entries) => {
            assert(decreases_to!(input => input->Object_0));
            assert(decreases_to!(entries => entries@));
            kept_entries_are_bounded(entries@, output->Object_0@);
        },
        _ => {},
    }
}

proof fn kept_entries_are_bounded(entries: Seq<(String, Json)>, outs: Seq<(String, Json)>)
    requires
        kept_entries(entries, outs),
    ensures
        forall|i: int| 0 <= i < outs.len() ==> {
            &&& evidence_key((#[trigger] outs[i]).0@)
            &&& bounded_evidence(outs[i].1)
        },
    decreases entries,
{
    if entries.len() > 0 {
        let e = entries.last();
        assert(decreases_to!(entries => entries.drop_last()));
        if evidence_key(e.0@) {
            kept_entries_are_bounded(entries.drop_last(), outs.drop_last());
            assert(decreases_to!(entries => entries[entries.len() - 1]));
            assert(decreases_to!(entries[entries.len() - 1] => entries[entries.len() - 1].1));
            sanitized_evidence_is_bounded(e.1, outs.last().1);
            assert forall|i: int| 0 <= i < outs.len() implies {
                &&& evidence_key((#[trigger] outs[i]).0@)
                &&& bounded_evidence(outs[i].1)
            } by {
                if i < outs.len() - 1 {
                    assert(outs[i] == outs.drop_last()[i]);
                }
            }
        } else {
            kept_entries_are_bounded(entries.drop_last(), outs);
        }
    }
}

fn is_evidence_key(k: &str) -> (r: bool)
    ensures
        r == evidence_key(k@),
{
    text_eq(k, "path") || text_eq(k, "kind") || text_eq(k, "status") || text_eq(k, "type")
        || text_eq(k, "name") || text_eq(k, "summary") || text_eq(k, "description")
}

/// Sanitises one evidence value: texts are redacted within 4000 bytes, arrays keep their
/// first 100 items, objects keep only the evidence keys, and numbers, booleans and null
/// pass unchanged.
pub fn sanitize_evidence_value(value: &Json) -> (r: Json)
    ensures
        evidence_of(*value, r),
    decreases value,
{
    match value {
        Json::Null => Json::Null,
        Json::Bool(b) => Json::Bool(*b),
        Json::Number(n) => Json::Number(n.clone()),
        Json::Text(t) => Json::Text(redact_text(t.as_str(), 4000)),
        Json::Array(items) => {
            let n: usize = if items.len() < 100 { items.len() } else { 100 };
            let mut outs: Vec<Json> = Vec::new();
            let mut i: usize = 0;
            while i < n
                invariant
                    *value == Json::Array(*items),
                    n == kept_len(items@.len()),
                    i <= n,
                    outs@.len() == i,
                    forall|k: int| 0 <= k < i ==> evidence_of(items@[k], #[trigger] outs@[k]),
                decreases n - i,
            {
                proof {
                    assert(decreases_to!(*value => value->Array_0));
                    assert(decreases_to!(*items => items@));
                    assert(decreases_to!(items@ => items@[i as int]));
                }
                let o = sanitize_evidence_value(&items[i]);
                outs.push(o);
                i = i + 1;
            }
            Json::Array(outs)
        },
        Json::Object(entries) => {
            let mut outs: Vec<(String, Json)> = Vec::new();
            let mut i: usize = 0;
            while i < entries.len()
                invariant
                    *value == Json::Object(*entries),
                    i <= entries@.len(),
                    kept_entries(entries@.take(i as int), outs@),
                decreases entries.len() - i,
            {
                let ghost before = outs@;
                assert(entries@.take(i as int + 1).drop_last() =~= entries@.take(i as int));
                if is_evidence_key(entries[i].0.as_str()) {
                    proof {
                        assert(decreases_to!(*value => value->Object_0));
                        assert(decreases_to!(*entries => entries@));
                        assert(decreases_to!(entries@ => entries@[i as int]));
                        assert(decreases_to!(entries@[i as int] => entries@[i as int].1));
                    }
                    let o = sanitize_evidence_value(&entries[i].1);
                    outs.push((entries[i].0.clone(), o));
                    assert(outs@.drop_last() =~= before);
                }
                i = i + 1;
            }
            assert(entries@.take(entries@.len() as int) =~= entries@);
            Json::Object(outs)
        },
    }
}

/// The value under `key` among `entries`, looking from position `i` on: the first entry
/// with that key.
pub open spec fn entry_from(entries: Seq<(String, Json)>, i: int, key: Seq<char>) -> Option<Json>
    decreases entries.len() - i,
{
    if i < 0 || i >= entries.len() {
        None
    } else if entries[i].0@ == key {
        Some(entries[i].1)
    } else {
        entry_from(entries, i + 1, key)
    }
}

/// A field of an object; any other value has none.
pub open spec fn field(value: Json, key: Seq<char>) -> Option<Json> {
    match value {
        Json::Object(entries) => entry_from(entries@, 0, key),
        _ => None,
    }
}

/// Looks up a field of an object.
pub fn get_field<'a>(value: &'a Json, key: &str) -> (r: Option<&'a Json>)
    ensures
        match r {
            Some(v) => field(*value, key@) == Some(*v),
            None => field(*value, key@) is None,
        },
{
    match value {
        Json::Object(entries) => {
            let mut i: usize = 0;
            while i < entries.len()
                invariant
                    *value == Json::Object(*entries),
                    i <= entries@.len(),
                    entry_from(entries@, 0, key@) == entry_from(entries@, i as int, key@),
                decreases entries.len() - i,
            {
                if text_eq(entries[i].0.as_str(), key) {
                    return Some(&entries[i].1);
                }
                i = i + 1;
            }
            None
        },
        _ => None,
    }
}

/// The fields that a completed item may keep, in the order they are written.
pub open spec fn completed_keys() -> Seq<Seq<char>> {
    seq![
        "id"@, "type"@, "status"@, "phase"@, "delivery"@, "text"@, "command"@, "cwd"@,
        "aggregatedOutput"@, "exitCode"@, "name"@, "path"@, "changes"@, "durationMs"@,
    ]
}

fn completed_key(i: usize) -> (k: &'static str)
    requires
        i < 14,
    ensures
        k@ == completed_keys()[i as int],
{
    match i {
        0 => "id",
        1 => "type",
        2 => "status",
        3 => "phase",
        4 => "delivery",
        5 => "text",
        6 => "command",
        7 => "cwd",
        8 => "aggregatedOutput",
        9 => "exitCode",
        10 => "name",
        11 => "path",
        12 => "changes",
        _ => "durationMs",
    }
}

/// One field of a completed item: a text is redacted within 20000 bytes, any other value
/// is sanitised as evidence.
pub open spec fn item_field_of(v: Json, o: Json) -> bool {
    match v {
        Json::Text(t) => o matches Json::Text(r) && r@ == redact_view(t@, 20000),
        _ => evidence_of(v, o),
    }
}

/// `outs` holds, in the order of `keys`, each key that `input` has, with its value
/// sanitised.
pub open spec fn completed_fields(input: Json, keys: Seq<Seq<char>>, outs: Seq<(String, Json)>) -> bool
    decreases keys.len(),
{
    if keys.len() == 0 {
        outs.len() == 0
    } else {
        match field(input, keys.last()) {
            Some(v) => {
                &&& outs.len() > 0
                &&& outs.last().0@ == keys.last()
                &&& item_field_of(v, outs.last().1)
                &&& completed_fields(input, keys.drop_last(), outs.drop_last())
            },
            None => completed_fields(input, keys.drop_last(), outs),
        }
    }
}

/// `output` is the stored form of a completed item.
pub open spec fn completed_item_of(input: Json, output: Json) -> bool {
    output is Object && completed_fields(input, completed_keys(), output->Object_0@)
}

fn sanitize_item_field(v: &Json) -> (r: Json)
    ensures
        item_field_of(*v, r),
{
    match v {
        Json::Text(t) => Json::Text(redact_text(t.as_str(), 20000)),
        _ => sanitize_evidence_value(v),
    }
}

/// Keeps of a completed item only the known fields, each sanitised.
pub fn sanitize_completed_item(value: &Json) -> (r: Json)
    ensures
        completed_item_of(*value, r),
{
    let mut outs: Vec<(String, Json)> = Vec::new();
    let mut i: usize = 0;
    while i < 14
        invariant
            i <= 14,
            completed_keys().len() == 14,
            completed_fields(*value, completed_keys().take(i as int), outs@),
        decreases 14 - i,
    {
        let key = completed_key(i);
        let ghost before = outs@;
        assert(completed_keys().take(i as int + 1).drop_last() =~= completed_keys().take(i as int));
        assert(completed_keys().take(i as int + 1).last() == key@);
        match get_field(value, key) {
            Some(v) => {
                let o = sanitize_item_field(v);
                outs.push((key.to_owned(), o));
                assert(outs@.drop_last() =~= before);
            },
            None => {},
        }
        i = i + 1;
    }
    assert(completed_keys().take(14) =~= completed_keys());
    Json::Object(outs)
}

/// Whether a permission profile turns the network on or off, when it says so with a
/// boolean `network.enabled`.
pub open spec fn network_of(value: Json) -> Option<bool> {
    match field(value, "network"@) {
        Some(n) => match field(n, "enabled"@) {
            Some(Json::Bool(b)) => Some(b),
            _ => None,
        },
        None => None,
    }
}

/// The file-system entries of a permission profile, the first 100 of them, when
/// `fileSystem.entries` is an array.
pub open spec fn filesystem_entries(value: Json) -> Option<Seq<Json>> {
    match field(value, "fileSystem"@) {
        Some(f) => match field(f, "entries"@) {
            Some(Json::Array(items)) => Some(items@.take(kept_len(items@.len()) as int)),
            _ => None,
        },
        None => None,
    }
}

/// The access words a file-system entry may carry.
pub open spec fn access_word(a: Seq<char>) -> bool {
    a == "read"@ || a == "write"@ || a == "deny"@
}

/// The access of a file-system entry, when it is a text and one of the access words.
pub open spec fn entry_access(e: Json) -> Option<Seq<char>> {
    match field(e, "access"@) {
        Some(Json::Text(a)) => if access_word(a@) { Some(a@) } else { None },
        _ => None,
    }
}

/// A file-system entry is kept when it has a valid access and a path.
pub open spec fn entry_kept(e: Json) -> bool {
    entry_access(e) is Some && field(e, "path"@) is Some
}

/// `out` is the object `{access, path}` with the path sanitised as evidence.
pub open spec fn access_entry_of(access: Seq<char>, path: Json, out: Json) -> bool {
    &&& out is Object
    &&& out->Object_0@.len() == 2
    &&& out->Object_0@[0].0@ == "access"@
    &&& out->Object_0@[0].1 matches Json::Text(a) && a@ == access
    &&& out->Object_0@[1].0@ == "path"@
    &&& evidence_of(path, out->Object_0@[1].1)
}

/// `outs` holds, in order, the kept form of each kept entry of `entries`.
pub open spec fn permission_entries(entries: Seq<Json>, outs: Seq<Json>) -> bool
    decreases entries.len(),
{
    if entries.len() == 0 {
        outs.len() == 0
    } else {
        let e = entries.last();
        if entry_kept(e) {
            &&& outs.len() > 0
            &&& access_entry_of(entry_access(e)->0, field(e, "path"@)->0, outs.last())
            &&& permission_entries(entries.drop_last(), outs.drop_last())
        } else {
            permission_entries(entries.drop_last(), outs)
        }
    }
}

/// A field that holds an object of one field.
pub open spec fn single_field(f: (String, Json), key: Seq<char>, inner_key: Seq<char>) -> bool {
    &&& f.0@ == key
    &&& f.1 is Object
    &&& f.1->Object_0@.len() == 1
    &&& f.1->Object_0@[0].0@ == inner_key
}

/// `output` is the stored form of a permission profile: `network.enabled` when it is a
/// boolean, then `fileSystem.entries` when it is an array, each entry kept as above.
pub open spec fn permission_profile_of(value: Json, output: Json) -> bool {
    &&& output is Object
    &&& {
        let fields = output->Object_0@;
        let n: int = if network_of(value) is Some { 1 } else { 0 };
        &&& fields.len() == n + if filesystem_entries(value) is Some { 1int } else { 0int }
        &&& network_of(value) matches Some(b) ==> {
            &&& single_field(fields[0], "network"@, "enabled"@)
            &&& fields[0].1->Object_0@[0].1 == Json::Bool(b)
        }
        &&& filesystem_entries(value) matches Some(es) ==> {
            &&& single_field(fields[n], "fileSystem"@, "entries"@)
            &&& fields[n].1->Object_0@[0].1 is Array
            &&& permission_entries(es, fields[n].1->Object_0@[0].1->Array_0@)
        }
    }
}

fn network_setting(value: &Json) -> (r: Option<bool>)
    ensures
        r == network_of(*value),
{
    match get_field(value, "network") {
        Some(n) => match get_field(n, "enabled") {
            Some(Json::Bool(b)) => Some(*b),
            _ => None,
        },
        None => None,
    }
}

fn listed_entries(value: &Json) -> (r: Option<&Vec<Json>>)
    ensures
        match r {
            Some(items) => filesystem_entries(*value) == Some(items@.take(kept_len(items@.len()) as int)),
            None => filesystem_entries(*value) is None,
        },
{
    match get_field(value, "fileSystem") {
        Some(f) => match get_field(f, "entries") {
            Some(Json::Array(items)) => Some(items),
            _ => None,
        },
        None => None,
    }
}

fn kept_entry(e: &Json) -> (r: Option<Json>)
    ensures
        match r {
            Some(o) => entry_kept(*e) && access_entry_of(entry_access(*e)->0, field(*e, "path"@)->0, o),
            None => !entry_kept(*e),
        },
{
    let access = match get_field(e, "access") {
        Some(Json::Text(a)) => a,
        _ => return None,
    };
    if !(text_eq(access.as_str(), "read") || text_eq(access.as_str(), "write") || text_eq(access.as_str(), "deny")) {
        return None;
    }
    let path = match get_field(e, "path") {
        Some(p) => p,
        None => return None,
    };
    let mut fields: Vec<(String, Json)> = Vec::new();
    fields.push(("access".to_owned(), Json::Text(access.clone())));
    fields.push(("path".to_owned(), sanitize_evidence_value(path)));
    Some(Json::Object(fields))
}

fn one_field(key: &str, value: Json) -> (r: Json)
    ensures
        r is Object,
        r->Object_0@.len() == 1,
        r->Object_0@[0].0@ == key@,
        r->Object_0@[0].1 == value,
{
    let mut fields: Vec<(String, Json)> = Vec::new();
    fields.push((key.to_owned(), value));
    Json::Object(fields)
}

/// Keeps of a permission profile the network switch and at most 100 file-system entries
/// with a known access and a path.
pub fn sanitize_permission_profile(value: &Json) -> (r: Json)
    ensures
        permission_profile_of(*value, r),
{
    let mut fields: Vec<(String, Json)> = Vec::new();
    match network_setting(value) {
        Some(b) => {
            fields.push(("network".to_owned(), one_field("enabled", Json::Bool(b))));
        },
        None => {},
    }
    let ghost n: int = fields@.len() as int;
    match listed_entries(value) {
        Some(items) => {
            let count: usize = if items.len() < 100 { items.len() } else { 100 };
            let mut outs: Vec<Json> = Vec::new();
            let mut i: usize = 0;
            while i < count
                invariant
                    count == kept_len(items@.len()),
                    i <= count,
                    permission_entries(items@.take(i as int), outs@),
                decreases count - i,
            {
                let ghost before = outs@;
                assert(items@.take(i as int + 1).drop_last() =~= items@.take(i as int));
                match kept_entry(&items[i]) {
                    Some(o) => {
                        outs.push(o);
                        assert(outs@.drop_last() =~= before);
                    },
                    None => {},
                }
                i = i + 1;
            }
            fields.push(("fileSystem".to_owned(), one_field("entries", Json::Array(outs))));
        },
        None => {},
    }
    Json::Object(fields)
}

/// `b` holds the same document as `a`.
pub open spec fn same_json(a: Json, b: Json) -> bool
    decreases a,
{
    match a {
        Json::Null => b is Null,
        Json::Bool(x) => b == Json::Bool(x),
        Json::Number(n) => b matches Json::Number(m) && m@ == n@,
        Json::Text(t) => b matches Json::Text(u) && u@ == t@,
        Json::Array(items) => {
            &&& b is Array
            &&& b->Array_0@.len() == items@.len()
            &&& forall|i: int| 0 <= i < items@.len() ==> same_json(items@[i], #[trigger] b->Array_0@[i])
        },
        Json::Object(entries) => {
            &&& b is Object
            &&& b->Object_0@.len() == entries@.len()
            &&& forall|i: int| 0 <= i < entries@.len() ==> {
                &&& (#[trigger] b->Object_0@[i]).0@ == entries@[i].0@
                &&& same_json(entries@[i].1, b->Object_0@[i].1)
            }
        },
    }
}

/// A copy of a document.
pub fn copy_json(value: &Json) -> (r: Json)
    ensures
        same_json(*value, r),
    decreases value,
{
    match value {
        Json::Null => Json::Null,
        Json::Bool(b) => Json::Bool(*b),
        Json::Number(n) => Json::Number(n.clone()),
        Json::Text(t) => Json::Text(t.clone()),
        Json::Array(items) => {
            let mut outs: Vec<Json> = Vec::new();
            let mut i: usize = 0;
            while i < items.len()
                invariant
                    *value == Json::Array(*items),
                    i <= items@.len(),
                    outs@.len() == i,
                    forall|k: int| 0 <= k < i ==> same_json(items@[k], #[trigger] outs@[k]),
                decreases items.len() - i,
            {
                proof {
                    assert(decreases_to!(*value => value->Array_0));
                    assert(decreases_to!(*items => items@));
                    assert(decreases_to!(items@ => items@[i as int]));
                }
                let o = copy_json(&items[i]);
                outs.push(o);
                i = i + 1;
            }
            Json::Array(outs)
        },
        Json::Object(entries) => {
            let mut outs: Vec<(String, Json)> = Vec::new();
            let mut i: usize = 0;
            while i < entries.len()
                invariant
                    *value == Json::Object(*entries),
                    i <= entries@.len(),
                    outs@.len() == i,
                    forall|k: int| 0 <= k < i ==> {
                        &&& (#[trigger] outs@[k]).0@ == entries@[k].0@
                        &&& same_json(entries@[k].1, outs@[k].1)
                    },
                decreases entries.len() - i,
            {
                proof {
                    assert(decreases_to!(*value => value->Object_0));
                    assert(decreases_to!(*entries => entries@));
                    assert(decreases_to!(entries@ => entries@[i as int]));
                    assert(decreases_to!(entries@[i as int] => entries@[i as int].1));
                }
                let o = copy_json(&entries[i].1);
                outs.push((entries[i].0.clone(), o));
                i = i + 1;
            }
            Json::Object(outs)
        },
    }
}

/// A field that is a text.
pub open spec fn text_field(value: Json, key: Seq<char>) -> Option<Seq<char>> {
    match field(value, key) {
        Some(Json::Text(t)) => Some(t@),
        _ => None,
    }
}

/// A field that is a boolean.
pub open spec fn bool_field(value: Json, key: Seq<char>) -> Option<bool> {
    match field(value, key) {
        Some(Json::Bool(b)) => Some(b),
        _ => None,
    }
}

/// A text, or the empty text.
pub open spec fn or_empty(o: Option<Seq<char>>) -> Seq<char> {
    match o {
        Some(t) => t,
        None => Seq::empty(),
    }
}

/// A boolean, or a default.
pub open spec fn or_bool(o: Option<bool>, default: bool) -> bool {
    match o {
        Some(b) => b,
        None => default,
    }
}

/// The items of an array field, the first `limit` of them; none when the field is no array.
pub open spec fn array_field(value: Json, key: Seq<char>, limit: nat) -> Seq<Json> {
    match field(value, key) {
        Some(Json::Array(items)) => items@.take(if items@.len() < limit { items@.len() as int } else { limit as int }),
        _ => Seq::empty(),
    }
}

/// `f` is the field `key` holding a text whose view is `t`.
pub open spec fn text_entry(f: (String, Json), key: Seq<char>, t: Seq<char>) -> bool {
    &&& f.0@ == key
    &&& f.1 matches Json::Text(u) && u@ == t
}

/// `f` is the field `key` holding the boolean `b`.
pub open spec fn bool_entry(f: (String, Json), key: Seq<char>, b: bool) -> bool {
    f.0@ == key && f.1 == Json::Bool(b)
}

/// `outs` holds, in order, each offered option of `options` that has a text label: the
/// label redacted within 200 bytes, its description within 500.
pub open spec fn option_entries(options: Seq<Json>, outs: Seq<Json>) -> bool
    decreases options.len(),
{
    if options.len() == 0 {
        outs.len() == 0
    } else {
        let o = options.last();
        match text_field(o, "label"@) {
            Some(label) => {
                &&& outs.len() > 0
                &&& outs.last() is Object
                &&& outs.last()->Object_0@.len() == 2
                &&& text_entry(outs.last()->Object_0@[0], "label"@, redact_view(label, 200))
                &&& text_entry(outs.last()->Object_0@[1], "description"@,
                    redact_view(or_empty(text_field(o, "description"@)), 500))
                &&& option_entries(options.drop_last(), outs.drop_last())
            },
            None => option_entries(options.drop_last(), outs),
        }
    }
}

/// `out` is the stored form of one question of a user-input request.
pub open spec fn question_of(q: Json, out: Json) -> bool {
    &&& out is Object
    &&& {
        let f = out->Object_0@;
        &&& f.len() == 6
        &&& text_entry(f[0], "id"@, or_empty(text_field(q, "id"@)))
        &&& text_entry(f[1], "header"@, redact_view(or_empty(text_field(q, "header"@)), 200))
        &&& text_entry(f[2], "question"@, redact_view(or_empty(text_field(q, "question"@)), 2000))
        &&& bool_entry(f[3], "isOther"@, or_bool(bool_field(q, "isOther"@), false))
        &&& bool_entry(f[4], "isSecret"@, or_bool(bool_field(q, "isSecret"@), false))
        &&& f[5].0@ == "options"@
        &&& f[5].1 is Array
        &&& option_entries(array_field(q, "options"@, 30), f[5].1->Array_0@)
    }
}

/// The decisions a request may offer.
pub open spec fn known_decision(d: Seq<char>) -> bool {
    d == "accept"@ || d == "acceptForSession"@ || d == "decline"@ || d == "cancel"@
}

/// `outs` holds, in order, the texts of `ds` that are known decisions.
pub open spec fn known_decisions(ds: Seq<Json>, outs: Seq<Json>) -> bool
    decreases ds.len(),
{
    if ds.len() == 0 {
        outs.len() == 0
    } else {
        match ds.last() {
            Json::Text(t) if known_decision(t@) => {
                &&& outs.len() > 0
                &&& outs.last() matches Json::Text(u) && u@ == t@
                &&& known_decisions(ds.drop_last(), outs.drop_last())
            },
            _ => known_decisions(ds.drop_last(), outs),
        }
    }
}

/// `out` is `value`'s field `key` copied, or null when there is none.
pub open spec fn copied_or_null(value: Json, key: Seq<char>, out: Json) -> bool {
    match field(value, key) {
        Some(v) => same_json(v, out),
        None => out is Null,
    }
}

/// The offered decisions of a request, when it lists them in an array.
pub open spec fn offered_decisions(value: Json) -> Option<Seq<Json>> {
    match field(value, "availableDecisions"@) {
        Some(Json::Array(ds)) => Some(ds@),
        _ => None,
    }
}

/// `out` is the stored form of a formal request of the given kind: its identifiers copied,
/// its texts redacted, at most 20 questions, the known offered decisions, and for a
/// permissions approval the sanitised permission profile.
pub open spec fn formal_request_of(kind: Seq<char>, value: Json, out: Json) -> bool {
    &&& out is Object
    &&& {
        let f = out->Object_0@;
        let qs = array_field(value, "questions"@, 20);
        let d: int = if offered_decisions(value) is Some { 1 } else { 0 };
        let p: int = if kind == "permissions_approval"@ { 1 } else { 0 };
        &&& f.len() == 8 + d + p
        &&& f[0].0@ == "threadId"@ && copied_or_null(value, "threadId"@, f[0].1)
        &&& f[1].0@ == "turnId"@ && copied_or_null(value, "turnId"@, f[1].1)
        &&& f[2].0@ == "itemId"@ && copied_or_null(value, "itemId"@, f[2].1)
        &&& text_entry(f[3], "reason"@, redact_view(or_empty(text_field(value, "reason"@)), 2000))
        &&& text_entry(f[4], "command"@, redact_view(or_empty(text_field(value, "command"@)), 4000))
        &&& f[5].0@ == "cwd"@
        &&& match text_field(value, "cwd"@) {
            Some(c) => f[5].1 matches Json::Text(u) && u@ == redact_view(c, 4000),
            None => f[5].1 is Null,
        }
        &&& bool_entry(f[6], "isBlocking"@, or_bool(bool_field(value, "isBlocking"@), true))
        &&& f[7].0@ == "questions"@
        &&& f[7].1 is Array
        &&& f[7].1->Array_0@.len() == qs.len()
        &&& forall|i: int| 0 <= i < qs.len() ==> question_of(qs[i], #[trigger] f[7].1->Array_0@[i])
        &&& offered_decisions(value) matches Some(ds) ==> {
            &&& f[8].0@ == "availableDecisions"@
            &&& f[8].1 is Array
            &&& known_decisions(ds, f[8].1->Array_0@)
        }
        &&& p == 1 ==> {
            &&& f[8 + d].0@ == "permissions"@
            &&& permission_profile_of(
                match field(value, "permissions"@) { Some(v) => v, None => Json::Null },
                f[8 + d].1,
            )
        }
    }
}

fn text_or_empty<'a>(value: &'a Json, key: &str) -> (r: &'a str)
    ensures
        r@ == or_empty(text_field(*value, key@)),
{
    match get_field(value, key) {
        Some(Json::Text(t)) => t.as_str(),
        _ => {
            proof {
                reveal_strlit("");
            }
            ""
        },
    }
}

fn bool_or(value: &Json, key: &str, default: bool) -> (r: bool)
    ensures
        r == or_bool(bool_field(*value, key@), default),
{
    match get_field(value, key) {
        Some(Json::Bool(b)) => *b,
        _ => default,
    }
}

fn array_items<'a>(value: &'a Json, key: &str) -> (r: Option<&'a Vec<Json>>)
    ensures
        match r {
            Some(items) => field(*value, key@) == Some(Json::Array(*items)),
            None => !(field(*value, key@) matches Some(Json::Array(_))),
        },
{
    match get_field(value, key) {
        Some(Json::Array(items)) => Some(items),
        _ => None,
    }
}

fn text_pair(key: &str, text: String) -> (r: (String, Json))
    ensures
        text_entry(r, key@, text@),
{
    (key.to_owned(), Json::Text(text))
}

fn sanitize_options(q: &Json) -> (r: Vec<Json>)
    ensures
        option_entries(array_field(*q, "options"@, 30), r@),
{
    let mut outs: Vec<Json> = Vec::new();
    match array_items(q, "options") {
        Some(options) => {
            let count: usize = if options.len() < 30 { options.len() } else { 30 };
            let mut i: usize = 0;
            while i < count
                invariant
                    count == (if options@.len() < 30 { options@.len() } else { 30 }),
                    i <= count,
                    option_entries(options@.take(i as int), outs@),
                decreases count - i,
            {
                let ghost before = outs@;
                assert(options@.take(i as int + 1).drop_last() =~= options@.take(i as int));
                match get_field(&options[i], "label") {
                    Some(Json::Text(label)) => {
                        let mut f: Vec<(String, Json)> = Vec::new();
                        f.push(text_pair("label", redact_text(label.as_str(), 200)));
                        let description = text_or_empty(&options[i], "description");
                        f.push(text_pair("description", redact_text(description, 500)));
                        outs.push(Json::Object(f));
                        assert(outs@.drop_last() =~= before);
                    },
                    _ => {},
                }
                i = i + 1;
            }
            assert(options@.take(count as int) =~= array_field(*q, "options"@, 30));
        },
        None => {},
    }
    outs
}

fn sanitize_question(q: &Json) -> (r: Json)
    ensures
        question_of(*q, r),
{
    let mut f: Vec<(String, Json)> = Vec::new();
    f.push(text_pair("id", text_or_empty(q, "id").to_owned()));
    f.push(text_pair("header", redact_text(text_or_empty(q, "header"), 200)));
    f.push(text_pair("question", redact_text(text_or_empty(q, "question"), 2000)));
    f.push(("isOther".to_owned(), Json::Bool(bool_or(q, "isOther", false))));
    f.push(("isSecret".to_owned(), Json::Bool(bool_or(q, "isSecret", false))));
    f.push(("options".to_owned(), Json::Array(sanitize_options(q))));
    Json::Object(f)
}

fn sanitize_questions(value: &Json) -> (r: Vec<Json>)
    ensures
        r@.len() == array_field(*value, "questions"@, 20).len(),
        forall|i: int| 0 <= i < r@.len() ==> question_of(array_field(*value, "questions"@, 20)[i], #[trigger] r@[i]),
{
    let mut outs: Vec<Json> = Vec::new();
    match array_items(value, "questions") {
        Some(qs) => {
            let count: usize = if qs.len() < 20 { qs.len() } else { 20 };
            let mut i: usize = 0;
            while i < count
                invariant
                    count == (if qs@.len() < 20 { qs@.len() } else { 20 }),
                    i <= count,
                    outs@.len() == i,
                    forall|k: int| 0 <= k < i ==> question_of(qs@[k], #[trigger] outs@[k]),
                decreases count - i,
            {
                outs.push(sanitize_question(&qs[i]));
                i = i + 1;
            }
        },
        None => {},
    }
    outs
}

fn sanitize_decisions(ds: &Vec<Json>) -> (r: Vec<Json>)
    ensures
        known_decisions(ds@, r@),
{
    let mut outs: Vec<Json> = Vec::new();
    let mut i: usize = 0;
    while i < ds.len()
        invariant
            i <= ds@.len(),
            known_decisions(ds@.take(i as int), outs@),
        decreases ds.len() - i,
    {
        let ghost before = outs@;
        assert(ds@.take(i as int + 1).drop_last() =~= ds@.take(i as int));
        match &ds[i] {
            Json::Text(t) => {
                let d = t.as_str();
                if text_eq(d, "accept") || text_eq(d, "acceptForSession") || text_eq(d, "decline") || text_eq(d, "cancel") {
                    outs.push(Json::Text(t.clone()));
                    assert(outs@.drop_last() =~= before);
                }
            },
            _ => {},
        }
        i = i + 1;
    }
    assert(ds@.take(ds@.len() as int) =~= ds@);
    outs
}

fn copy_field(value: &Json, key: &str) -> (r: Json)
    ensures
        copied_or_null(*value, key@, r),
{
    match get_field(value, key) {
        Some(v) => copy_json(v),
        None => Json::Null,
    }
}

/// Keeps of a formal request from the coding agent what may be stored and shown: its
/// identifiers, its texts redacted, at most 20 questions of at most 30 options, the known
/// offered decisions, and for a permissions approval the sanitised permission profile.
pub fn sanitize_formal_request(kind: &str, value: &Json) -> (r: Json)
    ensures
        formal_request_of(kind@, *value, r),
{
    let mut f: Vec<(String, Json)> = Vec::new();
    f.push(("threadId".to_owned(), copy_field(value, "threadId")));
    f.push(("turnId".to_owned(), copy_field(value, "turnId")));
    f.push(("itemId".to_owned(), copy_field(value, "itemId")));
    f.push(text_pair("reason", redact_text(text_or_empty(value, "reason"), 2000)));
    f.push(text_pair("command", redact_text(text_or_empty(value, "command"), 4000)));
    let cwd = match get_field(value, "cwd") {
        Some(Json::Text(c)) => Json::Text(redact_text(c.as_str(), 4000)),
        _ => Json::Null,
    };
    f.push(("cwd".to_owned(), cwd));
    f.push(("isBlocking".to_owned(), Json::Bool(bool_or(value, "isBlocking", true))));
    f.push(("questions".to_owned(), Json::Array(sanitize_questions(value))));
    match array_items(value, "availableDecisions") {
        Some(ds) => {
            f.push(("availableDecisions".to_owned(), Json::Array(sanitize_decisions(ds))));
        },
        None => {},
    }
    if text_eq(kind, "permissions_approval") {
        let profile = match get_field(value, "permissions") {
            Some(p) => sanitize_permission_profile(p),
            None => sanitize_permission_profile(&Json::Null),
        };
        f.push(("permissions".to_owned(), profile));
    }
    Json::Object(f)
}

/// The path one change names: the change itself when it is a text, else its text `path`.
pub open spec fn change_path(c: Json) -> Option<Seq<char>> {
    match c {
        Json::Text(t) => Some(t@),
        _ => text_field(c, "path"@),
    }
}

/// The changes an item lists, when `changes` is an array.
pub open spec fn changes_of(v: Json) -> Seq<Json> {
    match field(v, "changes"@) {
        Some(Json::Array(cs)) => cs@,
        _ => Seq::empty(),
    }
}

/// The paths of a list of changes, in order, each cut to 2000 bytes.
pub open spec fn paths_of(changes: Seq<Json>) -> Seq<Seq<char>>
    decreases changes.len(),
{
    if changes.len() == 0 {
        Seq::empty()
    } else {
        let rest = paths_of(changes.drop_last());
        match change_path(changes.last()) {
            Some(p) => rest.push(safe_view(p, 2000)),
            None => rest,
        }
    }
}

/// The paths that a completed item changed.
pub fn item_paths(v: &Json) -> (r: Vec<String>)
    ensures
        r@.map_values(|s: String| s@) == paths_of(changes_of(*v)),
{
    let mut out: Vec<String> = Vec::new();
    match array_items(v, "changes") {
        Some(changes) => {
            let mut i: usize = 0;
            while i < changes.len()
                invariant
                    i <= changes@.len(),
                    out@.map_values(|s: String| s@) == paths_of(changes@.take(i as int)),
                decreases changes.len() - i,
            {
                assert(changes@.take(i as int + 1).drop_last() =~= changes@.take(i as int));
                let path: Option<&str> = match &changes[i] {
                    Json::Text(t) => Some(t.as_str()),
                    c => match get_field(c, "path") {
                        Some(Json::Text(p)) => Some(p.as_str()),
                        _ => None,
                    },
                };
                match path {
                    Some(p) => {
                        let ghost before = out@;
                        out.push(safe_text(p, 2000));
                        assert(out@.map_values(|s: String| s@) =~= before.map_values(|s: String| s@).push(safe_view(p@, 2000)));
                    },
                    None => {},
                }
                i = i + 1;
            }
            assert(changes@.take(changes@.len() as int) =~= changes@);
        },
        None => {},
    }
    out
}

/// The text that sums up an item: its first text field among `text`, `aggregatedOutput`,
/// `command`, `name` and `path`.
pub open spec fn summary_text(v: Json) -> Option<Seq<char>> {
    if text_field(v, "text"@) is Some {
        text_field(v, "text"@)
    } else if text_field(v, "aggregatedOutput"@) is Some {
        text_field(v, "aggregatedOutput"@)
    } else if text_field(v, "command"@) is Some {
        text_field(v, "command"@)
    } else if text_field(v, "name"@) is Some {
        text_field(v, "name"@)
    } else {
        text_field(v, "path"@)
    }
}

fn first_text<'a>(v: &'a Json, key: &str) -> (r: Option<&'a str>)
    ensures
        match r {
            Some(t) => text_field(*v, key@) == Some(t@),
            None => text_field(*v, key@) is None,
        },
{
    match get_field(v, key) {
        Some(Json::Text(t)) => Some(t.as_str()),
        _ => None,
    }
}

/// A summary of a completed item within 2000 bytes: its first text field, else
/// `rendered`, the item written out as JSON text.
pub fn item_summary(v: &Json, rendered: &str) -> (r: String)
    ensures
        r@ == safe_view(
            match summary_text(*v) {
                Some(t) => t,
                None => rendered@,
            },
            2000,
        ),
{
    let found = match first_text(v, "text") {
        Some(t) => Some(t),
        None => match first_text(v, "aggregatedOutput") {
            Some(t) => Some(t),
            None => match first_text(v, "command") {
                Some(t) => Some(t),
                None => match first_text(v, "name") {
                    Some(t) => Some(t),
                    None => first_text(v, "path"),
                },
            },
        },
    };
    match found {
        Some(t) => safe_text(t, 2000),
        None => safe_text(rendered, 2000),
    }
}

/// All items of an array field; none when the field is no array.
pub open spec fn items_field(v: Json, key: Seq<char>) -> Seq<Json> {
    match field(v, key) {
        Some(Json::Array(items)) => items@,
        _ => Seq::empty(),
    }
}

/// The texts among `ds`, in order.
pub open spec fn texts_of(ds: Seq<Json>) -> Seq<Seq<char>>
    decreases ds.len(),
{
    if ds.len() == 0 {
        Seq::empty()
    } else {
        match ds.last() {
            Json::Text(t) => texts_of(ds.drop_last()).push(t@),
            _ => texts_of(ds.drop_last()),
        }
    }
}

/// The decisions a request of this kind offers when it lists none.
pub open spec fn default_decision_words(kind: Seq<char>) -> Seq<Seq<char>> {
    if kind == "command_approval"@ || kind == "file_change_approval"@ {
        seq!["accept"@, "acceptForSession"@, "decline"@, "cancel"@]
    } else if kind == "permissions_approval"@ {
        seq!["accept"@, "decline"@]
    } else {
        Seq::empty()
    }
}

/// The decisions to show for a stored request.
pub open spec fn shown_decisions(kind: Seq<char>, v: Json) -> Seq<Seq<char>> {
    match offered_decisions(v) {
        Some(ds) => texts_of(ds),
        None => default_decision_words(kind),
    }
}

/// The words shown for a decision.
pub open spec fn decision_label(d: Seq<char>) -> Seq<char> {
    if d == "accept"@ {
        "Allow"@
    } else if d == "acceptForSession"@ {
        "Allow for this session"@
    } else if d == "decline"@ {
        "Deny"@
    } else if d == "cancel"@ {
        "Deny and stop"@
    } else {
        d
    }
}

/// `out` is the choice `{value, label}` for decision `d`.
pub open spec fn choice_of(d: Seq<char>, out: Json) -> bool {
    &&& out is Object
    &&& out->Object_0@.len() == 2
    &&& text_entry(out->Object_0@[0], "value"@, d)
    &&& text_entry(out->Object_0@[1], "label"@, decision_label(d))
}

/// `outs` holds, in order, the choice `{value, label, description}` of each option that
/// has a text label.
pub open spec fn option_choices(options: Seq<Json>, outs: Seq<Json>) -> bool
    decreases options.len(),
{
    if options.len() == 0 {
        outs.len() == 0
    } else {
        let o = options.last();
        match text_field(o, "label"@) {
            Some(label) => {
                &&& outs.len() > 0
                &&& outs.last() is Object
                &&& outs.last()->Object_0@.len() == 3
                &&& text_entry(outs.last()->Object_0@[0], "value"@, label)
                &&& text_entry(outs.last()->Object_0@[1], "label"@, label)
                &&& text_entry(outs.last()->Object_0@[2], "description"@, or_empty(text_field(o, "description"@)))
                &&& option_choices(options.drop_last(), outs.drop_last())
            },
            None => option_choices(options.drop_last(), outs),
        }
    }
}

/// What a question asks: its `question` when present (empty unless a text), else its
/// text `prompt`.
pub open spec fn prompt_of(q: Json) -> Seq<char> {
    match field(q, "question"@) {
        Some(x) => match x {
            Json::Text(t) => t@,
            _ => Seq::empty(),
        },
        None => or_empty(text_field(q, "prompt"@)),
    }
}

/// `out` is a stored question as shown for answering.
pub open spec fn shown_question_of(q: Json, out: Json) -> bool {
    &&& out is Object
    &&& {
        let f = out->Object_0@;
        &&& f.len() == 6
        &&& text_entry(f[0], "id"@, or_empty(text_field(q, "id"@)))
        &&& text_entry(f[1], "header"@,
            match text_field(q, "header"@) { Some(h) => h, None => "Question"@ })
        &&& text_entry(f[2], "prompt"@, prompt_of(q))
        &&& f[3].0@ == "options"@
        &&& f[3].1 is Array
        &&& option_choices(items_field(q, "options"@), f[3].1->Array_0@)
        &&& bool_entry(f[4], "allowOther"@, or_bool(bool_field(q, "isOther"@), false))
        &&& bool_entry(f[5], "isSecret"@, or_bool(bool_field(q, "isSecret"@), false))
    }
}

/// `out` is a value that may be absent: null when it is, else a copy of it.
pub open spec fn optional_copy(o: Option<Json>, out: Json) -> bool {
    match o {
        Some(v) => same_json(v, out),
        None => out is Null,
    }
}

/// `out` is what a stored formal request shows: its identity and state, a title and a
/// prompt, a choice for each decision it offers (or its kind's default decisions), its
/// questions, and the error, proposed response and response recorded for it.
pub open spec fn formal_projection_of(
    id: Seq<char>,
    kind: Seq<char>,
    status: Seq<char>,
    blocking: bool,
    v: Json,
    error: Option<Seq<char>>,
    proposed: Option<Json>,
    response: Option<Json>,
    out: Json,
) -> bool {
    &&& out is Object
    &&& {
        let f = out->Object_0@;
        let ds = shown_decisions(kind, v);
        let qs = items_field(v, "questions"@);
        &&& f.len() == 11
        &&& text_entry(f[0], "id"@, id)
        &&& text_entry(f[1], "kind"@, kind)
        &&& text_entry(f[2], "status"@, status)
        &&& bool_entry(f[3], "isBlocking"@, blocking)
        &&& text_entry(f[4], "title"@, if kind == "user_input"@ { "Codex question"@ } else { "Codex approval"@ })
        &&& text_entry(f[5], "prompt"@,
            match text_field(v, "reason"@) { Some(r) => r, None => "Codex needs a structured response."@ })
        &&& f[6].0@ == "choices"@
        &&& f[6].1 is Array
        &&& f[6].1->Array_0@.len() == ds.len()
        &&& forall|i: int| 0 <= i < ds.len() ==> choice_of(ds[i], #[trigger] f[6].1->Array_0@[i])
        &&& f[7].0@ == "questions"@
        &&& f[7].1 is Array
        &&& f[7].1->Array_0@.len() == qs.len()
        &&& forall|i: int| 0 <= i < qs.len() ==> shown_question_of(qs[i], #[trigger] f[7].1->Array_0@[i])
        &&& f[8].0@ == "error"@
        &&& match error {
            Some(e) => f[8].1 matches Json::Text(u) && u@ == e,
            None => f[8].1 is Null,
        }
        &&& f[9].0@ == "proposedResponse"@ && optional_copy(proposed, f[9].1)
        &&& f[10].0@ == "response"@ && optional_copy(response, f[10].1)
    }
}

fn text_or<'a>(v: &'a Json, key: &str, default: &'a str) -> (r: &'a str)
    ensures
        r@ == match text_field(*v, key@) {
            Some(t) => t,
            None => default@,
        },
{
    match first_text(v, key) {
        Some(t) => t,
        None => default,
    }
}

fn decision_words(kind: &str, v: &Json) -> (r: Vec<String>)
    ensures
        r@.map_values(|s: String| s@) == shown_decisions(kind@, *v),
{
    let mut out: Vec<String> = Vec::new();
    match array_items(v, "availableDecisions") {
        Some(ds) => {
            let mut i: usize = 0;
            while i < ds.len()
                invariant
                    i <= ds@.len(),
                    out@.map_values(|s: String| s@) == texts_of(ds@.take(i as int)),
                decreases ds.len() - i,
            {
                assert(ds@.take(i as int + 1).drop_last() =~= ds@.take(i as int));
                match &ds[i] {
                    Json::Text(t) => {
                        let ghost before = out@;
                        out.push(t.clone());
                        assert(out@.map_values(|s: String| s@) =~= before.map_values(|s: String| s@).push(t@));
                    },
                    _ => {},
                }
                i = i + 1;
            }
            assert(ds@.take(ds@.len() as int) =~= ds@);
        },
        None => {
            if text_eq(kind, "command_approval") || text_eq(kind, "file_change_approval") {
                out.push("accept".to_owned());
                out.push("acceptForSession".to_owned());
                out.push("decline".to_owned());
                out.push("cancel".to_owned());
            } else if text_eq(kind, "permissions_approval") {
                out.push("accept".to_owned());
                out.push("decline".to_owned());
            }
            assert(out@.map_values(|s: String| s@) =~= default_decision_words(kind@));
        },
    }
    out
}

fn label_for(d: &str) -> (r: &str)
    ensures
        r@ == decision_label(d@),
{
    if text_eq(d, "accept") {
        "Allow"
    } else if text_eq(d, "acceptForSession") {
        "Allow for this session"
    } else if text_eq(d, "decline") {
        "Deny"
    } else if text_eq(d, "cancel") {
        "Deny and stop"
    } else {
        d
    }
}

fn shown_options(q: &Json) -> (r: Vec<Json>)
    ensures
        option_choices(items_field(*q, "options"@), r@),
{
    let mut outs: Vec<Json> = Vec::new();
    match array_items(q, "options") {
        Some(options) => {
            let mut i: usize = 0;
            while i < options.len()
                invariant
                    i <= options@.len(),
                    option_choices(options@.take(i as int), outs@),
                decreases options.len() - i,
            {
                let ghost before = outs@;
                assert(options@.take(i as int + 1).drop_last() =~= options@.take(i as int));
                match first_text(&options[i], "label") {
                    Some(label) => {
                        let mut f: Vec<(String, Json)> = Vec::new();
                        f.push(text_pair("value", label.to_owned()));
                        f.push(text_pair("label", label.to_owned()));
                        f.push(text_pair("description", text_or_empty(&options[i], "description").to_owned()));
                        outs.push(Json::Object(f));
                        assert(outs@.drop_last() =~= before);
                    },
                    None => {},
                }
                i = i + 1;
            }
            assert(options@.take(options@.len() as int) =~= options@);
        },
        None => {},
    }
    outs
}

fn shown_question(q: &Json) -> (r: Json)
    ensures
        shown_question_of(*q, r),
{
    let prompt: &str = match get_field(q, "question") {
        Some(x) => match x {
            Json::Text(t) => t.as_str(),
            _ => {
                proof {
                    reveal_strlit("");
                }
                ""
            },
        },
        None => text_or_empty(q, "prompt"),
    };
    let mut f: Vec<(String, Json)> = Vec::new();
    f.push(text_pair("id", text_or_empty(q, "id").to_owned()));
    f.push(text_pair("header", text_or(q, "header", "Question").to_owned()));
    f.push(text_pair("prompt", prompt.to_owned()));
    f.push(("options".to_owned(), Json::Array(shown_options(q))));
    f.push(("allowOther".to_owned(), Json::Bool(bool_or(q, "isOther", false))));
    f.push(("isSecret".to_owned(), Json::Bool(bool_or(q, "isSecret", false))));
    assert(prompt@ == prompt_of(*q));
    Json::Object(f)
}

fn copy_optional(o: Option<Json>) -> (r: Json)
    ensures
        optional_copy(o, r),
{
    match o {
        Some(v) => copy_json(&v),
        None => Json::Null,
    }
}

/// What a stored formal request shows for answering it.
pub fn formal_projection(
    id: String,
    kind: &str,
    status: String,
    blocking: bool,
    v: &Json,
    error: Option<String>,
    proposed_response: Option<Json>,
    response: Option<Json>,
) -> (r: Json)
    ensures
        formal_projection_of(
            id@,
            kind@,
            status@,
            blocking,
            *v,
            match error {
                Some(e) => Some(e@),
                None => None,
            },
            proposed_response,
            response,
            r,
        ),
{
    let words = decision_words(kind, v);
    let mut choices: Vec<Json> = Vec::new();
    let mut i: usize = 0;
    while i < words.len()
        invariant
            i <= words@.len(),
            choices@.len() == i,
            forall|k: int| 0 <= k < i ==> choice_of(words@[k]@, #[trigger] choices@[k]),
        decreases words.len() - i,
    {
        let d = words[i].as_str();
        let mut f: Vec<(String, Json)> = Vec::new();
        f.push(text_pair("value", d.to_owned()));
        f.push(text_pair("label", label_for(d).to_owned()));
        choices.push(Json::Object(f));
        i = i + 1;
    }
    assert forall|k: int| 0 <= k < words@.len() implies words@[k]@ == shown_decisions(kind@, *v)[k] by {
        assert(words@.map_values(|s: String| s@)[k] == words@[k]@);
    }
    let mut questions: Vec<Json> = Vec::new();
    match array_items(v, "questions") {
        Some(qs) => {
            let mut j: usize = 0;
            while j < qs.len()
                invariant
                    j <= qs@.len(),
                    questions@.len() == j,
                    forall|k: int| 0 <= k < j ==> shown_question_of(qs@[k], #[trigger] questions@[k]),
                decreases qs.len() - j,
            {
                questions.push(shown_question(&qs[j]));
                j = j + 1;
            }
        },
        None => {},
    }
    let mut f: Vec<(String, Json)> = Vec::new();
    f.push(("id".to_owned(), Json::Text(id)));
    f.push(text_pair("kind", kind.to_owned()));
    f.push(("status".to_owned(), Json::Text(status)));
    f.push(("isBlocking".to_owned(), Json::Bool(blocking)));
    let title = if text_eq(kind, "user_input") { "Codex question" } else { "Codex approval" };
    f.push(text_pair("title", title.to_owned()));
    f.push(text_pair("prompt", text_or(v, "reason", "Codex needs a structured response.").to_owned()));
    f.push(("choices".to_owned(), Json::Array(choices)));
    f.push(("questions".to_owned(), Json::Array(questions)));
    let shown_error = match error {
        Some(e) => Json::Text(e),
        None => Json::Null,
    };
    f.push(("error".to_owned(), shown_error));
    f.push(("proposedResponse".to_owned(), copy_optional(proposed_response)));
    f.push(("response".to_owned(), copy_optional(response)));
    Json::Object(f)
}

} // verus!
