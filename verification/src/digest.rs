//! SHA-256 content hashes rendered as lowercase hexadecimal text.

use vstd::prelude::*;
use sha2::Digest;
use crate::evidence::Json;
use crate::text::{push_char, utf8};

verus! {

/// What SHA-256 computes for the given bytes.
pub uninterp spec fn sha256_digest(data: Seq<u8>) -> Seq<u8>;

/// The SHA-256 digest of `data`.
///
/// Trusted: calls `sha2::Sha256::digest` (through the `digest::Digest` trait);
/// its result is fixed by the bytes alone and is 32 bytes long (`U32` output).
#[verifier::external_body]
pub(crate) fn sha256(data: &[u8]) -> (out: Vec<u8>)
    ensures
        out@ == sha256_digest(data@),
        out@.len() == 32,
{
    sha2::Sha256::digest(data).to_vec()
}

/// The lowercase hexadecimal digit for a value below sixteen.
pub open spec fn hex_digit(v: u8) -> char {
    if v < 10 {
        ((v as u32) + 48) as char
    } else {
        ((v as u32) + 87) as char
    }
}

/// Lowercase hexadecimal rendering, two digits per byte, high nibble first.
pub open spec fn hex_lower(bytes: Seq<u8>) -> Seq<char>
    decreases bytes.len(),
{
    if bytes.len() == 0 {
        Seq::empty()
    } else {
        hex_lower(bytes.drop_last()).push(hex_digit(bytes.last() / 16)).push(
            hex_digit(bytes.last() % 16),
        )
    }
}

fn hex_char(v: u8) -> (c: char)
    requires
        v < 16,
    ensures
        c == hex_digit(v),
{
    if v < 10 {
        ((v + 48) as char)
    } else {
        ((v + 87) as char)
    }
}

/// Renders bytes as lowercase hexadecimal.
pub fn to_hex_lower(bytes: &[u8]) -> (out: String)
    ensures
        out@ == hex_lower(bytes@),
{
    let mut out = String::new();
    let mut i: usize = 0;
    while i < bytes.len()
        invariant
            i <= bytes@.len(),
            out@ == hex_lower(bytes@.take(i as int)),
        decreases bytes@.len() - i,
    {
        let b = bytes[i];
        push_char(&mut out, hex_char(b / 16));
        push_char(&mut out, hex_char(b % 16));
        proof {
            assert(bytes@.take(i as int + 1).drop_last() =~= bytes@.take(i as int));
        }
        i = i + 1;
    }
    proof {
        assert(bytes@.take(bytes@.len() as int) =~= bytes@);
    }
    out
}

/// The lowercase-hex SHA-256 of a text's UTF-8 bytes.
pub open spec fn text_hash(text: Seq<char>) -> Seq<char> {
    hex_lower(sha256_digest(utf8(text)))
}

/// Hashes a text: lowercase hexadecimal SHA-256 of its UTF-8 bytes.
pub fn hash_text(value: &str) -> (out: String)
    ensures
        out@ == text_hash(value@),
{
    let digest = sha256(value.as_bytes());
    to_hex_lower(digest.as_slice())
}

/// A JSON document as a serde_json value.
#[verifier::external_type_specification]
#[verifier::external_body]
pub struct ExJsonValue(serde_json::Value);

/// The compact text serde_json writes for a document.
pub uninterp spec fn json_text(value: Json) -> Seq<char>;

/// Converts a document into a serde_json value, one node for one node; a number whose
/// text serde_json does not read as a number becomes null.
///
/// Trusted: only builds `serde_json::Value` nodes; its result is carried, unread, to
/// `serialize_json`.
#[verifier::external_body]
fn json_value(value: &Json) -> serde_json::Value {
    match value {
        Json::Null => serde_json::Value::Null,
        Json::Bool(b) => serde_json::Value::Bool(*b),
        Json::Number(n) => n.parse::<serde_json::Number>().map(serde_json::Value::Number).unwrap_or(serde_json::Value::Null),
        Json::Text(t) => serde_json::Value::String(t.clone()),
        Json::Array(items) => serde_json::Value::Array(items.iter().map(json_value).collect()),
        Json::Object(fields) => serde_json::Value::Object(fields.iter().map(|(k, v)| (k.clone(), json_value(v))).collect()),
    }
}

/// Serializes a document as serde_json writes it.
///
/// Trusted: calls `serde_json::Value::to_string` (its `Display`, compact form) on the
/// document converted by `json_value`; the text depends on the document alone.
#[verifier::external_body]
pub(crate) fn serialize_json(value: &Json) -> (r: String)
    ensures
        r@ == json_text(*value),
{
    json_value(value).to_string()
}

/// The hash of a request: SHA-256 of the text serde_json writes for it, in lowercase
/// hexadecimal. Every replay and idempotency check compares this hash.
pub open spec fn request_digest(input: Json) -> Seq<char> {
    text_hash(json_text(input))
}

/// Hashes a request document.
pub fn request_hash(input: &Json) -> (r: String)
    ensures
        r@ == request_digest(*input),
{
    let text = serialize_json(input);
    hash_text(text.as_str())
}

} // verus!
