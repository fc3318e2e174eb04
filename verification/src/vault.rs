//! The rules of the Markdown vault: which searches are accepted and how their words reach
//! the full-text index, what a search scope lets a connection see, when publishing may
//! write, when a withdrawal may move a document to recovery, and what a granted evidence
//! read returns.

use vstd::prelude::*;
use crate::digest::{hash_text, text_hash};
use crate::overview::{bytes_lt, text_precedes};
use crate::text::{chars_of, first_chars, is_whitespace, is_ws, push_char, take_chars, text_eq, trim, trimmed, utf8};
use crate::work_state::{plain_error, AppError};

verus! {

/// A search query is accepted when it has a word and at most 512 bytes.
pub open spec fn query_accepted(q: Seq<char>) -> bool {
    trim(q).len() > 0 && utf8(q).len() <= 512
}

/// Checks a search query.
pub fn check_query(query: &str) -> (r: Result<(), AppError>)
    ensures
        query_accepted(query@) ==> r is Ok,
        !query_accepted(query@) ==> (r matches Err(e) && plain_error(e, "invalid_input"@, "Query must be 1–512 characters"@)),
{
    let t = trimmed(query);
    if t.as_str().is_empty() || query.as_bytes().len() > 512 {
        Err(AppError::new("invalid_input", "Query must be 1–512 characters"))
    } else {
        Ok(())
    }
}

/// The words of a text, its maximal runs of characters other than white space, in order;
/// and whether the text ends inside a word.
pub open spec fn words_state(s: Seq<char>) -> (Seq<Seq<char>>, bool)
    decreases s.len(),
{
    if s.len() == 0 {
        (Seq::empty(), false)
    } else {
        let (ws, open) = words_state(s.drop_last());
        let c = s.last();
        if is_ws(c) {
            (ws, false)
        } else if open && ws.len() > 0 {
            (ws.drop_last().push(ws.last().push(c)), true)
        } else {
            (ws.push(seq![c]), true)
        }
    }
}

/// The words of a text.
pub open spec fn words(s: Seq<char>) -> Seq<Seq<char>> {
    words_state(s).0
}

/// A word with each double quote doubled.
pub open spec fn escape_quotes(w: Seq<char>) -> Seq<char>
    decreases w.len(),
{
    if w.len() == 0 {
        Seq::empty()
    } else {
        let rest = escape_quotes(w.drop_last());
        if w.last() == '"' {
            rest.push('"').push('"')
        } else {
            rest.push(w.last())
        }
    }
}

/// A word as a quoted full-text phrase.
pub open spec fn quoted(w: Seq<char>) -> Seq<char> {
    seq!['"'] + escape_quotes(w) + seq!['"']
}

/// The parts joined by a separator text.
pub open spec fn joined(parts: Seq<Seq<char>>, sep: Seq<char>) -> Seq<char>
    decreases parts.len(),
{
    if parts.len() == 0 {
        Seq::empty()
    } else if parts.len() == 1 {
        parts[0]
    } else {
        joined(parts.drop_last(), sep) + sep + parts.last()
    }
}

/// The full-text query for a search: every word of it as a quoted phrase, all required.
pub open spec fn fts_query_of(q: Seq<char>) -> Seq<char> {
    joined(words(q).map_values(|w: Seq<char>| quoted(w)), " AND "@)
}

fn split_words(s: &str) -> (r: Vec<Vec<char>>)
    ensures
        r@.map_values(|w: Vec<char>| w@) == words(s@),
{
    let chars = chars_of(s);
    let mut out: Vec<Vec<char>> = Vec::new();
    let mut open = false;
    let mut i: usize = 0;
    while i < chars.len()
        invariant
            chars@ == s@,
            i <= chars@.len(),
            words_state(chars@.take(i as int)) == (out@.map_values(|w: Vec<char>| w@), open),
        decreases chars.len() - i,
    {
        let c = chars[i];
        let ghost before = out@.map_values(|w: Vec<char>| w@);
        assert(chars@.take(i as int + 1).drop_last() =~= chars@.take(i as int));
        if is_whitespace(c) {
            open = false;
        } else if open && out.len() > 0 {
            let mut last = out.pop().unwrap();
            last.push(c);
            out.push(last);
            assert(out@.map_values(|w: Vec<char>| w@) =~= before.drop_last().push(before.last().push(c)));
            open = true;
        } else {
            let mut w: Vec<char> = Vec::new();
            w.push(c);
            out.push(w);
            assert(out@.map_values(|w: Vec<char>| w@) =~= before.push(seq![c]));
            open = true;
        }
        i = i + 1;
    }
    assert(chars@.take(chars@.len() as int) =~= chars@);
    out
}

fn quote_word(w: &Vec<char>) -> (r: String)
    ensures
        r@ == quoted(w@),
{
    let mut s = String::new();
    push_char(&mut s, '"');
    let mut i: usize = 0;
    while i < w.len()
        invariant
            i <= w@.len(),
            s@ == seq!['"'] + escape_quotes(w@.take(i as int)),
        decreases w.len() - i,
    {
        assert(w@.take(i as int + 1).drop_last() =~= w@.take(i as int));
        if w[i] == '"' {
            push_char(&mut s, '"');
            push_char(&mut s, '"');
        } else {
            push_char(&mut s, w[i]);
        }
        assert(s@ =~= seq!['"'] + escape_quotes(w@.take(i as int + 1)));
        i = i + 1;
    }
    assert(w@.take(w@.len() as int) =~= w@);
    push_char(&mut s, '"');
    assert(s@ =~= quoted(w@));
    s
}

/// The full-text query for a search: each word quoted, inner quotes doubled, joined by
/// AND.
pub fn fts_query(query: &str) -> (r: String)
    ensures
        r@ == fts_query_of(query@),
{
    let ws = split_words(query);
    let ghost parts = words(query@).map_values(|w: Seq<char>| quoted(w));
    let mut out = String::new();
    let mut i: usize = 0;
    while i < ws.len()
        invariant
            ws@.map_values(|w: Vec<char>| w@) == words(query@),
            parts == words(query@).map_values(|w: Seq<char>| quoted(w)),
            i <= ws@.len(),
            out@ == joined(parts.take(i as int), " AND "@),
        decreases ws.len() - i,
    {
        assert(parts.take(i as int + 1).drop_last() =~= parts.take(i as int));
        assert(parts[i as int] == quoted(ws@[i as int]@));
        let q = quote_word(&ws[i]);
        if i > 0 {
            out.append(" AND ");
        }
        out.append(q.as_str());
        assert(out@ =~= joined(parts.take(i as int + 1), " AND "@));
        i = i + 1;
    }
    assert(parts.take(ws@.len() as int) =~= parts);
    out
}

/// How many hits a search shows: `limit` kept within `low..=high`.
pub open spec fn clamped(limit: nat, low: nat, high: nat) -> nat {
    if limit < low { low } else if limit > high { high } else { limit }
}

/// Keeps a search limit within its bounds.
pub fn clamp_search_limit(limit: usize, low: usize, high: usize) -> (r: usize)
    requires
        low <= high,
    ensures
        r == clamped(limit as nat, low as nat, high as nat),
{
    if limit < low { low } else if limit > high { high } else { limit }
}

/// What a search scope lets a connection see of the vault.
#[derive(Debug, Clone, Copy, PartialEq, Eq, Structural)]
pub enum ScopeRule {
    /// The whole vault.
    Everything,
    /// Documents that are members of the topic.
    TopicMembers,
    /// Documents published from the session's drafts.
    SessionPublications,
    /// Nothing.
    Nothing,
}

/// The rule a scope kind names.
pub open spec fn scope_rule_of(kind: Seq<char>) -> ScopeRule {
    if kind == "workbench"@ {
        ScopeRule::Everything
    } else if kind == "topic"@ {
        ScopeRule::TopicMembers
    } else if kind == "session"@ {
        ScopeRule::SessionPublications
    } else {
        ScopeRule::Nothing
    }
}

/// Reads what a search scope lets a connection see.
pub fn scope_rule(kind: &str) -> (r: ScopeRule)
    ensures
        r == scope_rule_of(kind@),
{
    if text_eq(kind, "workbench") {
        ScopeRule::Everything
    } else if text_eq(kind, "topic") {
        ScopeRule::TopicMembers
    } else if text_eq(kind, "session") {
        ScopeRule::SessionPublications
    } else {
        ScopeRule::Nothing
    }
}

/// What publishing does once the target is known to be a plain file in the vault.
#[derive(Debug, Clone)]
pub enum PublishStep {
    /// The document is already there with this hash; nothing is written.
    Unchanged(String),
    /// Write the new document without replacing any file.
    Write,
}

/// Decides on publishing a document with hash `requested` over a target whose current
/// content hash is `current` (none when there is no file), given the hash the publisher
/// expects there. Only a new file is written; an identical file is left as it is.
pub fn publish_step(current: Option<&str>, requested: &str, expected: Option<&str>) -> (r: Result<PublishStep, AppError>)
    ensures
        match current {
            Some(c) => if c@ == requested@ {
                r matches Ok(PublishStep::Unchanged(h)) && h@ == c@
            } else if !(expected matches Some(x) && x@ == c@) {
                r matches Err(e) && plain_error(e, "publish_conflict"@, "Knowledge changed outside LLM Wiki; refresh before publishing"@)
            } else {
                r matches Err(e) && plain_error(e, "publish_conflict"@, "Replacing existing Knowledge requires a separate reviewed patch"@)
            },
            None => if expected is Some {
                r matches Err(e) && plain_error(e, "publish_conflict"@, "Knowledge target changed; refresh before publishing"@)
            } else {
                r matches Ok(PublishStep::Write)
            },
        },
{
    match current {
        Some(c) => {
            if text_eq(c, requested) {
                return Ok(PublishStep::Unchanged(c.to_owned()));
            }
            let matches_expected = match expected {
                Some(x) => text_eq(x, c),
                None => false,
            };
            if !matches_expected {
                return Err(AppError::new("publish_conflict", "Knowledge changed outside LLM Wiki; refresh before publishing"));
            }
            Err(AppError::new("publish_conflict", "Replacing existing Knowledge requires a separate reviewed patch"))
        },
        None => if expected.is_some() {
            Err(AppError::new("publish_conflict", "Knowledge target changed; refresh before publishing"))
        } else {
            Ok(PublishStep::Write)
        },
    }
}

/// The refusal when a new document could not be written: a conflict when another file
/// took the target, else a storage failure.
pub fn publish_write_failure(target_taken: bool) -> (e: AppError)
    ensures
        plain_error(e, if target_taken { "publish_conflict"@ } else { "storage_unavailable"@ },
            "Knowledge could not be published without replacing another file"@),
{
    if target_taken {
        AppError::new("publish_conflict", "Knowledge could not be published without replacing another file")
    } else {
        AppError::new("storage_unavailable", "Knowledge could not be published without replacing another file")
    }
}

/// Where in the vault the recovery copy of a withdrawn document goes, by the review that
/// withdrew it.
pub open spec fn recovery_path_of(review_id: Seq<char>) -> Seq<char> {
    ".llm-wiki-recovery/"@ + text_hash(review_id) + ".recovery"@
}

/// The vault-relative path of the recovery copy for a withdrawal.
pub fn recovery_path(review_id: &str) -> (r: String)
    ensures
        r@ == recovery_path_of(review_id@),
{
    let mut path = ".llm-wiki-recovery/".to_owned();
    path.append(hash_text(review_id).as_str());
    path.append(".recovery");
    path
}

/// Decides on a withdrawal whose recovery copy already exists (hash `backup`): it was
/// done when the document is gone and the copy is the withdrawn document.
pub fn resume_withdrawal(target_exists: bool, backup: &str, hash: &str) -> (r: Result<(), AppError>)
    ensures
        (!target_exists && backup@ == hash@) ==> r is Ok,
        !(!target_exists && backup@ == hash@) ==> (r matches Err(e) && plain_error(e, "publish_conflict"@,
            "Publication changed after withdrawal; the recovery copy is preserved"@)),
{
    if !target_exists && text_eq(backup, hash) {
        Ok(())
    } else {
        Err(AppError::new("publish_conflict", "Publication changed after withdrawal; the recovery copy is preserved"))
    }
}

/// Checks that the document to withdraw is still the published one.
pub fn check_withdrawn_document(current: &str, hash: &str) -> (r: Result<(), AppError>)
    ensures
        current@ == hash@ ==> r is Ok,
        current@ != hash@ ==> (r matches Err(e) && plain_error(e, "publish_conflict"@,
            "Published document changed; withdrawal was blocked"@)),
{
    if text_eq(current, hash) {
        Ok(())
    } else {
        Err(AppError::new("publish_conflict", "Published document changed; withdrawal was blocked"))
    }
}

/// Checks the recovery copy after the move: a different copy means another writer changed
/// the document meanwhile, and the copy is kept for inspection.
pub fn check_moved_copy(moved: &str, hash: &str, recovery: &str) -> (r: Result<(), AppError>)
    ensures
        moved@ == hash@ ==> r is Ok,
        moved@ != hash@ ==> (r matches Err(e) && plain_error(e, "publish_conflict"@,
            "External change preserved in "@ + recovery@ + "; review before continuing"@)),
{
    if text_eq(moved, hash) {
        Ok(())
    } else {
        let mut message = "External change preserved in ".to_owned();
        message.append(recovery);
        message.append("; review before continuing");
        Err(AppError::new("publish_conflict", message.as_str()))
    }
}

/// A document path without its trailing ".md" suffixes.
pub open spec fn without_md(p: Seq<char>) -> Seq<char>
    decreases p.len(),
{
    if p.len() >= 3 && p.subrange(p.len() - 3, p.len() as int) == ".md"@ {
        without_md(p.subrange(0, p.len() - 3))
    } else {
        p
    }
}

/// The title of an evidence document: its path without trailing ".md" suffixes.
pub fn evidence_title(path: &str) -> (r: String)
    ensures
        r@ == without_md(path@),
{
    let chars = chars_of(path);
    let mut end: usize = chars.len();
    proof {
        reveal_strlit(".md");
        assert(chars@.subrange(0, end as int) =~= chars@);
    }
    while end >= 3 && chars[end - 3] == '.' && chars[end - 2] == 'm' && chars[end - 1] == 'd'
        invariant
            chars@ == path@,
            end <= chars@.len(),
            without_md(path@) == without_md(chars@.subrange(0, end as int)),
        decreases end,
    {
        let ghost p = chars@.subrange(0, end as int);
        proof {
            reveal_strlit(".md");
        }
        assert(p.subrange(p.len() - 3, p.len() as int) =~= ".md"@);
        assert(p.subrange(0, p.len() - 3) =~= chars@.subrange(0, end - 3));
        end = end - 3;
    }
    proof {
        reveal_strlit(".md");
        let p = chars@.subrange(0, end as int);
        if p.len() >= 3 {
            if p.subrange(p.len() - 3, p.len() as int) == ".md"@ {
                assert(p.subrange(p.len() - 3, p.len() as int)[0] == p[p.len() - 3]);
                assert(p.subrange(p.len() - 3, p.len() as int)[1] == p[p.len() - 2]);
                assert(p.subrange(p.len() - 3, p.len() as int)[2] == p[p.len() - 1]);
            }
        }
    }
    let mut out = String::new();
    let mut i: usize = 0;
    while i < end
        invariant
            chars@ == path@,
            end <= chars@.len(),
            i <= end,
            out@ == chars@.subrange(0, i as int),
        decreases end - i,
    {
        push_char(&mut out, chars[i]);
        assert(out@ =~= chars@.subrange(0, i as int + 1));
        i = i + 1;
    }
    out
}

/// The outcome of reading granted evidence: the grant must exist for this connection and
/// not have expired, and the document must still have the granted revision (and the one
/// the reader expects, if any).
pub open spec fn evidence_check(
    grant: Option<(Seq<char>, Seq<char>)>,
    now: Seq<char>,
    current: Option<Seq<char>>,
    expected: Option<Seq<char>>,
) -> Option<(Seq<char>, Seq<char>)> {
    match grant {
        None => Some(("not_found_or_not_visible"@, "Evidence is unavailable"@)),
        Some((revision, expires)) => if bytes_lt(utf8(expires), utf8(now)) {
            Some(("not_found_or_not_visible"@, "Evidence is unavailable"@))
        } else {
            match current {
                None => Some(("not_found_or_not_visible"@, "Evidence is unavailable"@)),
                Some(c) => if c != revision || (expected matches Some(x) && x != c) {
                    Some(("evidence_revision_changed"@, "Evidence changed; refresh before continuing"@))
                } else {
                    None
                },
            }
        },
    }
}

/// A grant to read one vault document at one revision until a time.
#[derive(Debug, Clone)]
pub struct EvidenceGrant {
    pub revision: String,
    pub expires_at: String,
}

/// Checks a read of granted evidence. `current` is the revision of the document as read
/// now, none when it cannot be read.
pub fn check_evidence_read(grant: Option<&EvidenceGrant>, now: &str, current: Option<&str>, expected: Option<&str>) -> (r: Result<(), AppError>)
    ensures
        match evidence_check(
            match grant { Some(g) => Some((g.revision@, g.expires_at@)), None => None },
            now@,
            match current { Some(c) => Some(c@), None => None },
            match expected { Some(x) => Some(x@), None => None },
        ) {
            None => r is Ok,
            Some((code, message)) => r matches Err(e) && plain_error(e, code, message),
        },
{
    let g = match grant {
        Some(g) => g,
        None => return Err(AppError::new("not_found_or_not_visible", "Evidence is unavailable")),
    };
    if text_precedes(g.expires_at.as_str(), now) {
        return Err(AppError::new("not_found_or_not_visible", "Evidence is unavailable"));
    }
    let c = match current {
        Some(c) => c,
        None => return Err(AppError::new("not_found_or_not_visible", "Evidence is unavailable")),
    };
    let expected_differs = match expected {
        Some(x) => !text_eq(x, c),
        None => false,
    };
    if !text_eq(c, g.revision.as_str()) || expected_differs {
        return Err(AppError::new("evidence_revision_changed", "Evidence changed; refresh before continuing"));
    }
    Ok(())
}

/// The content an evidence read returns: at most 8000 characters, and whether it was cut.
pub fn evidence_content(content: &str) -> (r: (String, bool))
    ensures
        r.0@ == take_chars(content@, 8000),
        r.1 == (content@.len() > 8000),
{
    let n = content.unicode_len();
    (first_chars(content, 8000), n > 8000)
}

/// How many of `found` visible hits a search shows, and whether more were found.
pub fn shown_hits(found: usize, limit: usize) -> (r: (usize, bool))
    ensures
        r.0 == if found < limit { found } else { limit },
        r.1 == (found > limit),
{
    (if found < limit { found } else { limit }, found > limit)
}

/// The address under which granted evidence is read.
pub fn evidence_uri(evidence_id: &str) -> (r: String)
    ensures
        r@ == "llm-wiki://evidence/"@ + evidence_id@,
{
    let mut uri = "llm-wiki://evidence/".to_owned();
    uri.append(evidence_id);
    uri
}

} // verus!
