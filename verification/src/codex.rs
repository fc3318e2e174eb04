//! The Codex provider boundary: how its protocol messages are told apart, how its
//! failures are reported without leaking details, and how structured answers are checked.

use vstd::prelude::*;
use crate::access::{contains_text, listed};
use crate::assistance::{code_part, error_code};
use crate::evidence::Json;
use crate::text::{chars_of, first_chars, take_chars, text_eq};

verus! {

/// Where a protocol message from the provider goes.
#[derive(Debug, Clone, Copy, PartialEq, Eq, Structural)]
pub enum MessageRoute {
    /// The answer to one of our requests (a numeric ID and no method).
    Response,
    /// A request from the provider (a method and an ID).
    Request,
    /// A notification (a method without an ID).
    Notification,
    /// Nothing we can route.
    Ignored,
}

/// The route of a message from what it carries.
pub open spec fn route_of(numeric_id: bool, has_id: bool, has_method: bool) -> MessageRoute {
    if numeric_id && !has_method {
        MessageRoute::Response
    } else if !has_method {
        MessageRoute::Ignored
    } else if has_id {
        MessageRoute::Request
    } else {
        MessageRoute::Notification
    }
}

/// Tells a response from a request or a notification; responses and requests never mix.
pub fn route_message(numeric_id: bool, has_id: bool, has_method: bool) -> (r: MessageRoute)
    requires
        numeric_id ==> has_id,
    ensures
        r == route_of(numeric_id, has_id, has_method),
{
    if numeric_id && !has_method {
        MessageRoute::Response
    } else if !has_method {
        MessageRoute::Ignored
    } else if has_id {
        MessageRoute::Request
    } else {
        MessageRoute::Notification
    }
}

/// The part of a provider error a caller may see: at most 500 characters of its message.
pub open spec fn safe_rpc_message(message: Option<Seq<char>>) -> Seq<char> {
    take_chars(
        match message {
            Some(m) => m,
            None => "Codex app-server request failed"@,
        },
        500,
    )
}

/// Reports a provider RPC error by its bounded message only; codes and data stay hidden.
pub fn safe_rpc_error(message: Option<&str>) -> (r: String)
    ensures
        r@ == safe_rpc_message(
            match message {
                Some(m) => Some(m@),
                None => None,
            },
        ),
{
    match message {
        Some(m) => first_chars(m, 500),
        None => first_chars("Codex app-server request failed", 500),
    }
}

/// Reports that the provider process started but its initialization handshake failed,
/// with the bounded reason the handshake gave.
pub fn initialization_failure(reason: &str) -> (r: String)
    ensures
        r@ == "Codex app-server initialization failed: "@ + reason@,
{
    let mut m = "Codex app-server initialization failed: ".to_owned();
    m.append(reason);
    m
}

/// Reports why the provider process could not start.
pub fn classify_spawn_error(not_found: bool, executable: &str, detail: &str) -> (r: String)
    ensures
        not_found ==> r@ == "Codex CLI is not installed or could not be found"@,
        !not_found ==> r@ == "Could not start Codex app-server from "@ + executable@ + ": "@
            + detail@,
{
    if not_found {
        "Codex CLI is not installed or could not be found".to_owned()
    } else {
        let mut m = "Could not start Codex app-server from ".to_owned();
        m.append(executable);
        m.append(": ");
        m.append(detail);
        m
    }
}

/// The ASCII lowercase of a character.
pub open spec fn ascii_lower(c: char) -> char {
    if 'A' <= c && c <= 'Z' {
        ((c as u8 + 32) as u8) as char
    } else {
        c
    }
}

/// The ASCII lowercase of a text.
pub open spec fn lowercase(s: Seq<char>) -> Seq<char> {
    Seq::new(s.len(), |i: int| ascii_lower(s[i]))
}

/// Whether `needle` occurs in `s` at `i`.
pub open spec fn occurs_at(s: Seq<char>, needle: Seq<char>, i: int) -> bool {
    0 <= i && i + needle.len() <= s.len() && s.subrange(i, i + needle.len()) == needle
}

/// Whether `needle` occurs in `s`.
pub open spec fn occurs(s: Seq<char>, needle: Seq<char>) -> bool {
    exists|i: int| #[trigger] occurs_at(s, needle, i)
}

fn lower_char(c: char) -> (r: char)
    ensures
        r == ascii_lower(c),
{
    if 'A' <= c && c <= 'Z' {
        ((c as u8) + 32) as char
    } else {
        c
    }
}

pub(crate) fn lower_chars(s: &str) -> (r: Vec<char>)
    ensures
        r@ == lowercase(s@),
{
    let chars = chars_of(s);
    let mut out: Vec<char> = Vec::new();
    let mut i: usize = 0;
    while i < chars.len()
        invariant
            chars@ == s@,
            i <= chars@.len(),
            out@ == lowercase(s@).take(i as int),
        decreases chars@.len() - i,
    {
        out.push(lower_char(chars[i]));
        proof {
            assert(lowercase(s@).take(i as int + 1) =~= lowercase(s@).take(i as int).push(
                ascii_lower(s@[i as int]),
            ));
        }
        i = i + 1;
    }
    proof {
        assert(lowercase(s@).take(chars@.len() as int) =~= lowercase(s@));
    }
    out
}

fn matches_at(s: &Vec<char>, needle: &Vec<char>, i: usize) -> (r: bool)
    requires
        i + needle@.len() <= s@.len(),
    ensures
        r == occurs_at(s@, needle@, i as int),
{
    let n = s.len();
    let mut k: usize = 0;
    while k < needle.len()
        invariant
            n == s@.len(),
            i + needle@.len() <= s@.len(),
            k <= needle@.len(),
            forall|j: int| 0 <= j < k ==> s@[i + j] == needle@[j],
        decreases needle@.len() - k,
    {
        let at = i + k;
        if s[at] != needle[k] {
            proof {
                assert(s@.subrange(i as int, i + needle@.len())[k as int] != needle@[k as int]);
            }
            return false;
        }
        k = k + 1;
    }
    proof {
        assert(s@.subrange(i as int, i + needle@.len()) =~= needle@);
    }
    true
}

/// Whether `needle` occurs in the character list `s`.
pub fn find_text(s: &Vec<char>, needle: &Vec<char>) -> (r: bool)
    ensures
        r == occurs(s@, needle@),
{
    if needle.len() > s.len() {
        proof {
            assert forall|i: int| !#[trigger] occurs_at(s@, needle@, i) by {}
        }
        return false;
    }
    let mut i: usize = 0;
    let last = s.len() - needle.len();
    loop
        invariant
            needle@.len() <= s@.len(),
            last == s@.len() - needle@.len(),
            i <= last,
            forall|j: int| 0 <= j < i ==> !#[trigger] occurs_at(s@, needle@, j),
        ensures
            forall|j: int| 0 <= j <= last ==> !#[trigger] occurs_at(s@, needle@, j),
        decreases last - i,
    {
        if matches_at(s, needle, i) {
            return true;
        }
        if i == last {
            break;
        }
        i = i + 1;
    }
    proof {
        assert forall|j: int| !#[trigger] occurs_at(s@, needle@, j) by {
            if 0 <= j <= last {
            }
        }
    }
    false
}

/// Whether a text begins with `prefix`.
pub open spec fn begins(s: Seq<char>, prefix: Seq<char>) -> bool {
    occurs_at(s, prefix, 0)
}

fn begins_with(s: &str, prefix: &str) -> (r: bool)
    ensures
        r == begins(s@, prefix@),
{
    let a = chars_of(s);
    let b = chars_of(prefix);
    if b.len() > a.len() {
        return false;
    }
    matches_at(&a, &b, 0)
}

fn lower_text_contains(lowered: &Vec<char>, needle: &str) -> (r: bool)
    ensures
        r == occurs(lowered@, needle@),
{
    let n = chars_of(needle);
    find_text(lowered, &n)
}

/// The stable code of an execution failure.
pub open spec fn execution_code(error: Seq<char>) -> Seq<char> {
    if begins(error, "Codex CLI is not installed"@) {
        "missing_executable"@
    } else if occurs(lowercase(error), "authentication"@) || occurs(lowercase(error), "not logged in"@) {
        "authentication_required"@
    } else if begins(error, "Codex app-server initialization failed"@) {
        "initialization_failed"@
    } else if error.contains(':') {
        code_part(error)
    } else {
        "execution_unavailable"@
    }
}

/// The HTTP status that reports an execution failure code.
pub open spec fn execution_status(code: Seq<char>) -> u16 {
    if code == "invalid_input"@ {
        400
    } else if code == "ownership_failure"@ {
        404
    } else if code == "active_run_conflict"@ || code == "operation_conflict"@ || code
        == "settings_revision_conflict"@ || code == "workspace_thread_mismatch"@ || begins(
        code,
        "stale_"@,
    ) {
        409
    } else if code == "secret_input_unsupported"@ || begins(code, "unsupported_"@) {
        422
    } else {
        503
    }
}

fn has_colon(s: &str) -> (r: bool)
    ensures
        r == s@.contains(':'),
{
    let chars = chars_of(s);
    let mut i: usize = 0;
    while i < chars.len()
        invariant
            chars@ == s@,
            i <= chars@.len(),
            forall|k: int| 0 <= k < i ==> s@[k] != ':',
        decreases chars@.len() - i,
    {
        if chars[i] == ':' {
            return true;
        }
        i = i + 1;
    }
    false
}

/// Classifies an execution failure into a stable code and the HTTP status it is answered
/// with; provider details never decide more than the code.
pub fn execution_error(error: &str) -> (r: (String, u16))
    ensures
        r.0@ == execution_code(error@),
        r.1 == execution_status(execution_code(error@)),
{
    let lowered = lower_chars(error);
    let code: String = if begins_with(error, "Codex CLI is not installed") {
        "missing_executable".to_owned()
    } else if lower_text_contains(&lowered, "authentication") || lower_text_contains(
        &lowered,
        "not logged in",
    ) {
        "authentication_required".to_owned()
    } else if begins_with(error, "Codex app-server initialization failed") {
        "initialization_failed".to_owned()
    } else if has_colon(error) {
        error_code(error)
    } else {
        "execution_unavailable".to_owned()
    };
    let c = code.as_str();
    let status: u16 = if text_eq(c, "invalid_input") {
        400
    } else if text_eq(c, "ownership_failure") {
        404
    } else if text_eq(c, "active_run_conflict") || text_eq(c, "operation_conflict") || text_eq(
        c,
        "settings_revision_conflict",
    ) || text_eq(c, "workspace_thread_mismatch") || begins_with(c, "stale_") {
        409
    } else if text_eq(c, "secret_input_unsupported") || begins_with(c, "unsupported_") {
        422
    } else {
        503
    };
    (code, status)
}

/// The kind of a structured request from the provider.
#[derive(Debug, Clone, Copy, PartialEq, Eq, Structural)]
pub enum FormalKind {
    CommandApproval,
    FileChangeApproval,
    PermissionsApproval,
    UserInput,
}

/// The kind a provider method asks for, if it is a structured request at all.
pub open spec fn formal_kind_of(method: Seq<char>) -> Option<FormalKind> {
    if method == "item/commandExecution/requestApproval"@ {
        Some(FormalKind::CommandApproval)
    } else if method == "item/fileChange/requestApproval"@ {
        Some(FormalKind::FileChangeApproval)
    } else if method == "item/permissions/requestApproval"@ {
        Some(FormalKind::PermissionsApproval)
    } else if method == "item/tool/requestUserInput"@ {
        Some(FormalKind::UserInput)
    } else {
        None
    }
}

/// Reads which structured request a provider method makes.
pub fn formal_kind(method: &str) -> (r: Option<FormalKind>)
    ensures
        r == formal_kind_of(method@),
{
    if text_eq(method, "item/commandExecution/requestApproval") {
        Some(FormalKind::CommandApproval)
    } else if text_eq(method, "item/fileChange/requestApproval") {
        Some(FormalKind::FileChangeApproval)
    } else if text_eq(method, "item/permissions/requestApproval") {
        Some(FormalKind::PermissionsApproval)
    } else if text_eq(method, "item/tool/requestUserInput") {
        Some(FormalKind::UserInput)
    } else {
        None
    }
}

/// The decisions an approval offers when the request lists none.
pub open spec fn default_decisions(kind: FormalKind) -> Seq<Seq<char>> {
    match kind {
        FormalKind::CommandApproval | FormalKind::FileChangeApproval => seq![
            "accept"@,
            "acceptForSession"@,
            "decline"@,
            "cancel"@,
        ],
        FormalKind::PermissionsApproval => seq!["accept"@, "decline"@],
        FormalKind::UserInput => Seq::empty(),
    }
}

/// The answer to an approval sent to the provider.
#[derive(Debug, Clone, Copy, PartialEq, Eq, Structural)]
pub enum ApprovalAnswer {
    /// The decision, passed on as given.
    Decision,
    /// A permissions approval granting what was asked, for this turn.
    GrantRequested,
    /// A permissions approval granting nothing, for this turn.
    GrantNothing,
}

/// Whether a decision is offered: from the request's own list, or by default.
pub open spec fn offered(kind: FormalKind, available: Option<&Vec<String>>, decision: Seq<char>) -> bool {
    match available {
        Some(list) => listed(list@, decision),
        None => default_decisions(kind).contains(decision),
    }
}

/// Checks a decision on an approval request: it must be one the request offers. A
/// permissions approval is answered with the requested grant, or with none.
pub fn validate_decision(kind: FormalKind, available: Option<&Vec<String>>, decision: &str) -> (r: Result<ApprovalAnswer, String>)
    requires
        kind != FormalKind::UserInput,
    ensures
        !offered(kind, available, decision@) ==> (r matches Err(e) && e@
            == "unsupported_decision: response is not offered by this request"@),
        offered(kind, available, decision@) ==> r == Ok::<ApprovalAnswer, String>(
            if kind != FormalKind::PermissionsApproval {
                ApprovalAnswer::Decision
            } else if decision@ == "accept"@ {
                ApprovalAnswer::GrantRequested
            } else {
                ApprovalAnswer::GrantNothing
            },
        ),
{
    let ok = match available {
        Some(list) => contains_text(list, decision),
        None => {
            let d = match kind {
                FormalKind::PermissionsApproval => text_eq(decision, "accept") || text_eq(
                    decision,
                    "decline",
                ),
                _ => text_eq(decision, "accept") || text_eq(decision, "acceptForSession")
                    || text_eq(decision, "decline") || text_eq(decision, "cancel"),
            };
            proof {
                let defaults = default_decisions(kind);
                if d {
                    if kind == FormalKind::PermissionsApproval {
                        assert(decision@ == defaults[0] || decision@ == defaults[1]);
                    } else {
                        assert(decision@ == defaults[0] || decision@ == defaults[1] || decision@
                            == defaults[2] || decision@ == defaults[3]);
                    }
                } else {
                    assert forall|i: int| 0 <= i < defaults.len() implies defaults[i] != decision@ by {
                    }
                }
            }
            d
        },
    };
    if !ok {
        return Err("unsupported_decision: response is not offered by this request".to_owned());
    }
    match kind {
        FormalKind::PermissionsApproval => {
            if text_eq(decision, "accept") {
                Ok(ApprovalAnswer::GrantRequested)
            } else {
                Ok(ApprovalAnswer::GrantNothing)
            }
        },
        _ => Ok(ApprovalAnswer::Decision),
    }
}

/// One question of a user-input request.
#[derive(Debug, Clone)]
pub struct FormalQuestion {
    /// The question's ID, if it has a usable one.
    pub id: Option<String>,
    pub is_secret: bool,
    /// The labels of its offered options.
    pub labels: Vec<String>,
    /// Whether a free-form answer is allowed.
    pub allow_other: bool,
}

/// The answers submitted to one question: None when missing or not a list; each answer
/// None when it is not text.
pub type SubmittedAnswers = Option<Vec<Option<String>>>;

/// The refusal, if any, of the answers to one question.
pub open spec fn answer_problem(q: FormalQuestion, submitted: SubmittedAnswers) -> Option<Seq<char>> {
    match q.id {
        None => Some("invalid_input: id is required"@),
        Some(_) => match submitted {
            None => Some("invalid_response: every question requires an answer"@),
            Some(list) => if list@.len() == 0 || exists|i: int| 0 <= i < list@.len() && (#[trigger] list@[i]) is None {
                Some("invalid_response: every question requires a nonempty answer"@)
            } else if q.labels@.len() > 0 && !q.allow_other && exists|i: int|
                0 <= i < list@.len() && !listed(q.labels@, (#[trigger] list@[i])->Some_0@) {
                Some("unsupported_answer: answer was not offered by this request"@)
            } else {
                None
            },
        },
    }
}

/// The first refusal among the questions, in order; secret questions refuse the whole
/// request before any answer is read.
pub open spec fn answers_problem(questions: Seq<FormalQuestion>, answers: Seq<SubmittedAnswers>) -> Option<Seq<char>> {
    if exists|i: int| 0 <= i < questions.len() && (#[trigger] questions[i]).is_secret {
        Some("secret_input_unsupported: use the existing Codex secret-entry flow"@)
    } else {
        first_problem(questions, answers, 0)
    }
}

/// The first refusal from question `i` on.
pub open spec fn first_problem(questions: Seq<FormalQuestion>, answers: Seq<SubmittedAnswers>, i: int) -> Option<Seq<char>>
    decreases questions.len() - i,
{
    if i < 0 || i >= questions.len() {
        None
    } else {
        match answer_problem(questions[i], answers[i]) {
            Some(m) => Some(m),
            None => first_problem(questions, answers, i + 1),
        }
    }
}

fn check_answers(q: &FormalQuestion, submitted: &SubmittedAnswers) -> (r: Option<String>)
    ensures
        match answer_problem(*q, *submitted) {
            Some(m) => r matches Some(e) && e@ == m,
            None => r is None,
        },
{
    if q.id.is_none() {
        return Some("invalid_input: id is required".to_owned());
    }
    let list = match submitted {
        None => {
            return Some("invalid_response: every question requires an answer".to_owned());
        },
        Some(list) => list,
    };
    if list.len() == 0 {
        return Some("invalid_response: every question requires a nonempty answer".to_owned());
    }
    let mut i: usize = 0;
    while i < list.len()
        invariant
            *submitted == Some(*list),
            q.id is Some,
            list@.len() > 0,
            i <= list@.len(),
            forall|k: int| 0 <= k < i ==> (#[trigger] list@[k]) is Some,
        decreases list@.len() - i,
    {
        if list[i].is_none() {
            return Some("invalid_response: every question requires a nonempty answer".to_owned());
        }
        i = i + 1;
    }
    if q.labels.len() > 0 && !q.allow_other {
        let mut j: usize = 0;
        while j < list.len()
            invariant
                *submitted == Some(*list),
                q.id is Some,
                list@.len() > 0,
                q.labels@.len() > 0 && !q.allow_other,
                j <= list@.len(),
                forall|k: int| 0 <= k < list@.len() ==> (#[trigger] list@[k]) is Some,
                forall|k: int| 0 <= k < j ==> listed(q.labels@, (#[trigger] list@[k])->Some_0@),
            decreases list@.len() - j,
        {
            let answer = match &list[j] {
                Some(a) => a,
                None => {
                    return Some("invalid_response: every question requires a nonempty answer".to_owned());
                },
            };
            if !contains_text(&q.labels, answer.as_str()) {
                return Some("unsupported_answer: answer was not offered by this request".to_owned());
            }
            j = j + 1;
        }
    }
    None
}

/// Checks the answers to a user-input request, question by question.
pub fn validate_answers(questions: &Vec<FormalQuestion>, answers: &Vec<SubmittedAnswers>) -> (r: Result<(), String>)
    requires
        questions@.len() == answers@.len(),
    ensures
        match answers_problem(questions@, answers@) {
            Some(m) => r matches Err(e) && e@ == m,
            None => r is Ok,
        },
{
    let mut s: usize = 0;
    while s < questions.len()
        invariant
            s <= questions@.len(),
            forall|k: int| 0 <= k < s ==> !(#[trigger] questions@[k]).is_secret,
        decreases questions@.len() - s,
    {
        if questions[s].is_secret {
            return Err("secret_input_unsupported: use the existing Codex secret-entry flow".to_owned());
        }
        s = s + 1;
    }
    let mut i: usize = 0;
    while i < questions.len()
        invariant
            questions@.len() == answers@.len(),
            i <= questions@.len(),
            forall|k: int| 0 <= k < questions@.len() ==> !(#[trigger] questions@[k]).is_secret,
            first_problem(questions@, answers@, 0) == first_problem(questions@, answers@, i as int),
        decreases questions@.len() - i,
    {
        match check_answers(&questions[i], &answers[i]) {
            Some(e) => {
                return Err(e);
            },
            None => {},
        }
        i = i + 1;
    }
    Ok(())
}

/// `j` is the empty JSON object.
pub open spec fn empty_object(j: Json) -> bool {
    j matches Json::Object(es) && es@.len() == 0
}

/// The response sent to the provider for a checked approval decision: the decision
/// itself, or for a permissions approval the permissions granted for this turn, which
/// are those the request asked for (none when it asked for none) or none at all.
pub fn approval_response(answer: ApprovalAnswer, decision: &str, requested: Option<Json>) -> (r: Json)
    ensures
        answer == ApprovalAnswer::Decision ==> (r matches Json::Object(es) && es@.len() == 1
            && es@[0].0@ == "decision"@ && (es@[0].1 matches Json::Text(t) && t@ == decision@)),
        answer != ApprovalAnswer::Decision ==> (r matches Json::Object(es) && es@.len() == 2
            && es@[0].0@ == "permissions"@
            && (if answer == ApprovalAnswer::GrantRequested && requested is Some {
                es@[0].1 == requested->Some_0
            } else {
                empty_object(es@[0].1)
            })
            && es@[1].0@ == "scope"@ && (es@[1].1 matches Json::Text(t) && t@ == "turn"@)),
{
    let mut es: Vec<(String, Json)> = Vec::new();
    match answer {
        ApprovalAnswer::Decision => {
            es.push(("decision".to_owned(), Json::Text(decision.to_owned())));
        },
        _ => {
            let granted = match (answer, requested) {
                (ApprovalAnswer::GrantRequested, Some(p)) => p,
                _ => Json::Object(Vec::new()),
            };
            es.push(("permissions".to_owned(), granted));
            es.push(("scope".to_owned(), Json::Text("turn".to_owned())));
            proof {
                reveal_strlit("turn");
            }
        },
    }
    Json::Object(es)
}

/// `item` is the text of the submitted answer `a`.
pub open spec fn answered_text(item: Json, a: Option<String>) -> bool {
    &&& item matches Json::Text(t)
    &&& a matches Some(x)
    &&& item->Text_0@ == a->Some_0@
}

/// Entry `e` carries the answers submitted to question `q`: under the question's ID, an
/// object holding the submitted answers, in order.
pub open spec fn answer_entry(q: FormalQuestion, submitted: SubmittedAnswers, e: (String, Json)) -> bool {
    &&& q.id matches Some(id) && e.0@ == id@
    &&& e.1 matches Json::Object(inner) && inner@.len() == 1 && inner@[0].0@ == "answers"@
        && (inner@[0].1 matches Json::Array(items) && submitted matches Some(list)
            && items@.len() == list@.len()
            && forall|k: int| 0 <= k < items@.len() ==> answered_text(#[trigger] items@[k], list@[k]))
}

proof fn first_problem_none(questions: Seq<FormalQuestion>, answers: Seq<SubmittedAnswers>, i: int, k: int)
    requires
        0 <= i <= k < questions.len(),
        first_problem(questions, answers, i) is None,
    ensures
        answer_problem(questions[k], answers[k]) is None,
    decreases k - i,
{
    if i < k {
        first_problem_none(questions, answers, i + 1, k);
    }
}

proof fn answers_have_ids(questions: Seq<FormalQuestion>, answers: Seq<SubmittedAnswers>)
    requires
        questions.len() == answers.len(),
        answers_problem(questions, answers) is None,
    ensures
        forall|k: int| 0 <= k < questions.len() ==> (#[trigger] questions[k]).id is Some && answers[k] is Some
            && forall|m: int| 0 <= m < answers[k]->Some_0@.len() ==> (#[trigger] answers[k]->Some_0@[m]) is Some,
{
    assert forall|k: int| 0 <= k < questions.len() implies (#[trigger] questions[k]).id is Some && answers[k] is Some
        && forall|m: int| 0 <= m < answers[k]->Some_0@.len() ==> (#[trigger] answers[k]->Some_0@[m]) is Some by {
        first_problem_none(questions, answers, 0, k);
    }
}

/// The response sent to the provider for checked answers to a user-input request: every
/// question's answers under its ID.
pub fn answers_response(questions: &Vec<FormalQuestion>, answers: &Vec<SubmittedAnswers>) -> (r: Json)
    requires
        questions@.len() == answers@.len(),
        answers_problem(questions@, answers@) is None,
    ensures
        r matches Json::Object(es) && es@.len() == 1 && es@[0].0@ == "answers"@
            && (es@[0].1 matches Json::Object(outs) && outs@.len() == questions@.len()
            && forall|i: int| 0 <= i < outs@.len() ==> answer_entry(questions@[i], answers@[i], #[trigger] outs@[i])),
{
    proof {
        answers_have_ids(questions@, answers@);
    }
    let mut outs: Vec<(String, Json)> = Vec::new();
    let mut i: usize = 0;
    while i < questions.len()
        invariant
            questions@.len() == answers@.len(),
            i <= questions@.len(),
            outs@.len() == i,
            forall|k: int| 0 <= k < questions@.len() ==> (#[trigger] questions@[k]).id is Some && answers@[k] is Some
                && forall|m: int| 0 <= m < answers@[k]->Some_0@.len() ==> (#[trigger] answers@[k]->Some_0@[m]) is Some,
            forall|k: int| 0 <= k < i ==> answer_entry(questions@[k], answers@[k], #[trigger] outs@[k]),
        decreases questions@.len() - i,
    {
        let id = match &questions[i].id {
            Some(id) => id.clone(),
            None => String::new(),
        };
        let list = match &answers[i] {
            Some(l) => l,
            None => {
                assert(false);
                return Json::Null;
            },
        };
        let mut items: Vec<Json> = Vec::new();
        let mut j: usize = 0;
        while j < list.len()
            invariant
                answers@[i as int] == Some(*list),
                forall|m: int| 0 <= m < list@.len() ==> (#[trigger] list@[m]) is Some,
                j <= list@.len(),
                items@.len() == j,
                forall|k: int| 0 <= k < j ==> answered_text(#[trigger] items@[k], list@[k]),
            decreases list@.len() - j,
        {
            let text = match &list[j] {
                Some(a) => a.clone(),
                None => String::new(),
            };
            items.push(Json::Text(text));
            j = j + 1;
        }
        let mut inner: Vec<(String, Json)> = Vec::new();
        inner.push(("answers".to_owned(), Json::Array(items)));
        outs.push((id, Json::Object(inner)));
        i = i + 1;
    }
    let mut es: Vec<(String, Json)> = Vec::new();
    es.push(("answers".to_owned(), Json::Object(outs)));
    Json::Object(es)
}

/// The provider connection as the server tracks it.
#[derive(Debug, Clone, Copy, PartialEq, Eq, Structural)]
pub struct ServerState {
    /// The generation of the current connection, if there is one.
    pub generation: Option<i64>,
    /// The connection's process is still running.
    pub alive: bool,
    /// The connection completed the handshake that enables structured input.
    pub structured_input: bool,
}

/// Something that happens to the provider connection.
#[derive(Debug, Clone, Copy, PartialEq, Eq, Structural)]
pub enum ServerEvent {
    /// A new process was started for this generation.
    Spawned(i64),
    /// The initialization handshake completed.
    Initialized,
    /// The initialization handshake failed; the connection is shut down.
    InitializeFailed,
    /// The process closed its output.
    Exited,
    /// The connection was shut down.
    Shutdown,
}

/// What a start request does.
#[derive(Debug, Clone, Copy, PartialEq, Eq, Structural)]
pub enum StartStep {
    /// A live connection exists: use it.
    Reuse,
    /// Start a new process.
    Spawn,
}

/// Whether a start request reuses the current connection: only a live one is reused.
pub open spec fn start_step_of(s: ServerState) -> StartStep {
    if s.generation is Some && s.alive { StartStep::Reuse } else { StartStep::Spawn }
}

/// The connection after an event.
pub open spec fn server_after(s: ServerState, e: ServerEvent) -> ServerState {
    match e {
        ServerEvent::Spawned(g) => ServerState { generation: Some(g), alive: true, structured_input: false },
        ServerEvent::Initialized => ServerState { structured_input: s.generation is Some, ..s },
        ServerEvent::Exited => ServerState { alive: false, ..s },
        ServerEvent::InitializeFailed | ServerEvent::Shutdown => ServerState {
            generation: None,
            alive: false,
            structured_input: false,
        },
    }
}

/// A server with no connection.
pub fn stopped_server() -> (s: ServerState)
    ensures
        s.generation is None,
        !s.alive,
        !s.structured_input,
{
    ServerState { generation: None, alive: false, structured_input: false }
}

/// Decides what a start request does.
pub fn start_step(s: &ServerState) -> (r: StartStep)
    ensures
        r == start_step_of(*s),
{
    if s.generation.is_some() && s.alive { StartStep::Reuse } else { StartStep::Spawn }
}

/// Applies an event to the provider connection.
pub fn advance_server(s: ServerState, e: ServerEvent) -> (r: ServerState)
    ensures
        r == server_after(s, e),
{
    match e {
        ServerEvent::Spawned(g) => ServerState { generation: Some(g), alive: true, structured_input: false },
        ServerEvent::Initialized => ServerState { structured_input: s.generation.is_some(), ..s },
        ServerEvent::Exited => ServerState { alive: false, ..s },
        ServerEvent::InitializeFailed | ServerEvent::Shutdown => ServerState {
            generation: None,
            alive: false,
            structured_input: false,
        },
    }
}

/// A connection whose initialization failed is never reused: it has no generation, does
/// not support structured input, and the next start spawns a new process.
pub proof fn failed_starts_are_not_reused(s: ServerState)
    ensures
        server_after(s, ServerEvent::InitializeFailed).generation is None,
        !server_after(s, ServerEvent::InitializeFailed).structured_input,
        start_step_of(server_after(s, ServerEvent::InitializeFailed)) == StartStep::Spawn,
{
}

} // verus!
