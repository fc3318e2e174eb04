//! The storage adapters' own rules: what a store decides once the rows it needs are read.
//!
//! Reading and writing SQLite and the Vault happen outside this library; each function here
//! takes the values that were read and returns what to answer or what to write.

use vstd::prelude::*;
use crate::access::{
    ConnectionGrant, ConnectionRow, TaskVisibility, connection_scopes, connection_scopes_outcome,
    contains_text, denies, owned, task_access, task_access_on, topic_access,
};
use crate::text::{is_blank, opt_str, opt_text, owned_opt, take_chars, text_eq, trim, trimmed, utf8};
use crate::work_state::{AppError, plain_error, storage_failure};

verus! {

/// The SQLite store of tracked work sessions.
#[derive(Debug, Clone)]
pub struct SqliteWorkTrackingStore {
    path: String,
}

/// The SQLite repository of Tasks.
#[derive(Debug, Clone)]
pub struct SqliteTaskRepository {
    path: String,
}

/// The Markdown Vault, with the database that records evidence grants.
#[derive(Debug, Clone)]
pub struct MarkdownVaultAdapter {
    db_path: String,
    vault_path: String,
}

/// Which record names the Task behind a Task-assistance subject.
#[derive(Debug, Clone, Copy, PartialEq, Eq)]
pub enum SubjectLookup {
    /// The Task of a refinement session.
    RefinementSession,
    /// The Task of a Current Chat advisory run.
    AdvisoryRun,
    /// The subject kind names no Task.
    Unsupported,
}

/// One row of the work-tracking activity log.
#[derive(Debug, Clone)]
pub struct ActivityRecord {
    pub source: String,
    pub connection_id: Option<String>,
    pub session_id: Option<String>,
    pub operation: String,
    pub outcome: String,
    pub error: Option<String>,
    pub duration_ms: i64,
}

/// The lifecycle columns of a connection.
#[derive(Debug, Clone)]
pub struct ConnectionLifecycle {
    pub state: String,
    pub revoked_at: Option<String>,
    pub updated_at: String,
}

/// A page of owned sessions: the first fifty, each with at most 120 characters of its
/// Capture.
pub open spec fn session_page(sessions: Seq<(String, String)>, page: Seq<(String, String)>) -> bool {
    &&& page.len() == (if sessions.len() < 50 { sessions.len() } else { 50 })
    &&& forall|i: int| 0 <= i < page.len() ==> (#[trigger] page[i]).0@ == sessions[i].0@
        && page[i].1@ == take_chars(sessions[i].1@, 120)
}

/// The first fifty sessions, with their Captures cut to 120 characters.
pub fn sessions_page(sessions: &Vec<(String, String)>) -> (r: Vec<(String, String)>)
    ensures
        session_page(sessions@, r@),
{
    let mut out: Vec<(String, String)> = Vec::new();
    let mut i: usize = 0;
    while i < sessions.len() && i < 50
        invariant
            i <= sessions@.len(),
            i <= 50,
            out@.len() == i,
            forall|k: int| 0 <= k < i ==> (#[trigger] out@[k]).0@ == sessions@[k].0@
                && out@[k].1@ == take_chars(sessions@[k].1@, 120),
        decreases sessions@.len() - i,
    {
        let (id, capture) = (&sessions[i].0, &sessions[i].1);
        out.push((id.clone(), crate::text::first_chars(capture.as_str(), 120)));
        i = i + 1;
    }
    out
}

/// Scopes that a new connection may hold.
pub open spec fn grantable_scope(s: Seq<char>) -> bool {
    ||| s == "session:read"@
    ||| s == "session:write"@
    ||| s == "topic:read"@
    ||| s == "workbench:current:read"@
    ||| s == "workbench:overview:read"@
    ||| s == "vault:search:lexical"@
    ||| s == "vault:search:semantic"@
    ||| s == "vault:evidence:read"@
    ||| s == "knowledge:draft:write"@
    ||| s == "knowledge:publish"@
}

/// The outcome of validating a new connection: its trimmed name, or the error.
pub open spec fn connection_request(name: Seq<char>, scopes: Seq<String>, topics: Seq<String>, policy: Seq<char>) -> Result<Seq<char>, (Seq<char>, Seq<char>)> {
    if is_blank(name) || utf8(name).len() > 80 {
        Err(("invalid_input"@, "Connection name must be 1\u{2013}80 characters"@))
    } else if exists|i: int| 0 <= i < scopes.len() && !grantable_scope((#[trigger] scopes[i])@) {
        Err(("invalid_input"@, "Connection contains an unsupported scope"@))
    } else if topics.len() > 20 || exists|i: int|
        0 <= i < topics.len() && (is_blank((#[trigger] topics[i])@) || utf8(topics[i]@).len() > 120) {
        Err(("invalid_input"@, "A connection may allow up to 20 valid topic IDs"@))
    } else if !(policy == "confirm_each"@ || policy == "allowed_for_started_sessions"@) {
        Err(("invalid_input"@, "Unsupported checkpoint policy"@))
    } else {
        Ok(trim(name))
    }
}

fn is_grantable_scope(s: &str) -> (r: bool)
    ensures
        r == grantable_scope(s@),
{
    text_eq(s, "session:read") || text_eq(s, "session:write") || text_eq(s, "topic:read")
        || text_eq(s, "workbench:current:read") || text_eq(s, "workbench:overview:read")
        || text_eq(s, "vault:search:lexical") || text_eq(s, "vault:search:semantic")
        || text_eq(s, "vault:evidence:read") || text_eq(s, "knowledge:draft:write")
        || text_eq(s, "knowledge:publish")
}

impl SqliteWorkTrackingStore {
    /// The database file this store reads.
    pub closed spec fn location(&self) -> Seq<char> {
        self.path@
    }

    pub fn new(path: &str) -> (store: Self)
        ensures
            store.location() == path@,
    {
        SqliteWorkTrackingStore { path: path.to_owned() }
    }

    pub fn database_path(&self) -> (path: &str)
        ensures
            path@ == self.location(),
    {
        self.path.as_str()
    }

    /// Validates a new connection request and returns the name to store.
    pub fn create_connection(name: &str, scopes: &Vec<String>, topic_ids: &Vec<String>, checkpoint_policy: &str) -> (r: Result<String, AppError>)
        ensures
            match connection_request(name@, scopes@, topic_ids@, checkpoint_policy@) {
                Ok(n) => r matches Ok(s) && s@ == n,
                Err((code, message)) => r matches Err(e) && plain_error(e, code, message),
            },
    {
        let trimmed_name = trimmed(name);
        if trimmed_name.as_str().is_empty() || name.as_bytes().len() > 80 {
            return Err(AppError::new("invalid_input", "Connection name must be 1\u{2013}80 characters"));
        }
        let mut i: usize = 0;
        while i < scopes.len()
            invariant
                i <= scopes@.len(),
                !(is_blank(name@) || utf8(name@).len() > 80),
                forall|j: int| 0 <= j < i ==> grantable_scope((#[trigger] scopes@[j])@),
            decreases scopes@.len() - i,
        {
            if !is_grantable_scope(scopes[i].as_str()) {
                return Err(AppError::new("invalid_input", "Connection contains an unsupported scope"));
            }
            i = i + 1;
        }
        if topic_ids.len() > 20 {
            return Err(AppError::new("invalid_input", "A connection may allow up to 20 valid topic IDs"));
        }
        let mut k: usize = 0;
        while k < topic_ids.len()
            invariant
                k <= topic_ids@.len(),
                topic_ids@.len() <= 20,
                !(is_blank(name@) || utf8(name@).len() > 80),
                forall|j: int| 0 <= j < scopes@.len() ==> grantable_scope((#[trigger] scopes@[j])@),
                forall|j: int|
                    0 <= j < k ==> !(is_blank((#[trigger] topic_ids@[j])@) || utf8(topic_ids@[j]@).len() > 120),
            decreases topic_ids@.len() - k,
        {
            let topic: &String = &topic_ids[k];
            let t = trimmed(topic.as_str());
            if t.as_str().is_empty() || topic.as_str().as_bytes().len() > 120 {
                return Err(AppError::new("invalid_input", "A connection may allow up to 20 valid topic IDs"));
            }
            k = k + 1;
        }
        if !(text_eq(checkpoint_policy, "confirm_each") || text_eq(checkpoint_policy, "allowed_for_started_sessions")) {
            return Err(AppError::new("invalid_input", "Unsupported checkpoint policy"));
        }
        Ok(trimmed_name)
    }

    /// The lifecycle of a connection after it is revoked at `timestamp`.
    ///
    /// The first revocation time is kept; revoking again only touches `updated_at`.
    pub fn revoke_connection(current: &ConnectionLifecycle, timestamp: &str) -> (next: ConnectionLifecycle)
        ensures
            next.state@ == "revoked"@,
            next.updated_at@ == timestamp@,
            next.revoked_at matches Some(t) && t@ == (match current.revoked_at {
                Some(old) => old@,
                None => timestamp@,
            }),
    {
        let revoked_at = match &current.revoked_at {
            Some(old) => old.clone(),
            None => timestamp.to_owned(),
        };
        ConnectionLifecycle {
            state: "revoked".to_owned(),
            revoked_at: Some(revoked_at),
            updated_at: timestamp.to_owned(),
        }
    }

    /// The scopes of an active connection.
    pub fn connection_scopes(row: Option<ConnectionRow>) -> (r: Result<Vec<String>, AppError>)
        ensures
            match connection_scopes_outcome(row) {
                Ok(s) => r matches Ok(v) && v@ == s,
                Err((code, message)) => r matches Err(e) && plain_error(e, code, message),
            },
    {
        connection_scopes(row)
    }

    /// Whether a connection may continue work on a Task.
    pub fn task_continuation_discoverable(grant: Option<&ConnectionGrant>, task: &TaskVisibility) -> (r: Result<(), AppError>)
        ensures
            denies(r, task_access(owned(grant), *task)),
    {
        task_access_on(grant, task)
    }

    /// Whether a connection may address a refinement session: it must name a Task, and the
    /// connection must see that Task.
    pub fn refinement_session_discoverable(session_task: Option<&str>, grant: Option<&ConnectionGrant>, task: &TaskVisibility) -> (r: Result<(), AppError>)
        ensures
            session_task is None ==> denies(
                r,
                Some(("not_found_or_not_visible"@, "Refinement session is unavailable"@)),
            ),
            session_task is Some ==> denies(r, task_access(owned(grant), *task)),
    {
        if session_task.is_none() {
            return Err(AppError::new("not_found_or_not_visible", "Refinement session is unavailable"));
        }
        task_access_on(grant, task)
    }

    /// Whether a connection may address a Current Chat advisory run, resolved to its Task
    /// before a guessed run ID is exposed.
    pub fn current_chat_advisory_discoverable(run_task: Option<&str>, grant: Option<&ConnectionGrant>, task: &TaskVisibility) -> (r: Result<(), AppError>)
        ensures
            run_task is None ==> denies(
                r,
                Some(("not_found_or_not_visible"@, "Current Chat advisory is unavailable"@)),
            ),
            run_task is Some ==> denies(r, task_access(owned(grant), *task)),
    {
        if run_task.is_none() {
            return Err(AppError::new("not_found_or_not_visible", "Current Chat advisory is unavailable"));
        }
        task_access_on(grant, task)
    }

    /// Which record names the Task of a subject kind.
    pub fn subject_lookup(subject_kind: &str) -> (r: SubjectLookup)
        ensures
            r == (if subject_kind@ == "refinement"@ {
                SubjectLookup::RefinementSession
            } else if subject_kind@ == "advisory"@ {
                SubjectLookup::AdvisoryRun
            } else {
                SubjectLookup::Unsupported
            }),
    {
        if text_eq(subject_kind, "refinement") {
            SubjectLookup::RefinementSession
        } else if text_eq(subject_kind, "advisory") {
            SubjectLookup::AdvisoryRun
        } else {
            SubjectLookup::Unsupported
        }
    }

    /// The Task behind a Task-assistance subject, once the connection is shown to see it.
    pub fn task_assistance_subject_task(lookup: SubjectLookup, subject_task: Option<&str>, grant: Option<&ConnectionGrant>, task: &TaskVisibility) -> (r: Result<String, AppError>)
        ensures
            lookup == SubjectLookup::Unsupported || subject_task is None ==> (r matches Err(e)
                && plain_error(e, "not_found_or_not_visible"@, "Task assistance subject is unavailable"@)),
            lookup != SubjectLookup::Unsupported && subject_task is Some ==> match task_access(owned(grant), *task) {
                None => r matches Ok(t) && t@ == subject_task->Some_0@,
                Some((code, message)) => r matches Err(e) && plain_error(e, code, message),
            },
    {
        let t = match (lookup, subject_task) {
            (SubjectLookup::Unsupported, _) | (_, None) => {
                return Err(AppError::new("not_found_or_not_visible", "Task assistance subject is unavailable"));
            },
            (_, Some(t)) => t,
        };
        match task_access_on(grant, task) {
            Ok(()) => Ok(t.to_owned()),
            Err(e) => Err(e),
        }
    }

    /// The sessions a connection owns, most recently updated first as stored: at most
    /// fifty, each with the first 120 characters of its Capture.
    pub fn owned_sessions(row: Option<ConnectionRow>, sessions: Vec<(String, String)>) -> (r: Result<Vec<(String, String)>, AppError>)
        ensures
            match connection_scopes_outcome(row) {
                Err((code, message)) => r matches Err(e) && plain_error(e, code, message),
                Ok(_) => r matches Ok(v) && session_page(sessions@, v@),
            },
    {
        match connection_scopes(row) {
            Err(e) => {
                return Err(e);
            },
            Ok(_) => {},
        }
        Ok(sessions_page(&sessions))
    }

    /// The action a stored review was made for; a missing review is a storage failure.
    pub fn review_action(action: Option<String>) -> (r: Result<String, AppError>)
        ensures
            match action {
                Some(a) => r matches Ok(s) && s@ == a@,
                None => r matches Err(e) && storage_failure(e),
            },
    {
        match action {
            Some(a) => Ok(a),
            None => Err(AppError::storage()),
        }
    }

    /// The activity row recorded for one chat operation. Durations beyond what the log
    /// can hold are recorded as its largest value.
    pub fn record_activity(
        source: &str,
        connection_id: Option<&str>,
        session_id: Option<&str>,
        operation: &str,
        outcome: &str,
        error: Option<&str>,
        duration_ms: u128,
    ) -> (r: ActivityRecord)
        ensures
            r.source@ == source@,
            opt_text(r.connection_id) == opt_str(connection_id),
            opt_text(r.session_id) == opt_str(session_id),
            r.operation@ == operation@,
            r.outcome@ == outcome@,
            opt_text(r.error) == opt_str(error),
            r.duration_ms as int == (if duration_ms > i64::MAX as u128 { i64::MAX as int } else { duration_ms as int }),
    {
        let duration = if duration_ms > 9223372036854775807u128 {
            9223372036854775807i64
        } else {
            duration_ms as i64
        };
        ActivityRecord {
            source: source.to_owned(),
            connection_id: owned_opt(connection_id),
            session_id: owned_opt(session_id),
            operation: operation.to_owned(),
            outcome: outcome.to_owned(),
            error: owned_opt(error),
            duration_ms: duration,
        }
    }

    /// Whether a connection may read a topic: the in-app chat reads every topic; another
    /// connection only the topics it was granted.
    pub fn require_topic(connection_id: &str, topic_id: &str, allowed: Option<&Vec<String>>) -> (r: Result<(), AppError>)
        ensures
            denies(
                r,
                topic_access(
                    connection_id@,
                    topic_id@,
                    is_blank(topic_id@),
                    match allowed {
                        Some(a) => Some(a@),
                        None => None,
                    },
                ),
            ),
    {
        let t = trimmed(topic_id);
        if t.as_str().is_empty() {
            return Err(AppError::new("invalid_input", "A topic target is required"));
        }
        if text_eq(connection_id, "native-in-app-chat") {
            return Ok(());
        }
        match allowed {
            None => Err(AppError::new("not_found_or_not_visible", "The requested capability is unavailable")),
            Some(a) => {
                if contains_text(a, topic_id) {
                    Ok(())
                } else {
                    Err(AppError::new("not_found_or_not_visible", "The requested topic is unavailable"))
                }
            },
        }
    }
}

impl SqliteTaskRepository {
    /// The repository file this store reads.
    pub closed spec fn location(&self) -> Seq<char> {
        self.path@
    }

    pub fn new(path: &str) -> (repo: Self)
        ensures
            repo.location() == path@,
    {
        SqliteTaskRepository { path: path.to_owned() }
    }

    pub fn path(&self) -> (path: &str)
        ensures
            path@ == self.location(),
    {
        self.path.as_str()
    }
}

impl MarkdownVaultAdapter {
    /// The database that records evidence grants.
    pub closed spec fn database(&self) -> Seq<char> {
        self.db_path@
    }

    /// The root folder of the Vault.
    pub closed spec fn root(&self) -> Seq<char> {
        self.vault_path@
    }

    pub fn new(db_path: &str, vault_path: &str) -> (vault: Self)
        ensures
            vault.database() == db_path@,
            vault.root() == vault_path@,
    {
        MarkdownVaultAdapter { db_path: db_path.to_owned(), vault_path: vault_path.to_owned() }
    }

    pub fn root_path(&self) -> (path: &str)
        ensures
            path@ == self.root(),
    {
        self.vault_path.as_str()
    }
}

} // verus!
