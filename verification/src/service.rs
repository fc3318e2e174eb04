//! The work-tracking application service: the decisions it makes around the store and
//! the Vault before and after each storage call.

use vstd::prelude::*;
use crate::access::{ConnectionRow, connection_scopes, connection_scopes_outcome, contains_text, listed};
use crate::projection::ProjectionDrain;
use crate::review::refused;
use crate::store::{ConnectionLifecycle, MarkdownVaultAdapter, SqliteWorkTrackingStore, session_page, sessions_page};
use crate::text::text_eq;
use crate::work_state::{AppError, Denial, deny, outcome, plain_error};

verus! {

/// The Task assistance service: its database, settings file and Vault root.
#[derive(Debug, Clone)]
pub struct TaskAssistanceApplicationService {
    db_path: String,
    settings_path: String,
    vault_root: String,
}

impl TaskAssistanceApplicationService {
    /// The database, settings file and Vault root the service works on.
    pub closed spec fn locations(&self) -> (Seq<char>, Seq<char>, Seq<char>) {
        (self.db_path@, self.settings_path@, self.vault_root@)
    }

    pub fn new(db_path: &str, settings_path: &str, vault_root: &str) -> (s: Self)
        ensures
            s.locations() == (db_path@, settings_path@, vault_root@),
    {
        TaskAssistanceApplicationService {
            db_path: db_path.to_owned(),
            settings_path: settings_path.to_owned(),
            vault_root: vault_root.to_owned(),
        }
    }
}

/// The application service behind chat connections: the store, the Vault, and Task
/// assistance.
#[derive(Debug, Clone)]
pub struct WorkTrackingApplicationService {
    pub store: SqliteWorkTrackingStore,
    pub vault: MarkdownVaultAdapter,
    pub assistance: TaskAssistanceApplicationService,
}

/// What a recovered publication job does.
#[derive(Debug, Clone, Copy, PartialEq, Eq, Structural)]
pub enum RecoveryRoute {
    /// Finish publishing a Task's Knowledge.
    TaskKnowledgePublish,
    /// Finish withdrawing a Task's Knowledge.
    TaskKnowledgeWithdraw,
    /// Finish an approved pre-migration withdrawal.
    LegacyWithdraw,
    /// Finish an approved pre-migration publication.
    LegacyPublish,
}

/// The route of a recovered publication review's action.
pub open spec fn recovery_route_of(action: Seq<char>) -> Option<RecoveryRoute> {
    if action == "task_knowledge_publish"@ {
        Some(RecoveryRoute::TaskKnowledgePublish)
    } else if action == "task_knowledge_withdraw"@ {
        Some(RecoveryRoute::TaskKnowledgeWithdraw)
    } else if action == "withdraw"@ {
        Some(RecoveryRoute::LegacyWithdraw)
    } else if action == "publish"@ {
        Some(RecoveryRoute::LegacyPublish)
    } else {
        None
    }
}

/// Chooses how a recovered publication job is finished.
pub fn recovery_route(action: &str) -> (r: Result<RecoveryRoute, AppError>)
    ensures
        match recovery_route_of(action@) {
            Some(route) => r == Ok::<RecoveryRoute, AppError>(route),
            None => outcome(r, Err(deny("invalid_input"@, "Unsupported publication recovery action"@))),
        },
{
    if text_eq(action, "task_knowledge_publish") {
        Ok(RecoveryRoute::TaskKnowledgePublish)
    } else if text_eq(action, "task_knowledge_withdraw") {
        Ok(RecoveryRoute::TaskKnowledgeWithdraw)
    } else if text_eq(action, "withdraw") {
        Ok(RecoveryRoute::LegacyWithdraw)
    } else if text_eq(action, "publish") {
        Ok(RecoveryRoute::LegacyPublish)
    } else {
        Err(AppError::new("invalid_input", "Unsupported publication recovery action"))
    }
}

/// The error code a job records for an attempt's outcome, if it failed.
pub open spec fn job_error(outcome: Result<(), AppError>) -> Option<Seq<char>> {
    match outcome {
        Ok(_) => None,
        Err(e) => Some(e.code@),
    }
}

/// The error a connection receives without a scope.
pub open spec fn missing_scope(scopes: Seq<String>, scope: Seq<char>) -> Option<Denial> {
    if listed(scopes, scope) {
        None
    } else {
        Some(deny("not_found_or_not_visible"@, "The requested capability is unavailable"@))
    }
}

impl WorkTrackingApplicationService {
    pub fn new(store: SqliteWorkTrackingStore, vault: MarkdownVaultAdapter, assistance: TaskAssistanceApplicationService) -> (s: Self)
        ensures
            s.store == store,
            s.vault == vault,
            s.assistance == assistance,
    {
        WorkTrackingApplicationService { store, vault, assistance }
    }

    /// The scopes of an active connection.
    pub fn scopes(&self, row: Option<ConnectionRow>) -> (r: Result<Vec<String>, AppError>)
        ensures
            match connection_scopes_outcome(row) {
                Ok(s) => r matches Ok(v) && v@ == s,
                Err((code, message)) => r matches Err(e) && plain_error(e, code, message),
            },
    {
        connection_scopes(row)
    }

    /// Requires a scope of an active connection.
    pub fn require_scope(&self, row: Option<ConnectionRow>, scope: &str) -> (r: Result<(), AppError>)
        ensures
            match connection_scopes_outcome(row) {
                Ok(s) => refused(r, missing_scope(s, scope@)),
                Err((code, message)) => r matches Err(e) && plain_error(e, code, message),
            },
    {
        let scopes = match connection_scopes(row) {
            Ok(s) => s,
            Err(e) => {
                return Err(e);
            },
        };
        if contains_text(&scopes, scope) {
            Ok(())
        } else {
            Err(AppError::new("not_found_or_not_visible", "The requested capability is unavailable"))
        }
    }

    /// The sessions a connection owns, for a connection that may read sessions.
    pub fn owned_sessions(&self, row: Option<ConnectionRow>, sessions: Vec<(String, String)>) -> (r: Result<Vec<(String, String)>, AppError>)
        ensures
            match connection_scopes_outcome(row) {
                Err((code, message)) => r matches Err(e) && plain_error(e, code, message),
                Ok(s) => if !listed(s, "session:read"@) {
                    r matches Err(e) && plain_error(
                        e,
                        "not_found_or_not_visible"@,
                        "The requested capability is unavailable"@,
                    )
                } else {
                    r matches Ok(v) && session_page(sessions@, v@)
                },
            },
    {
        let scopes = match connection_scopes(row) {
            Ok(s) => s,
            Err(e) => {
                return Err(e);
            },
        };
        if !contains_text(&scopes, "session:read") {
            return Err(AppError::new("not_found_or_not_visible", "The requested capability is unavailable"));
        }
        Ok(sessions_page(&sessions))
    }

    /// Revokes a connection at `timestamp`, keeping the time it was first revoked.
    pub fn revoke_connection(&self, current: &ConnectionLifecycle, timestamp: &str) -> (next: ConnectionLifecycle)
        ensures
            next.state@ == "revoked"@,
            next.updated_at@ == timestamp@,
            next.revoked_at matches Some(t) && t@ == (match current.revoked_at {
                Some(old) => old@,
                None => timestamp@,
            }),
    {
        SqliteWorkTrackingStore::revoke_connection(current, timestamp)
    }

    /// Finishes a drain: reports how many events the bounded projection drain projected,
    /// never more than its limit, and settles the recovered publication jobs, each
    /// recording the code of its failure, or nothing when it finished; a failing job does
    /// not stop the others.
    pub fn drain(&self, projection: &ProjectionDrain, outcomes: &Vec<Result<(), AppError>>) -> (r: (usize, Vec<Option<String>>))
        ensures
            r.0 == projection.count(),
            r.0 <= projection.limit_of(),
            r.1@.len() == outcomes@.len(),
            forall|i: int| 0 <= i < outcomes@.len() ==> match job_error(#[trigger] outcomes@[i]) {
                None => r.1@[i] is None,
                Some(code) => r.1@[i] matches Some(c) && c@ == code,
            },
    {
        let mut codes: Vec<Option<String>> = Vec::new();
        let mut i: usize = 0;
        while i < outcomes.len()
            invariant
                i <= outcomes@.len(),
                codes@.len() == i,
                forall|k: int| 0 <= k < i ==> match job_error(#[trigger] outcomes@[k]) {
                    None => codes@[k] is None,
                    Some(code) => codes@[k] matches Some(c) && c@ == code,
                },
            decreases outcomes@.len() - i,
        {
            let code = match &outcomes[i] {
                Ok(()) => None,
                Err(e) => Some(e.code.clone()),
            };
            codes.push(code);
            i = i + 1;
        }
        (projection.processed(), codes)
    }
}

/// What a search is scoped to.
#[derive(Debug, Clone, Copy, PartialEq, Eq, Structural)]
pub enum SearchScope {
    /// The whole Workbench; needs the overview grant.
    Workbench,
    /// One topic; needs the topic grant and that topic.
    Topic,
    /// One session; needs session reads and that session.
    Session,
}

/// The scope a search names.
pub open spec fn search_scope_of(kind: Seq<char>) -> Option<SearchScope> {
    if kind == "workbench"@ {
        Some(SearchScope::Workbench)
    } else if kind == "topic"@ {
        Some(SearchScope::Topic)
    } else if kind == "session"@ {
        Some(SearchScope::Session)
    } else {
        None
    }
}

/// Reads the scope of a Vault search and the grant it needs first.
pub fn search_scope(kind: &str) -> (r: Result<(SearchScope, &'static str), AppError>)
    ensures
        match search_scope_of(kind@) {
            Some(scope) => r matches Ok((s, grant)) && s == scope && grant@ == (match scope {
                SearchScope::Workbench => "workbench:overview:read"@,
                SearchScope::Topic => "topic:read"@,
                SearchScope::Session => "session:read"@,
            }),
            None => outcome(r, Err(deny("invalid_input"@, "scope must be session, topic, or workbench"@))),
        },
{
    if text_eq(kind, "workbench") {
        Ok((SearchScope::Workbench, "workbench:overview:read"))
    } else if text_eq(kind, "topic") {
        Ok((SearchScope::Topic, "topic:read"))
    } else if text_eq(kind, "session") {
        Ok((SearchScope::Session, "session:read"))
    } else {
        Err(AppError::new("invalid_input", "scope must be session, topic, or workbench"))
    }
}

/// How many evidence characters one read may return in all.
pub const EVIDENCE_CHARACTERS: usize = 24000;

/// How many of the read items fit, in order: an item is kept while the running total of
/// content bytes, itself included, stays within the budget.
pub open spec fn evidence_kept(lengths: Seq<usize>, i: int, total: int) -> nat
    decreases lengths.len() - i,
{
    if i < 0 || i >= lengths.len() || total + lengths[i] > EVIDENCE_CHARACTERS {
        0
    } else {
        1 + evidence_kept(lengths, i + 1, total + lengths[i])
    }
}

/// Checks an evidence request's size and counts the items whose content fits the budget.
pub fn evidence_budget(lengths: &Vec<usize>) -> (r: Result<usize, AppError>)
    ensures
        (lengths@.len() == 0 || lengths@.len() > 8) ==> outcome(
            r,
            Err(deny("invalid_input"@, "Provide 1\u{2013}8 evidence items"@)),
        ),
        1 <= lengths@.len() <= 8 ==> (r matches Ok(n) && n == evidence_kept(lengths@, 0, 0)),
{
    if lengths.len() == 0 || lengths.len() > 8 {
        return Err(AppError::new("invalid_input", "Provide 1\u{2013}8 evidence items"));
    }
    let mut total: usize = 0;
    let mut kept: usize = 0;
    while kept < lengths.len()
        invariant
            kept <= lengths@.len() <= 8,
            total <= EVIDENCE_CHARACTERS,
            evidence_kept(lengths@, 0, 0) == kept + evidence_kept(lengths@, kept as int, total as int),
        decreases lengths@.len() - kept,
    {
        let n = lengths[kept];
        if n > EVIDENCE_CHARACTERS - total {
            return Ok(kept);
        }
        total = total + n;
        kept = kept + 1;
    }
    Ok(kept)
}

/// Fields a caller may not set on an appended event: authority stays with the person who decides.
pub open spec fn is_authority_field(key: Seq<char>) -> bool {
    ||| key == "confirmed"@
    ||| key == "approved"@
    ||| key == "decision"@
    ||| key == "workflowState"@
    ||| key == "completed"@
    ||| key == "published"@
    ||| key == "occurredAt"@
    ||| key == "author"@
}

/// Refuses an object that carries any authority field among its keys.
pub fn reject_authority_fields(keys: &Vec<String>) -> (r: Result<(), AppError>)
    ensures
        refused(
            r,
            if exists|i: int| 0 <= i < keys@.len() && is_authority_field((#[trigger] keys@[i])@) {
                Some(deny("invalid_input"@, "Caller authority fields are not accepted"@))
            } else {
                None
            },
        ),
{
    let mut i: usize = 0;
    while i < keys.len()
        invariant
            i <= keys@.len(),
            forall|k: int| 0 <= k < i ==> !is_authority_field((#[trigger] keys@[k])@),
        decreases keys@.len() - i,
    {
        let k = keys[i].as_str();
        if text_eq(k, "confirmed") || text_eq(k, "approved") || text_eq(k, "decision") || text_eq(
            k,
            "workflowState",
        ) || text_eq(k, "completed") || text_eq(k, "published") || text_eq(k, "occurredAt")
            || text_eq(k, "author") {
            return Err(AppError::new("invalid_input", "Caller authority fields are not accepted"));
        }
        i = i + 1;
    }
    Ok(())
}

/// How a session is opened.
#[derive(Debug, Clone, Copy, PartialEq, Eq, Structural)]
pub enum OpenMode {
    Create,
    Resume,
    ContinueTask,
}

/// The mode of an open request, or why it cannot be used.
pub open spec fn open_mode_of(mode: Option<Seq<char>>, has_capture: bool) -> Result<OpenMode, Denial> {
    let m = match mode {
        Some(m) => m,
        None => "create"@,
    };
    if m == "create"@ {
        Ok(OpenMode::Create)
    } else if m == "resume"@ {
        Ok(OpenMode::Resume)
    } else if m == "continue_task"@ {
        if has_capture {
            Err(deny("invalid_input"@, "Task continuation does not accept a Capture"@))
        } else {
            Ok(OpenMode::ContinueTask)
        }
    } else {
        Err(deny("invalid_input"@, "mode must be create, resume, or continue_task"@))
    }
}

/// Reads the mode of an open request; it defaults to creating a session.
pub fn open_mode(mode: Option<&str>, has_capture: bool) -> (r: Result<OpenMode, AppError>)
    ensures
        outcome(
            r,
            open_mode_of(
                match mode {
                    Some(m) => Some(m@),
                    None => None,
                },
                has_capture,
            ),
        ),
{
    let is_create = match mode {
        None => true,
        Some(m) => text_eq(m, "create"),
    };
    if is_create {
        return Ok(OpenMode::Create);
    }
    let m = match mode {
        Some(m) => m,
        None => {
            return Ok(OpenMode::Create);
        },
    };
    if text_eq(m, "resume") {
        Ok(OpenMode::Resume)
    } else if text_eq(m, "continue_task") {
        if has_capture {
            Err(AppError::new("invalid_input", "Task continuation does not accept a Capture"))
        } else {
            Ok(OpenMode::ContinueTask)
        }
    } else {
        Err(AppError::new("invalid_input", "mode must be create, resume, or continue_task"))
    }
}

/// What an opening must carry in its mode: a resume never opens a session here, a
/// creation needs a Capture, and a continuation needs a Task.
pub open spec fn opening_requirement(mode: OpenMode, has_capture: bool, has_task: bool) -> Option<Denial> {
    match mode {
        OpenMode::Resume => Some(deny("not_found_or_not_visible"@, "Work session is unavailable"@)),
        OpenMode::Create => if has_capture {
            None
        } else {
            Some(deny("invalid_input"@, "capture is required"@))
        },
        OpenMode::ContinueTask => if has_task {
            None
        } else {
            Some(deny("invalid_input"@, "taskId is required"@))
        },
    }
}

/// Checks that an opening carries what its mode needs.
pub fn check_opening(mode: OpenMode, has_capture: bool, has_task: bool) -> (r: Result<(), AppError>)
    ensures
        refused(r, opening_requirement(mode, has_capture, has_task)),
{
    match mode {
        OpenMode::Resume => Err(AppError::new("not_found_or_not_visible", "Work session is unavailable")),
        OpenMode::Create => {
            if has_capture {
                Ok(())
            } else {
                Err(AppError::new("invalid_input", "capture is required"))
            }
        },
        OpenMode::ContinueTask => {
            if has_task {
                Ok(())
            } else {
                Err(AppError::new("invalid_input", "taskId is required"))
            }
        },
    }
}

} // verus!
