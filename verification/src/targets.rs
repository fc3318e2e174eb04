//! The governed target of a proposed action: which Tasks and Problems it touches, kept in
//! byte order without repeats, and the exact Problem revisions it names.

use vstd::prelude::*;
use crate::overview::{bytes_lt, byte_order_is_strict_total, text_precedes};
use crate::session::{required_text, require_text};
use crate::text::{text_eq, utf8};
use crate::work_state::{AppError, Denial, deny, outcome};

verus! {

/// IDs in strictly increasing byte order.
pub open spec fn ascending(s: Seq<String>) -> bool {
    forall|i: int, j: int| 0 <= i < j < s.len() ==> bytes_lt(utf8((#[trigger] s[i])@), utf8((#[trigger] s[j])@))
}

/// Whether an ID list holds `id`.
pub open spec fn has_id(s: Seq<String>, id: Seq<char>) -> bool {
    exists|i: int| 0 <= i < s.len() && (#[trigger] s[i])@ == id
}

proof fn same_bytes_same_text(a: Seq<char>, b: Seq<char>)
    requires
        utf8(a) == utf8(b),
    ensures
        a == b,
{
    vstd::utf8::encode_utf8_decode_utf8(a);
    vstd::utf8::encode_utf8_decode_utf8(b);
}

/// A set of IDs listed in byte order, as a sorted set lists them.
#[derive(Debug, Clone)]
pub struct IdSet {
    ids: Vec<String>,
}

impl IdSet {
    /// The IDs, in order.
    pub closed spec fn items(&self) -> Seq<String> {
        self.ids@
    }

    /// The set's IDs are in strictly increasing byte order.
    pub closed spec fn wf(&self) -> bool {
        ascending(self.ids@)
    }

    pub fn new() -> (s: Self)
        ensures
            s.wf(),
            s.items().len() == 0,
    {
        IdSet { ids: Vec::new() }
    }

    /// The IDs, in byte order.
    pub fn ids(&self) -> (r: &Vec<String>)
        ensures
            r@ == self.items(),
    {
        &self.ids
    }

    /// Adds an ID; an ID already present is not repeated.
    pub fn insert(&mut self, id: &str)
        requires
            old(self).wf(),
        ensures
            final(self).wf(),
            forall|x: Seq<char>| has_id(final(self).items(), x) <==> has_id(old(self).items(), x) || x == id@,
    {
        let ghost s = self.ids@;
        let mut pos: usize = 0;
        while pos < self.ids.len() && text_precedes(self.ids[pos].as_str(), id)
            invariant
                s == self.ids@,
                pos <= s.len(),
                forall|k: int| 0 <= k < pos ==> bytes_lt(utf8((#[trigger] s[k])@), utf8(id@)),
            decreases s.len() - pos,
        {
            pos = pos + 1;
        }
        if pos < self.ids.len() && text_eq(self.ids[pos].as_str(), id) {
            return;
        }
        let owned = id.to_owned();
        proof {
            let x = id@;
            if pos < s.len() {
                byte_order_is_strict_total(utf8(x), utf8(s[pos as int]@), utf8(x));
                if utf8(x) == utf8(s[pos as int]@) {
                    same_bytes_same_text(x, s[pos as int]@);
                }
                assert(bytes_lt(utf8(x), utf8(s[pos as int]@)));
            }
            let t = s.insert(pos as int, owned);
            assert forall|i: int, j: int| 0 <= i < j < t.len() implies bytes_lt(utf8((#[trigger] t[i])@), utf8((#[trigger] t[j])@)) by {
                if j < pos {
                    assert(t[i] == s[i] && t[j] == s[j]);
                } else if j == pos {
                    assert(t[i] == s[i]);
                } else if i == pos {
                    assert(t[j] == s[j - 1]);
                    if j - 1 > pos {
                        byte_order_is_strict_total(utf8(x), utf8(s[pos as int]@), utf8(s[j - 1]@));
                    }
                } else if i < pos {
                    assert(t[i] == s[i] && t[j] == s[j - 1]);
                    byte_order_is_strict_total(utf8(s[i]@), utf8(x), utf8(s[j - 1]@));
                    if pos < s.len() {
                        byte_order_is_strict_total(utf8(x), utf8(s[pos as int]@), utf8(s[j - 1]@));
                        if j - 1 > pos {
                        }
                    }
                } else {
                    assert(t[i] == s[i - 1] && t[j] == s[j - 1]);
                }
            }
        }
        self.ids.insert(pos, owned);
        proof {
            let t = self.ids@;
            assert forall|x: Seq<char>| has_id(t, x) <==> has_id(s, x) || x == id@ by {
                if has_id(s, x) {
                    let i = choose|i: int| 0 <= i < s.len() && (#[trigger] s[i])@ == x;
                    if i < pos {
                        assert(t[i] == s[i]);
                    } else {
                        assert(t[i + 1] == s[i]);
                    }
                }
                if x == id@ {
                    assert(t[pos as int]@ == id@);
                }
                if has_id(t, x) {
                    let i = choose|i: int| 0 <= i < t.len() && (#[trigger] t[i])@ == x;
                    if i < pos {
                        assert(t[i] == s[i]);
                    } else if i > pos {
                        assert(t[i] == s[i - 1]);
                    }
                }
            }
        }
    }
}

/// The revision last pinned for `key`, if any.
pub open spec fn pinned(pins: Seq<(Seq<char>, i64)>, key: Seq<char>) -> Option<i64>
    decreases pins.len(),
{
    if pins.len() == 0 {
        None
    } else if pins.last().0 == key {
        Some(pins.last().1)
    } else {
        pinned(pins.drop_last(), key)
    }
}

/// The texts of pinned revisions.
pub open spec fn pin_view(pins: Seq<(String, i64)>) -> Seq<(Seq<char>, i64)> {
    Seq::new(pins.len(), |i: int| (pins[i].0@, pins[i].1))
}

/// Exact Problem revisions a target names; a later pin of the same Problem wins.
#[derive(Debug, Clone)]
pub struct Pins {
    pins: Vec<(String, i64)>,
}

impl Pins {
    /// The pins, in the order they were made.
    pub closed spec fn view_pins(&self) -> Seq<(Seq<char>, i64)> {
        pin_view(self.pins@)
    }

    pub fn new() -> (p: Self)
        ensures
            p.view_pins().len() == 0,
    {
        Pins { pins: Vec::new() }
    }

    /// Pins a Problem to a revision.
    pub fn pin(&mut self, key: &str, revision: i64)
        ensures
            final(self).view_pins() == old(self).view_pins().push((key@, revision)),
    {
        self.pins.push((key.to_owned(), revision));
        proof {
            assert(pin_view(self.pins@) =~= pin_view(old(self).pins@).push((key@, revision)));
        }
    }

    /// The revision pinned for a Problem.
    pub fn get(&self, key: &str) -> (r: Option<i64>)
        ensures
            r == pinned(self.view_pins(), key@),
    {
        let ghost v = pin_view(self.pins@);
        let mut i: usize = self.pins.len();
        proof {
            assert(v.take(i as int) =~= v);
        }
        while i > 0
            invariant
                v == pin_view(self.pins@),
                i <= v.len(),
                pinned(v, key@) == pinned(v.take(i as int), key@),
            decreases i,
        {
            proof {
                assert(v.take(i as int).drop_last() =~= v.take(i as int - 1));
                assert(v.take(i as int).last() == v[i as int - 1]);
            }
            if text_eq(self.pins[i - 1].0.as_str(), key) {
                return Some(self.pins[i - 1].1);
            }
            i = i - 1;
        }
        proof {
            assert(v.take(0) =~= Seq::<(Seq<char>, i64)>::empty());
        }
        None
    }
}

/// Where an action's governed target comes from.
#[derive(Debug, Clone, Copy, PartialEq, Eq, Structural)]
pub enum TargetSource {
    /// Creating something new: no existing target.
    Nothing,
    /// One Problem at an exact revision.
    ExactProblem,
    /// The Task of a Work Log entry.
    WorkLogEntry,
    /// The acting Task and the Task it relates to.
    RelationshipPair,
    /// Both ends of an existing relationship.
    RelationshipRecord,
    /// Both ends of an existing Task-Problem link.
    ProblemLink,
    /// The Workbench item being linked.
    LinkCurrentWork,
    /// The acting Task.
    PrimaryTask,
}

/// Where an action's governed target comes from.
pub open spec fn source_of(a: Seq<char>) -> TargetSource {
    if a == "task.create"@ || a == "create_task"@ || a == "problem.create"@ || a == "accept_checkpoint"@ {
        TargetSource::Nothing
    } else if a == "problem.revision"@ || a == "problem.resolution.create"@ || a == "resolve_problem"@ {
        TargetSource::ExactProblem
    } else if a == "work-log.comment.create"@ {
        TargetSource::WorkLogEntry
    } else if a == "task.relationship.create"@ {
        TargetSource::RelationshipPair
    } else if a == "task.relationship.delete"@ {
        TargetSource::RelationshipRecord
    } else if a == "task.problem-link.delete"@ {
        TargetSource::ProblemLink
    } else if a == "link_current_work"@ {
        TargetSource::LinkCurrentWork
    } else {
        TargetSource::PrimaryTask
    }
}

/// Chooses where an action's governed target comes from.
pub fn target_source(action: &str) -> (r: TargetSource)
    ensures
        r == source_of(action@),
{
    let a = action;
    if text_eq(a, "task.create") || text_eq(a, "create_task") || text_eq(a, "problem.create")
        || text_eq(a, "accept_checkpoint") {
        TargetSource::Nothing
    } else if text_eq(a, "problem.revision") || text_eq(a, "problem.resolution.create") || text_eq(
        a,
        "resolve_problem",
    ) {
        TargetSource::ExactProblem
    } else if text_eq(a, "work-log.comment.create") {
        TargetSource::WorkLogEntry
    } else if text_eq(a, "task.relationship.create") {
        TargetSource::RelationshipPair
    } else if text_eq(a, "task.relationship.delete") {
        TargetSource::RelationshipRecord
    } else if text_eq(a, "task.problem-link.delete") {
        TargetSource::ProblemLink
    } else if text_eq(a, "link_current_work") {
        TargetSource::LinkCurrentWork
    } else {
        TargetSource::PrimaryTask
    }
}

/// A Problem link a Task proposal carries.
#[derive(Debug, Clone)]
pub struct LinkEntry {
    pub problem_id: Option<String>,
    pub problem_revision: Option<i64>,
}

/// The fields of a proposed payload that name its target.
#[derive(Debug, Clone)]
pub struct TargetPayload {
    pub task_id: Option<String>,
    pub problem_id: Option<String>,
    pub expected_problem_revision: Option<i64>,
    pub problem_revision: Option<i64>,
    pub entry_id: Option<String>,
    pub target_task_id: Option<String>,
    pub relationship_id: Option<String>,
    pub link_id: Option<String>,
    pub entity_type: Option<String>,
    pub entity_id: Option<String>,
    pub related_task_id: Option<String>,
    /// None when the payload has no list of Problem links.
    pub problem_links: Option<Vec<LinkEntry>>,
}

/// What the store found for the records a payload names.
#[derive(Debug, Clone)]
pub struct TargetLookups {
    /// The Task the session last adopted.
    pub adopted_task: Option<String>,
    /// The Task of the named Work Log entry.
    pub entry_task: Option<String>,
    /// The ends of the named active relationship.
    pub relationship: Option<(String, String)>,
    /// The Task, Problem and revision of the named active Problem link.
    pub problem_link: Option<(String, String, i64)>,
}

/// The text of an optional field.
pub open spec fn field(o: Option<String>) -> Option<Seq<char>> {
    match o {
        Some(s) => Some(s@),
        None => None,
    }
}

/// What a target collects: Tasks, Problems and pins, each in the order collected.
pub type Collected = (Seq<Seq<char>>, Seq<Seq<char>>, Seq<(Seq<char>, i64)>);

/// The acting Task: the payload's own non-blank `taskId`, else the session's adopted one.
pub open spec fn primary_task(p: TargetPayload, l: TargetLookups) -> Result<Seq<char>, Denial> {
    match p.task_id {
        Some(t) if !crate::text::is_blank(t@) => Ok(t@),
        _ => match l.adopted_task {
            Some(t) => Ok(t@),
            None => Err(deny("workflow_precondition"@, "Select an authorized Task first"@)),
        },
    }
}

/// What the action's own kind of target collects.
pub open spec fn first_stage(source: TargetSource, p: TargetPayload, l: TargetLookups) -> Result<Collected, Denial> {
    let none: Seq<Seq<char>> = Seq::empty();
    let no_pins: Seq<(Seq<char>, i64)> = Seq::empty();
    match source {
        TargetSource::Nothing => Ok((none, none, no_pins)),
        TargetSource::ExactProblem => match required_text(field(p.problem_id), "problemId"@, 120) {
            Err(d) => Err(d),
            Ok(id) => match (if p.expected_problem_revision is Some { p.expected_problem_revision } else { p.problem_revision }) {
                None => Err(deny("invalid_input"@, "An exact Problem revision is required"@)),
                Some(r) => Ok((none, seq![id], seq![(id, r)])),
            },
        },
        TargetSource::WorkLogEntry => match required_text(field(p.entry_id), "entryId"@, 120) {
            Err(d) => Err(d),
            Ok(_) => match l.entry_task {
                None => Err(deny("not_found_or_not_visible"@, "Work Log target is unavailable"@)),
                Some(t) => Ok((seq![t@], none, no_pins)),
            },
        },
        TargetSource::RelationshipPair => match primary_task(p, l) {
            Err(d) => Err(d),
            Ok(task) => match required_text(field(p.target_task_id), "targetTaskId"@, 120) {
                Err(d) => Err(d),
                Ok(target) => Ok((seq![task, target], none, no_pins)),
            },
        },
        TargetSource::RelationshipRecord => match required_text(field(p.relationship_id), "relationshipId"@, 120) {
            Err(d) => Err(d),
            Ok(_) => match l.relationship {
                None => Err(deny("not_found_or_not_visible"@, "Relationship target is unavailable"@)),
                Some((a, b)) => Ok((seq![a@, b@], none, no_pins)),
            },
        },
        TargetSource::ProblemLink => match required_text(field(p.link_id), "linkId"@, 120) {
            Err(d) => Err(d),
            Ok(_) => match l.problem_link {
                None => Err(deny("not_found_or_not_visible"@, "Problem link target is unavailable"@)),
                Some((t, pr, r)) => Ok((seq![t@], seq![pr@], seq![(pr@, r)])),
            },
        },
        TargetSource::LinkCurrentWork => match required_text(field(p.entity_type), "entityType"@, 40) {
            Err(d) => Err(d),
            Ok(kind) => if kind == "tasks"@ {
                match required_text(field(p.entity_id), "entityId"@, 120) {
                    Err(d) => Err(d),
                    Ok(id) => Ok((seq![id], none, no_pins)),
                }
            } else if kind == "problems"@ {
                match required_text(field(p.entity_id), "entityId"@, 120) {
                    Err(d) => Err(d),
                    Ok(id) => Ok((none, seq![id], no_pins)),
                }
            } else {
                Err(deny("invalid_input"@, "Unsupported link target"@))
            },
        },
        TargetSource::PrimaryTask => match primary_task(p, l) {
            Err(d) => Err(d),
            Ok(task) => Ok((seq![task], none, no_pins)),
        },
    }
}

/// Adds the payload's own Problem and related Task to what was collected.
pub open spec fn second_stage(c: Collected, p: TargetPayload) -> Collected {
    let (tasks, problems, pins) = c;
    let (problems, pins) = match p.problem_id {
        Some(id) => (
            problems.push(id@),
            match (if p.problem_revision is Some { p.problem_revision } else { p.expected_problem_revision }) {
                Some(r) => pins.push((id@, r)),
                None => pins,
            },
        ),
        None => (problems, pins),
    };
    let tasks = match p.related_task_id {
        Some(t) => tasks.push(t@),
        None => tasks,
    };
    (tasks, problems, pins)
}

/// Adds the Problem links, in order, from link `i` on.
pub open spec fn link_stage(c: Collected, links: Seq<LinkEntry>, i: int) -> Result<Collected, Denial>
    decreases links.len() - i,
{
    if i < 0 || i >= links.len() {
        Ok(c)
    } else {
        match required_text(field(links[i].problem_id), "problemId"@, 120) {
            Err(d) => Err(d),
            Ok(id) => match links[i].problem_revision {
                None => Err(deny("invalid_input"@, "Task Problem links require an exact Problem revision"@)),
                Some(r) => link_stage((c.0, c.1.push(id), c.2.push((id, r))), links, i + 1),
            },
        }
    }
}

/// Everything a proposed action's target collects, or why it cannot be resolved.
pub open spec fn collected(action: Seq<char>, p: TargetPayload, l: TargetLookups) -> Result<Collected, Denial> {
    match first_stage(source_of(action), p, l) {
        Err(d) => Err(d),
        Ok(c) => {
            let c2 = second_stage(c, p);
            match p.problem_links {
                Some(links) => link_stage(c2, links@, 0),
                None => Ok(c2),
            }
        },
    }
}

/// The resolved target of a proposed action.
#[derive(Debug, Clone)]
pub struct Target {
    pub tasks: IdSet,
    pub problems: IdSet,
    pub pins: Pins,
}

/// Whether a target holds exactly what was collected.
pub open spec fn holds_collected(t: Target, c: Collected) -> bool {
    &&& t.tasks.wf()
    &&& t.problems.wf()
    &&& forall|x: Seq<char>| has_id(t.tasks.items(), x) <==> c.0.contains(x)
    &&& forall|x: Seq<char>| has_id(t.problems.items(), x) <==> c.1.contains(x)
    &&& t.pins.view_pins() == c.2
}

proof fn push_contains(s: Seq<Seq<char>>, a: Seq<char>, x: Seq<char>)
    ensures
        s.push(a).contains(x) <==> s.contains(x) || x == a,
{
    if s.contains(x) {
        let i = choose|i: int| 0 <= i < s.len() && s[i] == x;
        assert(s.push(a)[i] == x);
    }
    if x == a {
        assert(s.push(a)[s.len() as int] == a);
    }
    if s.push(a).contains(x) {
        let i = choose|i: int| 0 <= i < s.push(a).len() && s.push(a)[i] == x;
        if i < s.len() {
            assert(s[i] == x);
        }
    }
}

fn required(value: &Option<String>, name: &str, max: usize) -> (r: Result<String, AppError>)
    ensures
        match required_text(field(*value), name@, max as nat) {
            Ok(t) => r matches Ok(s) && s@ == t,
            Err(d) => outcome(r, Err(d)),
        },
{
    match value {
        Some(v) => require_text(Some(v.as_str()), name, max),
        None => require_text(None, name, max),
    }
}

fn add_task(t: &mut Target, id: &str, c: Ghost<Collected>)
    requires
        holds_collected(*old(t), c@),
    ensures
        holds_collected(*final(t), (c@.0.push(id@), c@.1, c@.2)),
{
    t.tasks.insert(id);
    proof {
        assert forall|x: Seq<char>| has_id(t.tasks.items(), x) <==> c@.0.push(id@).contains(x) by {
            push_contains(c@.0, id@, x);
        }
    }
}

fn add_problem(t: &mut Target, id: &str, c: Ghost<Collected>)
    requires
        holds_collected(*old(t), c@),
    ensures
        holds_collected(*final(t), (c@.0, c@.1.push(id@), c@.2)),
{
    t.problems.insert(id);
    proof {
        assert forall|x: Seq<char>| has_id(t.problems.items(), x) <==> c@.1.push(id@).contains(x) by {
            push_contains(c@.1, id@, x);
        }
    }
}

fn add_pin(t: &mut Target, id: &str, revision: i64, c: Ghost<Collected>)
    requires
        holds_collected(*old(t), c@),
    ensures
        holds_collected(*final(t), (c@.0, c@.1, c@.2.push((id@, revision)))),
{
    t.pins.pin(id, revision);
}

fn acting_task(p: &TargetPayload, l: &TargetLookups) -> (r: Result<String, AppError>)
    ensures
        match primary_task(*p, *l) {
            Ok(t) => r matches Ok(s) && s@ == t,
            Err(d) => outcome(r, Err(d)),
        },
{
    match &p.task_id {
        Some(t) => {
            let tt = crate::text::trimmed(t.as_str());
            if !tt.as_str().is_empty() {
                return Ok(t.clone());
            }
        },
        None => {},
    }
    match &l.adopted_task {
        Some(t) => Ok(t.clone()),
        None => Err(AppError::new("workflow_precondition", "Select an authorized Task first")),
    }
}

/// Resolves the governed target of a proposed action: the Tasks and Problems it touches,
/// each once and in byte order, and the exact Problem revisions it names.
pub fn resolve_target(action: &str, p: &TargetPayload, l: &TargetLookups) -> (r: Result<Target, AppError>)
    ensures
        match collected(action@, *p, *l) {
            Ok(c) => r matches Ok(t) && holds_collected(t, c),
            Err(d) => outcome(r, Err(d)),
        },
{
    let mut t = Target { tasks: IdSet::new(), problems: IdSet::new(), pins: Pins::new() };
    let ghost mut c: Collected = (Seq::empty(), Seq::empty(), Seq::empty());
    proof {
        assert forall|x: Seq<char>| !has_id(t.tasks.items(), x) && !c.0.contains(x) by {}
        assert forall|x: Seq<char>| !has_id(t.problems.items(), x) && !c.1.contains(x) by {}
        assert(t.pins.view_pins() =~= c.2);
    }
    let source = target_source(action);
    match source {
        TargetSource::Nothing => {},
        TargetSource::ExactProblem => {
            let id = required(&p.problem_id, "problemId", 120)?;
            let revision = match (if p.expected_problem_revision.is_some() { p.expected_problem_revision } else { p.problem_revision }) {
                None => {
                    return Err(AppError::new("invalid_input", "An exact Problem revision is required"));
                },
                Some(r) => r,
            };
            add_problem(&mut t, id.as_str(), Ghost(c));
            proof { c = (c.0, c.1.push(id@), c.2); }
            add_pin(&mut t, id.as_str(), revision, Ghost(c));
            proof { c = (c.0, c.1, c.2.push((id@, revision))); }
        },
        TargetSource::WorkLogEntry => {
            required(&p.entry_id, "entryId", 120)?;
            match &l.entry_task {
                None => {
                    return Err(AppError::new("not_found_or_not_visible", "Work Log target is unavailable"));
                },
                Some(task) => {
                    add_task(&mut t, task.as_str(), Ghost(c));
                    proof { c = (c.0.push(task@), c.1, c.2); }
                },
            }
        },
        TargetSource::RelationshipPair => {
            let task = acting_task(p, l)?;
            let target = required(&p.target_task_id, "targetTaskId", 120)?;
            add_task(&mut t, task.as_str(), Ghost(c));
            proof { c = (c.0.push(task@), c.1, c.2); }
            add_task(&mut t, target.as_str(), Ghost(c));
            proof { c = (c.0.push(target@), c.1, c.2); }
        },
        TargetSource::RelationshipRecord => {
            required(&p.relationship_id, "relationshipId", 120)?;
            match &l.relationship {
                None => {
                    return Err(AppError::new("not_found_or_not_visible", "Relationship target is unavailable"));
                },
                Some((a, b)) => {
                    add_task(&mut t, a.as_str(), Ghost(c));
                    proof { c = (c.0.push(a@), c.1, c.2); }
                    add_task(&mut t, b.as_str(), Ghost(c));
                    proof { c = (c.0.push(b@), c.1, c.2); }
                },
            }
        },
        TargetSource::ProblemLink => {
            required(&p.link_id, "linkId", 120)?;
            match &l.problem_link {
                None => {
                    return Err(AppError::new("not_found_or_not_visible", "Problem link target is unavailable"));
                },
                Some((task, problem, revision)) => {
                    add_task(&mut t, task.as_str(), Ghost(c));
                    proof { c = (c.0.push(task@), c.1, c.2); }
                    add_problem(&mut t, problem.as_str(), Ghost(c));
                    proof { c = (c.0, c.1.push(problem@), c.2); }
                    add_pin(&mut t, problem.as_str(), *revision, Ghost(c));
                    proof { c = (c.0, c.1, c.2.push((problem@, *revision))); }
                },
            }
        },
        TargetSource::LinkCurrentWork => {
            let kind = required(&p.entity_type, "entityType", 40)?;
            if text_eq(kind.as_str(), "tasks") {
                let id = required(&p.entity_id, "entityId", 120)?;
                add_task(&mut t, id.as_str(), Ghost(c));
                proof { c = (c.0.push(id@), c.1, c.2); }
            } else if text_eq(kind.as_str(), "problems") {
                let id = required(&p.entity_id, "entityId", 120)?;
                add_problem(&mut t, id.as_str(), Ghost(c));
                proof { c = (c.0, c.1.push(id@), c.2); }
            } else {
                return Err(AppError::new("invalid_input", "Unsupported link target"));
            }
        },
        TargetSource::PrimaryTask => {
            let task = acting_task(p, l)?;
            add_task(&mut t, task.as_str(), Ghost(c));
            proof { c = (c.0.push(task@), c.1, c.2); }
        },
    }
    proof {
        let fs = first_stage(source_of(action@), *p, *l);
        assert(fs is Ok);
        assert(fs->Ok_0.0 =~= c.0);
        assert(fs->Ok_0.1 =~= c.1);
        assert(fs->Ok_0.2 =~= c.2);
    }
    match &p.problem_id {
        Some(id) => {
            add_problem(&mut t, id.as_str(), Ghost(c));
            proof { c = (c.0, c.1.push(id@), c.2); }
            let revision = if p.problem_revision.is_some() { p.problem_revision } else { p.expected_problem_revision };
            match revision {
                Some(r) => {
                    add_pin(&mut t, id.as_str(), r, Ghost(c));
                    proof { c = (c.0, c.1, c.2.push((id@, r))); }
                },
                None => {},
            }
        },
        None => {},
    }
    match &p.related_task_id {
        Some(task) => {
            add_task(&mut t, task.as_str(), Ghost(c));
            proof { c = (c.0.push(task@), c.1, c.2); }
        },
        None => {},
    }
    let links = match &p.problem_links {
        None => {
            return Ok(t);
        },
        Some(links) => links,
    };
    let mut i: usize = 0;
    while i < links.len()
        invariant
            p.problem_links == Some(*links),
            i <= links@.len(),
            holds_collected(t, c),
            collected(action@, *p, *l) == link_stage(c, links@, i as int),
        decreases links@.len() - i,
    {
        let entry = &links[i];
        let id = match required(&entry.problem_id, "problemId", 120) {
            Ok(id) => id,
            Err(e) => {
                return Err(e);
            },
        };
        let revision = match entry.problem_revision {
            None => {
                return Err(AppError::new("invalid_input", "Task Problem links require an exact Problem revision"));
            },
            Some(r) => r,
        };
        add_problem(&mut t, id.as_str(), Ghost(c));
        proof { c = (c.0, c.1.push(id@), c.2); }
        add_pin(&mut t, id.as_str(), revision, Ghost(c));
        proof { c = (c.0, c.1, c.2.push((id@, revision))); }
        i = i + 1;
    }
    Ok(t)
}

} // verus!
