//! The Workbench: its rows in display order, the shortcuts to active and refining work,
//! and the rows grouped by category.

use vstd::prelude::*;
use crate::overview::{byte_order_is_strict_total, bytes_lt, opt_bytes, opt_lt, opt_precedes, opt_same, text_precedes};
use crate::text::{text_eq, utf8};

verus! {

/// What a Workbench row shows.
#[derive(Debug, Clone, Copy, PartialEq, Eq, Structural)]
pub enum RowKind {
    Task,
    Capture,
    Refinement,
}

/// One Workbench row, as the layout reads it.
#[derive(Debug, Clone)]
pub struct WorkbenchRow {
    pub kind: RowKind,
    pub id: String,
    /// A Task's lifecycle state; other rows have none.
    pub state: Option<String>,
    /// The row's category; a row without one belongs to "General".
    pub category: Option<String>,
    /// The time of the last user activity on the row.
    pub last_activity: Option<String>,
}

/// The bytes by which rows are ordered.
pub open spec fn activity(r: WorkbenchRow) -> Option<Seq<u8>> {
    opt_bytes(r.last_activity)
}

/// Row `a` is shown before row `b` (positions in `rows`): more recent activity first;
/// rows with the same activity keep their positions.
pub open spec fn shown_before(rows: Seq<WorkbenchRow>, a: int, b: int) -> bool {
    ||| opt_lt(activity(rows[b]), activity(rows[a]))
    ||| (activity(rows[a]) == activity(rows[b]) && a < b)
}

/// `order` lists every position of `rows` once, in display order.
pub open spec fn display_order(rows: Seq<WorkbenchRow>, order: Seq<usize>) -> bool {
    &&& order.len() == rows.len()
    &&& order.no_duplicates()
    &&& forall|i: int| 0 <= i < order.len() ==> #[trigger] order[i] < rows.len()
    &&& forall|i: int, j: int| 0 <= i < j < order.len() ==> shown_before(rows, #[trigger] order[i] as int, #[trigger] order[j] as int)
}

proof fn opt_total(x: Option<Seq<u8>>, y: Option<Seq<u8>>, z: Option<Seq<u8>>)
    ensures
        !opt_lt(x, x),
        opt_lt(x, y) && opt_lt(y, z) ==> opt_lt(x, z),
        !opt_lt(x, y) && !opt_lt(y, x) ==> x == y,
{
    match (x, y, z) {
        (Some(p), Some(q), Some(r)) => byte_order_is_strict_total(p, q, r),
        (Some(p), Some(q), None) => byte_order_is_strict_total(p, q, q),
        (Some(p), _, _) => byte_order_is_strict_total(p, p, p),
        _ => {},
    }
}

/// Display order is a strict total order on the positions of the rows.
pub proof fn display_order_is_strict_total(rows: Seq<WorkbenchRow>, a: int, b: int, c: int)
    ensures
        !shown_before(rows, a, a),
        shown_before(rows, a, b) && shown_before(rows, b, c) ==> shown_before(rows, a, c),
        a != b ==> shown_before(rows, a, b) || shown_before(rows, b, a),
{
    let (x, y, z) = (activity(rows[a]), activity(rows[b]), activity(rows[c]));
    opt_total(x, x, x);
    opt_total(z, y, x);
    opt_total(x, y, y);
}

fn row_shown_before(rows: &Vec<WorkbenchRow>, a: usize, b: usize) -> (r: bool)
    requires
        a < rows@.len(),
        b < rows@.len(),
    ensures
        r == shown_before(rows@, a as int, b as int),
{
    opt_precedes(&rows[b].last_activity, &rows[a].last_activity)
        || (opt_same(&rows[a].last_activity, &rows[b].last_activity) && a < b)
}

/// The positions of the rows in display order: most recent activity first, rows with the
/// same activity in their given order.
pub fn display_order_of(rows: &Vec<WorkbenchRow>) -> (order: Vec<usize>)
    ensures
        display_order(rows@, order@),
{
    let n = rows.len();
    let mut out: Vec<usize> = Vec::new();
    let mut i: usize = 0;
    while i < n
        invariant
            n == rows@.len(),
            i <= n,
            out@.len() == i,
            out@.no_duplicates(),
            forall|k: int| 0 <= k < out@.len() ==> #[trigger] out@[k] < i,
            forall|p: int, q: int| 0 <= p < q < out@.len() ==> shown_before(rows@, #[trigger] out@[p] as int, #[trigger] out@[q] as int),
        decreases n - i,
    {
        let mut pos: usize = 0;
        while pos < out.len() && !row_shown_before(rows, i, out[pos])
            invariant
                n == rows@.len(),
                i < n,
                pos <= out@.len(),
                forall|k: int| 0 <= k < out@.len() ==> #[trigger] out@[k] < i,
                forall|j: int| 0 <= j < pos ==> !shown_before(rows@, i as int, #[trigger] out@[j] as int),
            decreases out@.len() - pos,
        {
            pos = pos + 1;
        }
        proof {
            let s = out@;
            let t = s.insert(pos as int, i);
            assert forall|p: int, q: int| 0 <= p < q < t.len() implies shown_before(rows@, #[trigger] t[p] as int, #[trigger] t[q] as int) by {
                if q < pos {
                    assert(t[p] == s[p] && t[q] == s[q]);
                } else if q == pos {
                    assert(t[q] == i && t[p] == s[p]);
                    assert(s[p] < i);
                    display_order_is_strict_total(rows@, i as int, s[p] as int, s[p] as int);
                } else if p == pos {
                    assert(t[p] == i && t[q] == s[q - 1]);
                    assert(shown_before(rows@, i as int, s[pos as int] as int));
                    if q - 1 > pos {
                        display_order_is_strict_total(rows@, i as int, s[pos as int] as int, s[q - 1] as int);
                    }
                } else if p < pos {
                    assert(t[p] == s[p] && t[q] == s[q - 1]);
                } else {
                    assert(t[p] == s[p - 1] && t[q] == s[q - 1]);
                }
            }
            assert forall|a: int, b: int| 0 <= a < t.len() && 0 <= b < t.len() && a != b implies t[a] != t[b] by {
                if a != pos && b != pos {
                    let a0 = if a < pos { a } else { a - 1 };
                    let b0 = if b < pos { b } else { b - 1 };
                    assert(t[a] == s[a0] && t[b] == s[b0]);
                } else if a == pos {
                    let b0 = if b < pos { b } else { b - 1 };
                    assert(t[b] == s[b0] && s[b0] < i);
                } else {
                    let a0 = if a < pos { a } else { a - 1 };
                    assert(t[a] == s[a0] && s[a0] < i);
                }
            }
            assert forall|k: int| 0 <= k < t.len() implies #[trigger] t[k] < i + 1 by {
                if k < pos {
                    assert(t[k] == s[k]);
                } else if k > pos {
                    assert(t[k] == s[k - 1]);
                }
            }
        }
        out.insert(pos, i);
        i = i + 1;
    }
    out
}

/// A row that is a Task in progress.
pub open spec fn in_progress(r: WorkbenchRow) -> bool {
    r.state matches Some(s) && s@ == "in_progress"@
}

/// The positions in `order` whose rows are Tasks in progress, in order.
pub open spec fn active_rows(rows: Seq<WorkbenchRow>, order: Seq<usize>) -> Seq<usize>
    decreases order.len(),
{
    if order.len() == 0 {
        Seq::empty()
    } else {
        let rest = active_rows(rows, order.drop_last());
        if in_progress(rows[order.last() as int]) {
            rest.push(order.last())
        } else {
            rest
        }
    }
}

fn is_in_progress(r: &WorkbenchRow) -> (b: bool)
    ensures
        b == in_progress(*r),
{
    match &r.state {
        Some(s) => text_eq(s.as_str(), "in_progress"),
        None => false,
    }
}

/// The Tasks in progress among the rows, in display order.
pub fn active_shortcuts(rows: &Vec<WorkbenchRow>, order: &Vec<usize>) -> (active: Vec<usize>)
    requires
        forall|i: int| 0 <= i < order@.len() ==> #[trigger] order@[i] < rows@.len(),
    ensures
        active@ == active_rows(rows@, order@),
{
    let mut out: Vec<usize> = Vec::new();
    let mut k: usize = 0;
    while k < order.len()
        invariant
            k <= order@.len(),
            forall|i: int| 0 <= i < order@.len() ==> #[trigger] order@[i] < rows@.len(),
            out@ == active_rows(rows@, order@.take(k as int)),
        decreases order.len() - k,
    {
        assert(order@.take(k as int + 1).drop_last() =~= order@.take(k as int));
        let idx = order[k];
        if is_in_progress(&rows[idx]) {
            out.push(idx);
        }
        k = k + 1;
    }
    assert(order@.take(order@.len() as int) =~= order@);
    out
}

/// A refinement session that is not completed: what it refines and its draft revision.
#[derive(Debug, Clone)]
pub struct RefiningSession {
    pub capture_id: Option<String>,
    pub task_id: Option<String>,
    pub draft_revision: i64,
}

/// What a refining shortcut opens.
#[derive(Debug, Clone, Copy, PartialEq, Eq, Structural)]
pub enum ShortcutKind {
    Task,
    Capture,
}

/// A shortcut to work being refined.
#[derive(Debug, Clone)]
pub struct RefiningShortcut {
    pub kind: ShortcutKind,
    pub id: String,
    pub draft_revision: i64,
}

/// Some active shortcut leads to a Task with this ID.
pub open spec fn active_task_id(rows: Seq<WorkbenchRow>, active: Seq<usize>, id: Seq<char>) -> bool {
    exists|i: int| 0 <= i < active.len() && (#[trigger] rows[active[i] as int]).id@ == id
}

/// `sc` is the shortcut of this kind to `id` at `revision`.
pub open spec fn shortcut_is(sc: RefiningShortcut, kind: ShortcutKind, id: Seq<char>, revision: i64) -> bool {
    sc.kind == kind && sc.id@ == id && sc.draft_revision == revision
}

/// `outs` holds, in order, a shortcut for each session: to its Task unless that Task
/// already has an active shortcut, else to its capture; a session with neither has none.
pub open spec fn refining_of(
    rows: Seq<WorkbenchRow>,
    active: Seq<usize>,
    sessions: Seq<RefiningSession>,
    outs: Seq<RefiningShortcut>,
) -> bool
    decreases sessions.len(),
{
    if sessions.len() == 0 {
        outs.len() == 0
    } else {
        let s = sessions.last();
        let rest = sessions.drop_last();
        match s.task_id {
            Some(t) => if active_task_id(rows, active, t@) {
                refining_of(rows, active, rest, outs)
            } else {
                &&& outs.len() > 0
                &&& shortcut_is(outs.last(), ShortcutKind::Task, t@, s.draft_revision)
                &&& refining_of(rows, active, rest, outs.drop_last())
            },
            None => match s.capture_id {
                Some(c) => {
                    &&& outs.len() > 0
                    &&& shortcut_is(outs.last(), ShortcutKind::Capture, c@, s.draft_revision)
                    &&& refining_of(rows, active, rest, outs.drop_last())
                },
                None => refining_of(rows, active, rest, outs),
            },
        }
    }
}

fn is_active_task(rows: &Vec<WorkbenchRow>, active: &Vec<usize>, id: &str) -> (b: bool)
    requires
        forall|i: int| 0 <= i < active@.len() ==> #[trigger] active@[i] < rows@.len(),
    ensures
        b == active_task_id(rows@, active@, id@),
{
    let mut i: usize = 0;
    while i < active.len()
        invariant
            i <= active@.len(),
            forall|k: int| 0 <= k < active@.len() ==> #[trigger] active@[k] < rows@.len(),
            forall|k: int| 0 <= k < i ==> (#[trigger] rows@[active@[k] as int]).id@ != id@,
        decreases active.len() - i,
    {
        if text_eq(rows[active[i]].id.as_str(), id) {
            return true;
        }
        i = i + 1;
    }
    false
}

/// The shortcuts to refining work, in the order of the sessions.
pub fn refining_shortcuts(rows: &Vec<WorkbenchRow>, active: &Vec<usize>, sessions: &Vec<RefiningSession>) -> (r: Vec<RefiningShortcut>)
    requires
        forall|i: int| 0 <= i < active@.len() ==> #[trigger] active@[i] < rows@.len(),
    ensures
        refining_of(rows@, active@, sessions@, r@),
{
    let mut out: Vec<RefiningShortcut> = Vec::new();
    let mut k: usize = 0;
    while k < sessions.len()
        invariant
            k <= sessions@.len(),
            forall|i: int| 0 <= i < active@.len() ==> #[trigger] active@[i] < rows@.len(),
            refining_of(rows@, active@, sessions@.take(k as int), out@),
        decreases sessions.len() - k,
    {
        assert(sessions@.take(k as int + 1).drop_last() =~= sessions@.take(k as int));
        let ghost before = out@;
        let s = &sessions[k];
        match &s.task_id {
            Some(t) => {
                if !is_active_task(rows, active, t.as_str()) {
                    out.push(RefiningShortcut { kind: ShortcutKind::Task, id: t.clone(), draft_revision: s.draft_revision });
                    assert(out@.drop_last() =~= before);
                }
            },
            None => match &s.capture_id {
                Some(c) => {
                    out.push(RefiningShortcut { kind: ShortcutKind::Capture, id: c.clone(), draft_revision: s.draft_revision });
                    assert(out@.drop_last() =~= before);
                },
                None => {},
            },
        }
        k = k + 1;
    }
    assert(sessions@.take(sessions@.len() as int) =~= sessions@);
    out
}

/// No refining shortcut leads to a Task that already has an active shortcut.
pub proof fn refining_never_repeats_active_work(
    rows: Seq<WorkbenchRow>,
    active: Seq<usize>,
    sessions: Seq<RefiningSession>,
    outs: Seq<RefiningShortcut>,
)
    requires
        refining_of(rows, active, sessions, outs),
    ensures
        forall|i: int| 0 <= i < outs.len() && (#[trigger] outs[i]).kind == ShortcutKind::Task
            ==> !active_task_id(rows, active, outs[i].id@),
    decreases sessions.len(),
{
    if sessions.len() > 0 {
        let s = sessions.last();
        let rest = sessions.drop_last();
        let took = match s.task_id {
            Some(t) => !active_task_id(rows, active, t@),
            None => s.capture_id is Some,
        };
        if took {
            refining_never_repeats_active_work(rows, active, rest, outs.drop_last());
            assert forall|i: int| 0 <= i < outs.len() && (#[trigger] outs[i]).kind == ShortcutKind::Task
                implies !active_task_id(rows, active, outs[i].id@) by {
                if i < outs.len() - 1 {
                    assert(outs[i] == outs.drop_last()[i]);
                }
            }
        } else {
            refining_never_repeats_active_work(rows, active, rest, outs);
        }
    }
}

/// The category a row belongs to.
pub open spec fn category_name(r: WorkbenchRow) -> Seq<char> {
    match r.category {
        Some(c) => c@,
        None => "General"@,
    }
}

/// The positions in `order` whose rows belong to category `name`, in order.
pub open spec fn rows_in(rows: Seq<WorkbenchRow>, order: Seq<usize>, name: Seq<char>) -> Seq<usize>
    decreases order.len(),
{
    if order.len() == 0 {
        Seq::empty()
    } else {
        let rest = rows_in(rows, order.drop_last(), name);
        if category_name(rows[order.last() as int]) == name {
            rest.push(order.last())
        } else {
            rest
        }
    }
}

/// One category of the Workbench and its rows.
#[derive(Debug, Clone)]
pub struct CategoryGroup {
    pub name: String,
    /// Positions of the rows, in display order.
    pub items: Vec<usize>,
}

/// Some group has this name.
pub open spec fn has_group(groups: Seq<CategoryGroup>, name: Seq<char>) -> bool {
    exists|g: int| 0 <= g < groups.len() && (#[trigger] groups[g]).name@ == name
}

/// `groups` holds one group per category of the rows listed in `order`, sorted by name,
/// each with its rows in the order of `order`.
pub open spec fn grouped(rows: Seq<WorkbenchRow>, order: Seq<usize>, groups: Seq<CategoryGroup>) -> bool {
    &&& forall|g: int| 0 <= g < groups.len() ==> (#[trigger] groups[g]).items@ == rows_in(rows, order, groups[g].name@)
    &&& forall|g: int| 0 <= g < groups.len() ==> (#[trigger] groups[g]).items@.len() > 0
    &&& forall|g: int, h: int| 0 <= g < h < groups.len()
        ==> bytes_lt(utf8((#[trigger] groups[g]).name@), utf8((#[trigger] groups[h]).name@))
    &&& forall|i: int| 0 <= i < order.len() ==> has_group(groups, category_name(rows[#[trigger] order[i] as int]))
}

proof fn rows_in_none(rows: Seq<WorkbenchRow>, order: Seq<usize>, name: Seq<char>)
    requires
        forall|i: int| 0 <= i < order.len() ==> category_name(rows[#[trigger] order[i] as int]) != name,
    ensures
        rows_in(rows, order, name) == Seq::<usize>::empty(),
    decreases order.len(),
{
    if order.len() > 0 {
        let rest = order.drop_last();
        assert forall|i: int| 0 <= i < rest.len() implies category_name(rows[#[trigger] rest[i] as int]) != name by {
            assert(rest[i] == order[i]);
        }
        rows_in_none(rows, rest, name);
    }
}

proof fn names_in_order_differ(a: Seq<char>, b: Seq<char>)
    ensures
        bytes_lt(utf8(a), utf8(b)) ==> a != b,
        a != b ==> bytes_lt(utf8(a), utf8(b)) || bytes_lt(utf8(b), utf8(a)),
{
    byte_order_is_strict_total(utf8(a), utf8(a), utf8(a));
    byte_order_is_strict_total(utf8(a), utf8(b), utf8(b));
    vstd::utf8::encode_utf8_decode_utf8(a);
    vstd::utf8::encode_utf8_decode_utf8(b);
}

fn category_of(r: &WorkbenchRow) -> (name: &str)
    ensures
        name@ == category_name(*r),
{
    match &r.category {
        Some(c) => c.as_str(),
        None => "General",
    }
}

/// The rows grouped by category: categories in byte order of their names, each with its
/// rows in display order.
pub fn group_by_category(rows: &Vec<WorkbenchRow>, order: &Vec<usize>) -> (groups: Vec<CategoryGroup>)
    requires
        forall|i: int| 0 <= i < order@.len() ==> #[trigger] order@[i] < rows@.len(),
    ensures
        grouped(rows@, order@, groups@),
{
    let mut groups: Vec<CategoryGroup> = Vec::new();
    let mut k: usize = 0;
    while k < order.len()
        invariant
            k <= order@.len(),
            forall|i: int| 0 <= i < order@.len() ==> #[trigger] order@[i] < rows@.len(),
            grouped(rows@, order@.take(k as int), groups@),
        decreases order.len() - k,
    {
        let idx = order[k];
        let name = category_of(&rows[idx]);
        let ghost prev = order@.take(k as int);
        let ghost next = order@.take(k as int + 1);
        let ghost old_groups = groups@;
        assert(next.drop_last() =~= prev);
        assert(next.last() == idx);
        let mut g: usize = 0;
        while g < groups.len() && !text_eq(groups[g].name.as_str(), name)
            invariant
                g <= groups@.len(),
                forall|h: int| 0 <= h < g ==> (#[trigger] groups@[h]).name@ != name@,
            decreases groups@.len() - g,
        {
            g = g + 1;
        }
        if g < groups.len() {
            let mut grp = groups.remove(g);
            grp.items.push(idx);
            groups.insert(g, grp);
            proof {
                let ng = groups@;
                assert(ng =~= old_groups.update(g as int, grp));
                assert forall|h: int| 0 <= h < ng.len() implies (#[trigger] ng[h]).items@ == rows_in(rows@, next, ng[h].name@) by {
                    if h != g {
                        if h < g {
                            names_in_order_differ(old_groups[h].name@, old_groups[g as int].name@);
                        } else {
                            names_in_order_differ(old_groups[g as int].name@, old_groups[h].name@);
                        }
                    }
                }
                assert forall|i: int| 0 <= i < next.len() implies has_group(ng, category_name(rows@[#[trigger] next[i] as int])) by {
                    if i < k {
                        assert(next[i] == prev[i]);
                        let w = choose|w: int| 0 <= w < old_groups.len() && (#[trigger] old_groups[w]).name@ == category_name(rows@[prev[i] as int]);
                        assert(ng[w].name@ == old_groups[w].name@);
                    } else {
                        assert(ng[g as int].name@ == name@);
                    }
                }
            }
        } else {
            let mut p: usize = 0;
            while p < groups.len() && !text_precedes(name, groups[p].name.as_str())
                invariant
                    p <= groups@.len(),
                    forall|h: int| 0 <= h < p ==> !bytes_lt(utf8(name@), utf8((#[trigger] groups@[h]).name@)),
                decreases groups@.len() - p,
            {
                p = p + 1;
            }
            let mut items: Vec<usize> = Vec::new();
            items.push(idx);
            let fresh = CategoryGroup { name: name.to_owned(), items };
            proof {
                assert forall|i: int| 0 <= i < prev.len() implies category_name(rows@[#[trigger] prev[i] as int]) != name@ by {
                    let w = choose|w: int| 0 <= w < old_groups.len() && (#[trigger] old_groups[w]).name@ == category_name(rows@[prev[i] as int]);
                    assert(old_groups[w].name@ != name@);
                }
                rows_in_none(rows@, prev, name@);
            }
            groups.insert(p, fresh);
            proof {
                let ng = groups@;
                assert(ng =~= old_groups.insert(p as int, fresh));
                assert forall|h: int| 0 <= h < ng.len() implies (#[trigger] ng[h]).items@ == rows_in(rows@, next, ng[h].name@) by {
                    if h == p {
                        assert(fresh.items@ =~= Seq::<usize>::empty().push(idx));
                    } else {
                        let h0 = if h < p { h } else { h - 1 };
                        assert(ng[h] == old_groups[h0]);
                    }
                }
                assert forall|a: int, b: int| 0 <= a < b < ng.len()
                    implies bytes_lt(utf8((#[trigger] ng[a]).name@), utf8((#[trigger] ng[b]).name@)) by {
                    if b < p {
                        assert(ng[a] == old_groups[a] && ng[b] == old_groups[b]);
                    } else if b == p {
                        assert(ng[a] == old_groups[a]);
                        names_in_order_differ(old_groups[a].name@, name@);
                    } else if a == p {
                        assert(ng[b] == old_groups[b - 1]);
                        assert(bytes_lt(utf8(name@), utf8(old_groups[p as int].name@)));
                        if b - 1 > p {
                            byte_order_is_strict_total(utf8(name@), utf8(old_groups[p as int].name@), utf8(old_groups[b - 1].name@));
                        }
                    } else if a < p {
                        assert(ng[a] == old_groups[a] && ng[b] == old_groups[b - 1]);
                    } else {
                        assert(ng[a] == old_groups[a - 1] && ng[b] == old_groups[b - 1]);
                    }
                }
                assert forall|i: int| 0 <= i < next.len() implies has_group(ng, category_name(rows@[#[trigger] next[i] as int])) by {
                    if i < k {
                        assert(next[i] == prev[i]);
                        let w = choose|w: int| 0 <= w < old_groups.len() && (#[trigger] old_groups[w]).name@ == category_name(rows@[prev[i] as int]);
                        let w1 = if w < p { w } else { w + 1 };
                        assert(ng[w1] == old_groups[w]);
                    } else {
                        assert(ng[p as int].name@ == name@);
                    }
                }
            }
        }
        k = k + 1;
    }
    assert(order@.take(order@.len() as int) =~= order@);
    groups
}

proof fn rows_in_has(rows: Seq<WorkbenchRow>, order: Seq<usize>, name: Seq<char>, j: int)
    requires
        0 <= j < order.len(),
        category_name(rows[order[j] as int]) == name,
    ensures
        rows_in(rows, order, name).contains(order[j]),
    decreases order.len(),
{
    let rest = order.drop_last();
    if j < order.len() - 1 {
        assert(rest[j] == order[j]);
        rows_in_has(rows, rest, name, j);
        let w = choose|w: int| 0 <= w < rows_in(rows, rest, name).len() && rows_in(rows, rest, name)[w] == order[j];
        if category_name(rows[order.last() as int]) == name {
            assert(rows_in(rows, order, name)[w] == order[j]);
        }
    } else {
        let r = rows_in(rows, order, name);
        assert(r[r.len() - 1] == order[j]);
    }
}

proof fn rows_in_only(rows: Seq<WorkbenchRow>, order: Seq<usize>, name: Seq<char>, x: usize)
    requires
        rows_in(rows, order, name).contains(x),
    ensures
        category_name(rows[x as int]) == name,
    decreases order.len(),
{
    let rest = order.drop_last();
    let r = rows_in(rows, order, name);
    let w = choose|w: int| 0 <= w < r.len() && r[w] == x;
    if category_name(rows[order.last() as int]) == name && w == r.len() - 1 {
    } else {
        assert(rows_in(rows, rest, name)[w] == x);
        rows_in_only(rows, rest, name, x);
    }
}

/// Every row shown on the Workbench stands in exactly one category group.
pub proof fn every_row_has_one_category(
    rows: Seq<WorkbenchRow>,
    order: Seq<usize>,
    groups: Seq<CategoryGroup>,
    i: int,
)
    requires
        grouped(rows, order, groups),
        0 <= i < order.len(),
    ensures
        exists|g: int| 0 <= g < groups.len() && (#[trigger] groups[g]).items@.contains(order[i]),
        forall|g: int, h: int|
            0 <= g < groups.len() && 0 <= h < groups.len() && (#[trigger] groups[g]).items@.contains(order[i])
                && (#[trigger] groups[h]).items@.contains(order[i]) ==> g == h,
{
    let name = category_name(rows[order[i] as int]);
    assert(has_group(groups, name));
    let w = choose|w: int| 0 <= w < groups.len() && (#[trigger] groups[w]).name@ == name;
    rows_in_has(rows, order, name, i);
    assert(groups[w].items@.contains(order[i]));
    assert forall|g: int, h: int|
        0 <= g < groups.len() && 0 <= h < groups.len() && (#[trigger] groups[g]).items@.contains(order[i])
            && (#[trigger] groups[h]).items@.contains(order[i]) implies g == h by {
        rows_in_only(rows, order, groups[g].name@, order[i]);
        rows_in_only(rows, order, groups[h].name@, order[i]);
        if g < h {
            names_in_order_differ(groups[g].name@, groups[h].name@);
        } else if h < g {
            names_in_order_differ(groups[h].name@, groups[g].name@);
        }
    }
}

proof fn active_rows_are_listed(rows: Seq<WorkbenchRow>, order: Seq<usize>, i: int)
    requires
        0 <= i < active_rows(rows, order).len(),
    ensures
        order.contains(active_rows(rows, order)[i]),
    decreases order.len(),
{
    let rest = order.drop_last();
    let a = active_rows(rows, order);
    if in_progress(rows[order.last() as int]) && i == a.len() - 1 {
        assert(order[order.len() - 1] == a[i]);
    } else {
        active_rows_are_listed(rows, rest, i);
        let w = choose|w: int| 0 <= w < rest.len() && rest[w] == active_rows(rows, rest)[i];
        assert(order[w] == rest[w]);
    }
}

/// The Workbench as it is shown.
#[derive(Debug, Clone)]
pub struct WorkbenchLayout {
    /// Positions of the rows in display order.
    pub order: Vec<usize>,
    /// Positions of the Tasks in progress, in display order.
    pub active: Vec<usize>,
    pub refining: Vec<RefiningShortcut>,
    pub categories: Vec<CategoryGroup>,
}

/// Lays out the Workbench: the rows in display order, shortcuts to the Tasks in progress
/// and to refining work that is not already active, and the rows grouped by category.
pub fn lay_out_workbench(rows: &Vec<WorkbenchRow>, sessions: &Vec<RefiningSession>) -> (r: WorkbenchLayout)
    ensures
        display_order(rows@, r.order@),
        r.active@ == active_rows(rows@, r.order@),
        refining_of(rows@, r.active@, sessions@, r.refining@),
        grouped(rows@, r.order@, r.categories@),
{
    let order = display_order_of(rows);
    let active = active_shortcuts(rows, &order);
    proof {
        assert forall|i: int| 0 <= i < active@.len() implies #[trigger] active@[i] < rows@.len() by {
            active_rows_are_listed(rows@, order@, i);
        }
    }
    let refining = refining_shortcuts(rows, &active, sessions);
    let categories = group_by_category(rows, &order);
    WorkbenchLayout { order, active, refining, categories }
}

} // verus!
