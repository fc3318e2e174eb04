//! The Workbench overview: its order, summary counts, pages, snapshot revision and cursor.

use vstd::prelude::*;
use crate::digest::{sha256, sha256_digest};
use crate::text::{text_eq, utf8};
use crate::work_state::{AppError, Denial, deny, outcome};
use base64::Engine;

verus! {

broadcast use vstd::seq_lib::group_to_multiset_ensures;

/// Strict lexicographic order of byte sequences from position `i` on.
pub open spec fn lex_lt(a: Seq<u8>, b: Seq<u8>, i: int) -> bool
    decreases b.len() - i,
{
    if i < 0 || i >= b.len() {
        false
    } else if i >= a.len() {
        true
    } else if a[i] != b[i] {
        a[i] < b[i]
    } else {
        lex_lt(a, b, i + 1)
    }
}

/// `a` sorts strictly before `b` in byte order.
pub open spec fn bytes_lt(a: Seq<u8>, b: Seq<u8>) -> bool {
    lex_lt(a, b, 0)
}

proof fn lex_lt_irreflexive(a: Seq<u8>, i: int)
    requires
        0 <= i,
    ensures
        !lex_lt(a, a, i),
    decreases a.len() - i,
{
    if i < a.len() {
        lex_lt_irreflexive(a, i + 1);
    }
}

proof fn lex_lt_transitive(a: Seq<u8>, b: Seq<u8>, c: Seq<u8>, i: int)
    requires
        0 <= i,
        lex_lt(a, b, i),
        lex_lt(b, c, i),
    ensures
        lex_lt(a, c, i),
    decreases c.len() - i,
{
    if i < a.len() && i < b.len() && i < c.len() && a[i] == b[i] && b[i] == c[i] {
        lex_lt_transitive(a, b, c, i + 1);
    }
}

proof fn lex_lt_trichotomy(a: Seq<u8>, b: Seq<u8>, i: int)
    requires
        0 <= i <= a.len(),
        i <= b.len(),
        a.subrange(0, i) == b.subrange(0, i),
        !lex_lt(a, b, i),
        !lex_lt(b, a, i),
    ensures
        a == b,
    decreases a.len() - i,
{
    if i < a.len() && i < b.len() {
        assert(a.subrange(0, i + 1) =~= a.subrange(0, i).push(a[i]));
        assert(b.subrange(0, i + 1) =~= b.subrange(0, i).push(b[i]));
        lex_lt_trichotomy(a, b, i + 1);
    } else {
        assert(a =~= a.subrange(0, i));
        assert(b =~= b.subrange(0, i));
    }
}

/// Strict byte order is irreflexive, transitive, and total up to equality.
pub proof fn byte_order_is_strict_total(a: Seq<u8>, b: Seq<u8>, c: Seq<u8>)
    ensures
        !bytes_lt(a, a),
        bytes_lt(a, b) && bytes_lt(b, c) ==> bytes_lt(a, c),
        !bytes_lt(a, b) && !bytes_lt(b, a) ==> a == b,
{
    lex_lt_irreflexive(a, 0);
    if bytes_lt(a, b) && bytes_lt(b, c) {
        lex_lt_transitive(a, b, c, 0);
    }
    if !bytes_lt(a, b) && !bytes_lt(b, a) {
        assert(a.subrange(0, 0) =~= b.subrange(0, 0));
        lex_lt_trichotomy(a, b, 0);
    }
}

/// Whether `a` sorts strictly before `b` in byte order.
pub fn text_precedes(a: &str, b: &str) -> (r: bool)
    ensures
        r == bytes_lt(utf8(a@), utf8(b@)),
{
    let x = a.as_bytes();
    let y = b.as_bytes();
    let mut i: usize = 0;
    while i < y.len()
        invariant
            x@ == utf8(a@),
            y@ == utf8(b@),
            i <= y@.len(),
            lex_lt(x@, y@, 0) == lex_lt(x@, y@, i as int),
        decreases y@.len() - i,
    {
        if i >= x.len() {
            return true;
        }
        if x[i] != y[i] {
            return x[i] < y[i];
        }
        i = i + 1;
    }
    false
}

/// The bytes of an optional text.
pub open spec fn opt_bytes(o: Option<String>) -> Option<Seq<u8>> {
    match o {
        Some(s) => Some(utf8(s@)),
        None => None,
    }
}

/// Strict order of optional texts: nothing first, then byte order.
pub open spec fn opt_lt(x: Option<Seq<u8>>, y: Option<Seq<u8>>) -> bool {
    match (x, y) {
        (None, Some(_)) => true,
        (Some(p), Some(q)) => bytes_lt(p, q),
        _ => false,
    }
}

pub(crate) fn opt_precedes(a: &Option<String>, b: &Option<String>) -> (r: bool)
    ensures
        r == opt_lt(opt_bytes(*a), opt_bytes(*b)),
{
    match (a, b) {
        (None, Some(_)) => true,
        (Some(p), Some(q)) => text_precedes(p.as_str(), q.as_str()),
        _ => false,
    }
}

pub(crate) fn opt_same(a: &Option<String>, b: &Option<String>) -> (r: bool)
    ensures
        r == (opt_bytes(*a) == opt_bytes(*b)),
{
    match (a, b) {
        (None, None) => true,
        (Some(p), Some(q)) => {
            let eq = !text_precedes(p.as_str(), q.as_str()) && !text_precedes(q.as_str(), p.as_str());
            proof {
                byte_order_is_strict_total(utf8(p@), utf8(q@), utf8(q@));
            }
            eq
        },
        _ => false,
    }
}

/// One Workbench item, as the overview orders and counts it.
#[derive(Debug, Clone)]
pub struct OverviewItem {
    /// The item's ID, if it has one.
    pub entity_ref: Option<String>,
    pub kind: String,
    pub state: String,
    /// The time of its last user activity, if recorded.
    pub updated_at: Option<String>,
}

/// `a` is listed before `b`: more recent activity first, then by ID.
pub open spec fn precedes(a: OverviewItem, b: OverviewItem) -> bool {
    let ua = opt_bytes(a.updated_at);
    let ub = opt_bytes(b.updated_at);
    opt_lt(ub, ua) || (ua == ub && opt_lt(opt_bytes(a.entity_ref), opt_bytes(b.entity_ref)))
}

/// No item is listed after one it precedes.
pub open spec fn listed_in_order(s: Seq<OverviewItem>) -> bool {
    forall|i: int, j: int| 0 <= i < j < s.len() ==> !precedes(#[trigger] s[j], #[trigger] s[i])
}

proof fn opt_order(x: Option<Seq<u8>>, y: Option<Seq<u8>>, z: Option<Seq<u8>>)
    ensures
        !opt_lt(x, x),
        opt_lt(x, y) && opt_lt(y, z) ==> opt_lt(x, z),
{
    match (x, y, z) {
        (Some(p), Some(q), Some(r)) => byte_order_is_strict_total(p, q, r),
        (Some(p), _, _) => byte_order_is_strict_total(p, p, p),
        _ => {},
    }
}

/// Listing order is irreflexive and transitive.
pub proof fn listing_order_is_strict(a: OverviewItem, b: OverviewItem, c: OverviewItem)
    ensures
        !precedes(a, a),
        precedes(a, b) && precedes(b, c) ==> precedes(a, c),
{
    let (ua, ub, uc) = (opt_bytes(a.updated_at), opt_bytes(b.updated_at), opt_bytes(c.updated_at));
    let (ra, rb, rc) = (opt_bytes(a.entity_ref), opt_bytes(b.entity_ref), opt_bytes(c.entity_ref));
    opt_order(ua, ua, ua);
    opt_order(ra, ra, ra);
    opt_order(uc, ub, ua);
    opt_order(ra, rb, rc);
}

/// Whether `a` is listed before `b`.
pub fn item_precedes(a: &OverviewItem, b: &OverviewItem) -> (r: bool)
    ensures
        r == precedes(*a, *b),
{
    opt_precedes(&b.updated_at, &a.updated_at) || (opt_same(&a.updated_at, &b.updated_at)
        && opt_precedes(&a.entity_ref, &b.entity_ref))
}

/// `a` and `b` sort the same: the same activity time and the same ID.
pub open spec fn same_place(a: OverviewItem, b: OverviewItem) -> bool {
    opt_bytes(a.updated_at) == opt_bytes(b.updated_at) && opt_bytes(a.entity_ref) == opt_bytes(b.entity_ref)
}

/// The items of `s` that sort the same as `x`, in their order in `s`.
pub open spec fn ties_of(s: Seq<OverviewItem>, x: OverviewItem) -> Seq<OverviewItem>
    decreases s.len(),
{
    if s.len() == 0 {
        Seq::empty()
    } else {
        ties_of(s.drop_last(), x) + if same_place(s.last(), x) {
            seq![s.last()]
        } else {
            Seq::empty()
        }
    }
}

proof fn ties_of_add(a: Seq<OverviewItem>, b: Seq<OverviewItem>, x: OverviewItem)
    ensures
        ties_of(a + b, x) == ties_of(a, x) + ties_of(b, x),
    decreases b.len(),
{
    if b.len() == 0 {
        assert(a + b =~= a);
        assert(ties_of(a, x) + ties_of(b, x) =~= ties_of(a, x));
    } else {
        assert((a + b).drop_last() =~= a + b.drop_last());
        ties_of_add(a, b.drop_last(), x);
        assert((a + b).last() == b.last());
        assert(ties_of(a + b, x) =~= ties_of(a, x) + ties_of(b, x));
    }
}

proof fn ties_of_none(b: Seq<OverviewItem>, x: OverviewItem)
    requires
        forall|j: int| 0 <= j < b.len() ==> !same_place(#[trigger] b[j], x),
    ensures
        ties_of(b, x) == Seq::<OverviewItem>::empty(),
    decreases b.len(),
{
    if b.len() > 0 {
        ties_of_none(b.drop_last(), x);
        assert(!same_place(b[b.len() - 1], x));
        assert(ties_of(b, x) =~= Seq::<OverviewItem>::empty());
    }
}

proof fn ties_of_one(y: OverviewItem, x: OverviewItem)
    ensures
        ties_of(seq![y], x) == (if same_place(y, x) { seq![y] } else { Seq::<OverviewItem>::empty() }),
{
    assert(seq![y].drop_last() =~= Seq::<OverviewItem>::empty());
    assert(seq![y].last() == y);
    assert(ties_of(Seq::<OverviewItem>::empty(), x) =~= Seq::<OverviewItem>::empty());
    assert(ties_of(seq![y], x) =~= (if same_place(y, x) { seq![y] } else { Seq::<OverviewItem>::empty() }));
}

/// Inserting `y` at `pos`, before every later item of a sorted list, keeps the order of
/// each group of items that sort the same, with `y` last in its group.
proof fn ties_after_insert(s: Seq<OverviewItem>, pos: int, y: OverviewItem, x: OverviewItem)
    requires
        0 <= pos <= s.len(),
        listed_in_order(s),
        pos < s.len() ==> precedes(y, s[pos]),
    ensures
        ties_of(s.insert(pos, y), x) == ties_of(s.push(y), x),
{
    let a = s.take(pos);
    let b = s.skip(pos);
    assert(s =~= a + b);
    assert(s.insert(pos, y) =~= a + (seq![y] + b));
    assert(s.push(y) =~= (a + b) + seq![y]);
    ties_of_add(a, seq![y] + b, x);
    ties_of_add(seq![y], b, x);
    ties_of_add(a + b, seq![y], x);
    ties_of_add(a, b, x);
    ties_of_one(y, x);
    if same_place(y, x) {
        assert forall|j: int| 0 <= j < b.len() implies !same_place(#[trigger] b[j], x) by {
            assert(b[j] == s[pos + j]);
            listing_order_is_strict(s[pos], s[pos], s[pos]);
            if j > 0 {
                assert(!precedes(s[pos + j], s[pos]));
            }
            if same_place(b[j], x) {
                assert(same_place(b[j], y));
                assert(precedes(b[j], s[pos]) == precedes(y, s[pos]));
            }
        }
        ties_of_none(b, x);
        assert(ties_of(s.insert(pos, y), x) =~= ties_of(s.push(y), x));
    } else {
        assert(ties_of(s.insert(pos, y), x) =~= ties_of(s.push(y), x));
    }
}

/// Orders Workbench items for the overview: most recent activity first, then by ID.
/// Items that tie keep their original order.
pub fn order_items(items: Vec<OverviewItem>) -> (out: Vec<OverviewItem>)
    ensures
        listed_in_order(out@),
        out@.to_multiset() == items@.to_multiset(),
        forall|x: OverviewItem| #[trigger] ties_of(out@, x) == ties_of(items@, x),
{
    let mut out: Vec<OverviewItem> = Vec::new();
    let mut rest = items;
    let ghost original = rest@;
    let mut taken: usize = 0;
    let n = rest.len();
    proof {
        assert(original.take(0) =~= Seq::<OverviewItem>::empty());
    }
    while rest.len() > 0
        invariant
            n == original.len(),
            taken + rest@.len() == n,
            rest@ == original.skip(taken as int),
            listed_in_order(out@),
            out@.to_multiset() == original.take(taken as int).to_multiset(),
            forall|y: OverviewItem| #[trigger] ties_of(out@, y) == ties_of(original.take(taken as int), y),
        decreases rest@.len(),
    {
        let x = rest.remove(0);
        proof {
            assert(original.take(taken as int + 1) =~= original.take(taken as int).push(x));
            assert(rest@ =~= original.skip(taken as int + 1));
        }
        let mut pos: usize = 0;
        while pos < out.len() && !item_precedes(&x, &out[pos])
            invariant
                pos <= out@.len(),
                forall|j: int| 0 <= j < pos ==> !precedes(x, #[trigger] out@[j]),
            decreases out@.len() - pos,
        {
            pos = pos + 1;
        }
        proof {
            let s = out@;
            let t = s.insert(pos as int, x);
            assert forall|i: int, j: int| 0 <= i < j < t.len() implies !precedes(
                #[trigger] t[j],
                #[trigger] t[i],
            ) by {
                if j < pos {
                    assert(t[i] == s[i] && t[j] == s[j]);
                } else if j == pos {
                    assert(t[j] == x && t[i] == s[i]);
                } else if i == pos {
                    assert(t[i] == x && t[j] == s[j - 1]);
                    assert(pos < s.len());
                    assert(precedes(x, s[pos as int]));
                    listing_order_is_strict(s[j - 1], x, s[pos as int]);
                    listing_order_is_strict(x, x, x);
                    if j - 1 > pos {
                        assert(!precedes(s[j - 1], s[pos as int]));
                    } else {
                        listing_order_is_strict(x, s[pos as int], x);
                    }
                } else if i < pos {
                    assert(t[i] == s[i] && t[j] == s[j - 1]);
                } else {
                    assert(t[i] == s[i - 1] && t[j] == s[j - 1]);
                }
            }
            assert forall|y: OverviewItem| #[trigger] ties_of(t, y) == ties_of(original.take(taken as int + 1), y) by {
                ties_after_insert(s, pos as int, x, y);
                ties_of_add(s, seq![x], y);
                ties_of_add(original.take(taken as int), seq![x], y);
                assert(s.push(x) =~= s + seq![x]);
                assert(original.take(taken as int).push(x) =~= original.take(taken as int) + seq![x]);
            }
            vstd::seq_lib::to_multiset_insert(s, pos as int, x);
            vstd::seq_lib::to_multiset_build(original.take(taken as int), x);
        }
        out.insert(pos, x);
        taken = taken + 1;
    }
    proof {
        assert(original.take(n as int) =~= original);
    }
    out
}

/// How many items have the given kind.
pub open spec fn count_kind(s: Seq<OverviewItem>, kind: Seq<char>) -> nat
    decreases s.len(),
{
    if s.len() == 0 {
        0
    } else {
        count_kind(s.drop_last(), kind) + if s.last().kind@ == kind {
            1nat
        } else {
            0nat
        }
    }
}

/// How many items are in the given state.
pub open spec fn count_state(s: Seq<OverviewItem>, state: Seq<char>) -> nat
    decreases s.len(),
{
    if s.len() == 0 {
        0
    } else {
        count_state(s.drop_last(), state) + if s.last().state@ == state {
            1nat
        } else {
            0nat
        }
    }
}

proof fn counts_bounded(s: Seq<OverviewItem>, kind: Seq<char>, state: Seq<char>)
    ensures
        count_kind(s, kind) <= s.len(),
        count_state(s, state) <= s.len(),
    decreases s.len(),
{
    if s.len() > 0 {
        counts_bounded(s.drop_last(), kind, state);
    }
}

/// The summary counts of the overview.
#[derive(Debug, Clone, Copy, PartialEq, Eq, Structural)]
pub struct OverviewSummary {
    pub captures: usize,
    pub tasks: usize,
    pub in_progress: usize,
    pub completed: usize,
    pub total: usize,
}

/// Counts Captures, Tasks, Tasks in progress, completed Tasks, and all items.
pub fn summarize(items: &Vec<OverviewItem>) -> (r: OverviewSummary)
    ensures
        r.captures == count_kind(items@, "capture"@),
        r.tasks == count_kind(items@, "task"@),
        r.in_progress == count_state(items@, "in_progress"@),
        r.completed == count_state(items@, "completed"@),
        r.total == items@.len(),
{
    let mut captures: usize = 0;
    let mut tasks: usize = 0;
    let mut in_progress: usize = 0;
    let mut completed: usize = 0;
    let mut i: usize = 0;
    while i < items.len()
        invariant
            i <= items@.len(),
            captures == count_kind(items@.take(i as int), "capture"@),
            tasks == count_kind(items@.take(i as int), "task"@),
            in_progress == count_state(items@.take(i as int), "in_progress"@),
            completed == count_state(items@.take(i as int), "completed"@),
        decreases items@.len() - i,
    {
        let item = &items[i];
        proof {
            assert(items@.take(i as int + 1).drop_last() =~= items@.take(i as int));
            counts_bounded(items@.take(i as int), "capture"@, "in_progress"@);
            counts_bounded(items@.take(i as int), "task"@, "completed"@);
        }
        if text_eq(item.kind.as_str(), "capture") {
            captures = captures + 1;
        }
        if text_eq(item.kind.as_str(), "task") {
            tasks = tasks + 1;
        }
        if text_eq(item.state.as_str(), "in_progress") {
            in_progress = in_progress + 1;
        }
        if text_eq(item.state.as_str(), "completed") {
            completed = completed + 1;
        }
        i = i + 1;
    }
    proof {
        assert(items@.take(items@.len() as int) =~= items@);
    }
    OverviewSummary { captures, tasks, in_progress, completed, total: items.len() }
}

/// Positions of the completed items among the first `n`, in order.
pub open spec fn completed_positions(s: Seq<OverviewItem>, n: int) -> Seq<int>
    decreases n,
{
    if n <= 0 {
        Seq::empty()
    } else if s[n - 1].state@ == "completed"@ {
        completed_positions(s, n - 1).push(n - 1)
    } else {
        completed_positions(s, n - 1)
    }
}

/// How many recently completed items the overview lists.
pub const RECENTLY_COMPLETED: usize = 10;

/// The first recently-completed positions of a listing.
pub open spec fn recent_completions(s: Seq<OverviewItem>) -> Seq<int> {
    let p = completed_positions(s, s.len() as int);
    p.take(if p.len() < RECENTLY_COMPLETED { p.len() as int } else { RECENTLY_COMPLETED as int })
}

/// The positions of the first ten completed items of an ordered listing.
pub fn recently_completed(items: &Vec<OverviewItem>) -> (r: Vec<usize>)
    ensures
        r@.len() == recent_completions(items@).len(),
        forall|k: int| 0 <= k < r@.len() ==> r@[k] as int == recent_completions(items@)[k],
{
    let mut r: Vec<usize> = Vec::new();
    let mut i: usize = 0;
    while i < items.len()
        invariant
            i <= items@.len(),
            r@.len() <= RECENTLY_COMPLETED,
            ({
                let p = completed_positions(items@, i as int);
                &&& r@.len() == (if p.len() < RECENTLY_COMPLETED { p.len() } else { RECENTLY_COMPLETED as nat })
                &&& forall|k: int| 0 <= k < r@.len() ==> r@[k] as int == p[k]
            }),
        decreases items@.len() - i,
    {
        proof {
            let p = completed_positions(items@, i as int);
            let q = completed_positions(items@, i as int + 1);
            if items@[i as int].state@ == "completed"@ {
                assert(q == p.push(i as int));
            } else {
                assert(q == p);
            }
        }
        if text_eq(items[i].state.as_str(), "completed") && r.len() < RECENTLY_COMPLETED {
            r.push(i);
        }
        i = i + 1;
    }
    r
}

/// The bounds of a page and the offset of the next one.
#[derive(Debug, Clone, Copy, PartialEq, Eq, Structural)]
pub struct PageBounds {
    pub start: usize,
    pub end: usize,
    pub next: Option<usize>,
}

/// The page of `limit` items from `offset` in a listing of `total`, and the next offset
/// while items remain.
pub open spec fn page_of(total: nat, offset: nat, limit: nat) -> (nat, nat, Option<nat>) {
    let start = if offset < total { offset } else { total };
    let end = if start + limit < total { start + limit } else { total };
    (start, end, if offset + (end - start) < total { Some((offset + (end - start)) as nat) } else { None })
}

/// Cuts a page out of a listing.
pub fn page_bounds(total: usize, offset: usize, limit: usize) -> (r: PageBounds)
    ensures
        page_of(total as nat, offset as nat, limit as nat) == (
            r.start as nat,
            r.end as nat,
            match r.next {
                Some(n) => Some(n as nat),
                None => None,
            },
        ),
{
    let start = if offset < total { offset } else { total };
    let end = if limit < total - start { start + limit } else { total };
    let next = if start < total && end < total { Some(end) } else { None };
    PageBounds { start, end, next }
}

/// Paging walks a listing: the next page starts where this one ended, and the last page
/// has no next offset.
pub proof fn pages_tile_the_listing(total: nat, offset: nat, limit: nat)
    requires
        limit > 0,
        offset < total,
    ensures
        page_of(total, offset, limit).0 == offset,
        page_of(total, offset, limit).1 > offset,
        page_of(total, offset, limit).2 matches Some(n) ==> n == page_of(total, offset, limit).1 && n < total,
        page_of(total, offset, limit).2 is None ==> page_of(total, offset, limit).1 == total,
{
}

/// The largest snapshot revision, 2^53 - 1, which JSON numbers carry exactly.
pub const SNAPSHOT_MASK: i64 = 9007199254740991;

/// The snapshot revision of a digest: its first eight bytes read big-endian, keeping the
/// low 53 bits.
pub open spec fn revision_of(d: Seq<u8>) -> int {
    (d[1] as int % 32) * 281474976710656 + d[2] as int * 1099511627776 + d[3] as int * 4294967296
        + d[4] as int * 16777216 + d[5] as int * 65536 + d[6] as int * 256 + d[7] as int
}

/// Reads the snapshot revision out of a digest of at least eight bytes.
pub fn revision_from_digest(digest: &[u8]) -> (r: i64)
    requires
        digest@.len() >= 8,
    ensures
        r as int == revision_of(digest@),
        0 <= r <= SNAPSHOT_MASK,
{
    let hi: i64 = (digest[1] % 32) as i64;
    hi * 281474976710656 + digest[2] as i64 * 1099511627776 + digest[3] as i64 * 4294967296
        + digest[4] as i64 * 16777216 + digest[5] as i64 * 65536 + digest[6] as i64 * 256
        + digest[7] as i64
}

/// The snapshot revision of a serialized Workbench board and attention list: the SHA-256
/// digest of the bytes, read by `revision_of`.
pub fn snapshot_revision(serialized: &[u8]) -> (r: i64)
    ensures
        r as int == revision_of(sha256_digest(serialized@)),
{
    let digest = sha256(serialized);
    revision_from_digest(digest.as_slice())
}

/// The document an overview's snapshot revision is taken over: the Workbench board and
/// the attention list.
pub fn board_document(board: crate::evidence::Json, attention: crate::evidence::Json) -> (r: crate::evidence::Json)
    ensures
        r matches crate::evidence::Json::Object(es) && es@.len() == 2
            && es@[0].0@ == "board"@ && es@[0].1 == board
            && es@[1].0@ == "attention"@ && es@[1].1 == attention,
{
    let mut es: Vec<(String, crate::evidence::Json)> = Vec::new();
    es.push(("board".to_owned(), board));
    es.push(("attention".to_owned(), attention));
    crate::evidence::Json::Object(es)
}

/// The snapshot revision of the board document, as serde_json writes it.
pub fn board_revision(document: &crate::evidence::Json) -> (r: i64)
    ensures
        r as int == revision_of(sha256_digest(utf8(crate::digest::json_text(*document)))),
{
    let text = crate::digest::serialize_json(document);
    snapshot_revision(text.as_str().as_bytes())
}

/// How many attention items one overview page shows.
pub const ATTENTION_PAGE: usize = 50;

/// What URL-safe Base64 without padding decodes from a text, if it is valid.
pub uninterp spec fn base64_url_decode(text: Seq<char>) -> Option<Seq<u8>>;

/// What URL-safe Base64 without padding encodes bytes as.
pub uninterp spec fn base64_url_encode(bytes: Seq<u8>) -> Seq<char>;

/// Decodes URL-safe Base64 without padding.
///
/// Trusted: calls `base64::engine::general_purpose::URL_SAFE_NO_PAD.decode`, which
/// returns the decoded bytes or an error for text that is not valid unpadded URL-safe
/// Base64; the result depends on the text alone.
#[verifier::external_body]
fn decode_url_safe(text: &str) -> (r: Option<Vec<u8>>)
    ensures
        match r {
            Some(bytes) => base64_url_decode(text@) == Some(bytes@),
            None => base64_url_decode(text@) is None,
        },
{
    base64::engine::general_purpose::URL_SAFE_NO_PAD.decode(text).ok()
}

/// Encodes bytes as URL-safe Base64 without padding.
///
/// Trusted: calls `base64::engine::general_purpose::URL_SAFE_NO_PAD.encode`, whose text
/// depends on the bytes alone, and which the same engine decodes back to the bytes (the
/// encode/decode round trip that the crate's own tests check for every engine). It
/// panics only when the encoded length overflows `usize`, which the length bound rules
/// out.
#[verifier::external_body]
fn encode_url_safe(bytes: &[u8]) -> (r: String)
    requires
        bytes@.len() <= usize::MAX / 2,
    ensures
        r@ == base64_url_encode(bytes@),
        base64_url_decode(r@) == Some(bytes@),
{
    base64::engine::general_purpose::URL_SAFE_NO_PAD.encode(bytes)
}

/// The bytes of an overview cursor, or None when it is not valid Base64.
pub fn cursor_bytes(cursor: &str) -> (r: Option<Vec<u8>>)
    ensures
        match r {
            Some(bytes) => base64_url_decode(cursor@) == Some(bytes@),
            None => base64_url_decode(cursor@) is None,
        },
{
    decode_url_safe(cursor)
}

/// The cursor of the next overview page: only while a listing or the attention list has
/// more to show, encoding the serialized cursor fields.
pub fn next_cursor(next_offset: Option<u64>, next_attention: Option<u64>, serialized: &[u8]) -> (r: Option<String>)
    requires
        serialized@.len() <= usize::MAX / 2,
    ensures
        (next_offset is None && next_attention is None) ==> r is None,
        (next_offset is Some || next_attention is Some) ==> (r matches Some(c) && c@ == base64_url_encode(serialized@)),
        r matches Some(c) ==> base64_url_decode(c@) == Some(serialized@),
{
    if next_offset.is_some() || next_attention.is_some() {
        Some(encode_url_safe(serialized))
    } else {
        None
    }
}

/// What a decoded overview cursor carries, each field as it was found.
#[derive(Debug, Clone)]
pub struct CursorFields {
    pub owner: Option<String>,
    pub expires: Option<i64>,
    pub offset: Option<u64>,
    pub attention_offset: Option<u64>,
    pub snapshot: Option<i64>,
}

/// Where an overview page starts and the snapshot it must belong to.
#[derive(Debug, Clone, Copy, PartialEq, Eq, Structural)]
pub struct CursorPosition {
    pub offset: u64,
    pub attention_offset: u64,
    pub snapshot: Option<i64>,
}

/// The position a cursor resumes at, or why it cannot be used. `fields` is None when the
/// cursor did not decode; `owner` is the requesting connection's hash; `now` is in seconds.
pub open spec fn cursor_outcome(fields: Option<CursorFields>, owner: Seq<char>, now: i64, expected: Option<i64>) -> Result<(u64, u64, Option<i64>), Denial> {
    match fields {
        None => Err(deny("snapshot_stale"@, "The overview cursor is invalid or expired"@)),
        Some(f) => {
            let expires = match f.expires { Some(e) => e, None => 0 };
            if !(f.owner matches Some(o) && o@ == owner) || expires < now {
                Err(deny("snapshot_stale"@, "The overview cursor is invalid or expired"@))
            } else {
                match f.snapshot {
                    None => Err(deny("snapshot_stale"@, "The overview cursor is invalid or expired"@)),
                    Some(embedded) => if expected matches Some(v) && v != embedded {
                        Err(
                            deny(
                                "snapshot_stale"@,
                                "The overview snapshot changed; refresh from the first page"@,
                            ),
                        )
                    } else {
                        Ok(
                            (
                                match f.offset { Some(o) => o, None => 0 },
                                match f.attention_offset { Some(o) => o, None => 0 },
                                Some(embedded),
                            ),
                        )
                    },
                }
            }
        },
    }
}

/// Resumes an overview from a decoded cursor: it must belong to this connection, be
/// unexpired, carry a snapshot, and agree with the snapshot the caller expects.
pub fn resume_cursor(fields: Option<&CursorFields>, owner: &str, now: i64, expected: Option<i64>) -> (r: Result<CursorPosition, AppError>)
    ensures
        match cursor_outcome(
            match fields {
                Some(f) => Some(*f),
                None => None,
            },
            owner@,
            now,
            expected,
        ) {
            Ok(p) => r matches Ok(c) && (c.offset, c.attention_offset, c.snapshot) == p,
            Err(d) => outcome(r, Err(d)),
        },
{
    let f = match fields {
        None => {
            return Err(AppError::new("snapshot_stale", "The overview cursor is invalid or expired"));
        },
        Some(f) => f,
    };
    let expires = match f.expires {
        Some(e) => e,
        None => 0,
    };
    let owned = match &f.owner {
        Some(o) => text_eq(o.as_str(), owner),
        None => false,
    };
    if !owned || expires < now {
        return Err(AppError::new("snapshot_stale", "The overview cursor is invalid or expired"));
    }
    let embedded = match f.snapshot {
        None => {
            return Err(AppError::new("snapshot_stale", "The overview cursor is invalid or expired"));
        },
        Some(s) => s,
    };
    match expected {
        Some(v) => {
            if v != embedded {
                return Err(
                    AppError::new(
                        "snapshot_stale",
                        "The overview snapshot changed; refresh from the first page",
                    ),
                );
            }
        },
        None => {},
    }
    Ok(
        CursorPosition {
            offset: match f.offset {
                Some(o) => o,
                None => 0,
            },
            attention_offset: match f.attention_offset {
                Some(o) => o,
                None => 0,
            },
            snapshot: Some(embedded),
        },
    )
}

/// A page may be served only from the snapshot its cursor was cut from.
pub fn check_snapshot(cursor_snapshot: Option<i64>, current: i64) -> (r: Result<(), AppError>)
    ensures
        match cursor_snapshot {
            Some(s) if s != current => outcome(
                r,
                Err(deny("snapshot_stale"@, "The overview snapshot changed; refresh from the first page"@)),
            ),
            _ => r is Ok,
        },
{
    match cursor_snapshot {
        Some(s) => {
            if s != current {
                return Err(
                    AppError::new(
                        "snapshot_stale",
                        "The overview snapshot changed; refresh from the first page",
                    ),
                );
            }
            Ok(())
        },
        None => Ok(()),
    }
}

/// A limit kept between 1 and `max`.
pub fn clamp_limit(limit: usize, max: usize) -> (r: usize)
    requires
        max >= 1,
    ensures
        r == (if limit < 1 { 1 } else if limit > max { max } else { limit }),
{
    if limit < 1 {
        1
    } else if limit > max {
        max
    } else {
        limit
    }
}

/// The refusal, if any, of a topic ID: it must be present and at most 120 bytes.
pub open spec fn topic_id_check(topic: Seq<char>) -> Option<Denial> {
    if crate::text::is_blank(topic) || utf8(topic).len() > 120 {
        Some(deny("invalid_input"@, "topicId must be 1\u{2013}120 characters"@))
    } else {
        None
    }
}

/// Checks a topic ID before its members are listed.
pub fn check_topic_id(topic: &str) -> (r: Result<(), AppError>)
    ensures
        crate::review::refused(r, topic_id_check(topic@)),
{
    let t = crate::text::trimmed(topic);
    if t.as_str().is_empty() || topic.as_bytes().len() > 120 {
        return Err(AppError::new("invalid_input", "topicId must be 1\u{2013}120 characters"));
    }
    Ok(())
}

} // verus!
