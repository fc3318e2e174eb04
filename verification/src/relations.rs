//! Task relationships: how a new relationship is oriented, and why a prerequisite that
//! would close a cycle is refused.

use vstd::prelude::*;
use crate::overview::{bytes_lt, text_precedes};
use crate::task::{relationship_check, validate_relationship};
use crate::text::{text_eq, utf8};

verus! {

/// The stored endpoints of a relationship: a `related` pair is stored with its
/// byte-wise smaller Task first, so that either direction names the same link.
pub open spec fn oriented(source: Seq<char>, target: Seq<char>, kind: Seq<char>) -> (Seq<char>, Seq<char>) {
    if kind == "related"@ && bytes_lt(utf8(target), utf8(source)) {
        (target, source)
    } else {
        (source, target)
    }
}

/// Validates a new relationship and returns the endpoints it is stored under.
pub fn relationship_endpoints(source: &str, target: &str, kind: &str) -> (r: Result<(String, String), String>)
    ensures
        match relationship_check(source@, target@, kind@) {
            Ok(_) => r matches Ok((a, b)) && (a@, b@) == oriented(source@, target@, kind@),
            Err(m) => r matches Err(e) && e@ == m,
        },
{
    match validate_relationship(source, target, kind) {
        Err(e) => {
            return Err(e);
        },
        Ok(()) => {},
    }
    if text_eq(kind, "related") && text_precedes(target, source) {
        Ok((target.to_owned(), source.to_owned()))
    } else {
        Ok((source.to_owned(), target.to_owned()))
    }
}

/// A `related` link is stored the same way whichever Task it is made from.
pub proof fn related_links_are_symmetric(a: Seq<char>, b: Seq<char>)
    requires
        a != b,
    ensures
        oriented(a, b, "related"@) == oriented(b, a, "related"@),
{
    crate::overview::byte_order_is_strict_total(utf8(a), utf8(b), utf8(a));
    if !bytes_lt(utf8(a), utf8(b)) && !bytes_lt(utf8(b), utf8(a)) {
        vstd::utf8::encode_utf8_decode_utf8(a);
        vstd::utf8::encode_utf8_decode_utf8(b);
    }
}

/// An active prerequisite edge from `x` to `y`.
pub open spec fn edge(edges: Seq<(String, String)>, x: Seq<char>, y: Seq<char>) -> bool {
    exists|i: int| 0 <= i < edges.len() && (#[trigger] edges[i]).0@ == x && edges[i].1@ == y
}

/// `y` is reached from `x` along `n + 1` prerequisite edges.
pub open spec fn path(edges: Seq<(String, String)>, x: Seq<char>, y: Seq<char>, n: nat) -> bool
    decreases n,
{
    if n == 0 {
        edge(edges, x, y)
    } else {
        exists|z: Seq<char>| path(edges, x, z, (n - 1) as nat) && #[trigger] edge(edges, z, y)
    }
}

/// `y` is reached from `x` along one or more prerequisite edges.
pub open spec fn reaches(edges: Seq<(String, String)>, x: Seq<char>, y: Seq<char>) -> bool {
    exists|n: nat| #[trigger] path(edges, x, y, n)
}

/// Whether a list of Task IDs holds `id`.
pub open spec fn holds_id(ids: Seq<String>, id: Seq<char>) -> bool {
    exists|i: int| 0 <= i < ids.len() && (#[trigger] ids[i])@ == id
}

/// How many edges end at a Task not yet in `ids`.
pub open spec fn edges_left(edges: Seq<(String, String)>, ids: Seq<String>) -> nat
    decreases edges.len(),
{
    if edges.len() == 0 {
        0
    } else {
        edges_left(edges.drop_last(), ids) + if holds_id(ids, edges.last().1@) {
            0nat
        } else {
            1nat
        }
    }
}

proof fn edges_left_shrink(edges: Seq<(String, String)>, ids: Seq<String>, v: String)
    ensures
        edges_left(edges, ids.push(v)) <= edges_left(edges, ids),
        (exists|i: int| 0 <= i < edges.len() && (#[trigger] edges[i]).1@ == v@) && !holds_id(ids, v@)
            ==> edges_left(edges, ids.push(v)) < edges_left(edges, ids),
    decreases edges.len(),
{
    if edges.len() > 0 {
        let last = edges.last();
        edges_left_shrink(edges.drop_last(), ids, v);
        assert forall|id: Seq<char>| holds_id(ids, id) implies holds_id(ids.push(v), id) by {
            let i = choose|i: int| 0 <= i < ids.len() && (#[trigger] ids[i])@ == id;
            assert(ids.push(v)[i] == ids[i]);
        }
        assert(ids.push(v)[ids.len() as int] == v);
        if (exists|i: int| 0 <= i < edges.len() && (#[trigger] edges[i]).1@ == v@) && !holds_id(ids, v@) {
            let i = choose|i: int| 0 <= i < edges.len() && (#[trigger] edges[i]).1@ == v@;
            if i < edges.len() - 1 {
                assert(edges.drop_last()[i] == edges[i]);
            }
        }
    }
}

fn holds(ids: &Vec<String>, id: &str) -> (r: bool)
    ensures
        r == holds_id(ids@, id@),
{
    let mut i: usize = 0;
    while i < ids.len()
        invariant
            i <= ids@.len(),
            forall|k: int| 0 <= k < i ==> (#[trigger] ids@[k])@ != id@,
        decreases ids@.len() - i,
    {
        if text_eq(ids[i].as_str(), id) {
            return true;
        }
        i = i + 1;
    }
    false
}

/// Every Task reached from `from` along the active prerequisite edges.
pub fn reachable_from(edges: &Vec<(String, String)>, from: &str) -> (r: Vec<String>)
    ensures
        forall|y: Seq<char>| holds_id(r@, y) <==> reaches(edges@, from@, y),
{
    let mut found: Vec<String> = Vec::new();
    let mut changed = true;
    while changed
        invariant
            forall|y: Seq<char>| holds_id(found@, y) ==> reaches(edges@, from@, y),
            !changed ==> forall|i: int| 0 <= i < edges@.len() ==> ((#[trigger] edges@[i]).0@ == from@
                || holds_id(found@, edges@[i].0@)) ==> holds_id(found@, edges@[i].1@),
        decreases edges_left(edges@, found@) + if changed { 1nat } else { 0nat },
    {
        changed = false;
        let ghost start = edges_left(edges@, found@);
        let mut i: usize = 0;
        while i < edges.len()
            invariant
                i <= edges@.len(),
                forall|y: Seq<char>| holds_id(found@, y) ==> reaches(edges@, from@, y),
                !changed ==> forall|k: int| 0 <= k < i ==> ((#[trigger] edges@[k]).0@ == from@
                    || holds_id(found@, edges@[k].0@)) ==> holds_id(found@, edges@[k].1@),
                changed ==> edges_left(edges@, found@) < start,
                !changed ==> edges_left(edges@, found@) == start,
            decreases edges@.len() - i,
        {
            let (u, v) = (&edges[i].0, &edges[i].1);
            if (text_eq(u.as_str(), from) || holds(&found, u.as_str())) && !holds(&found, v.as_str()) {
                proof {
                    assert(edge(edges@, u@, v@));
                    if u@ == from@ {
                        assert(path(edges@, from@, v@, 0));
                        assert(reaches(edges@, from@, v@));
                    } else {
                        let n = choose|n: nat| #[trigger] path(edges@, from@, u@, n);
                        assert(path(edges@, from@, v@, n + 1));
                        assert(reaches(edges@, from@, v@));
                    }
                    edges_left_shrink(edges@, found@, *v);
                    assert forall|y: Seq<char>| holds_id(found@.push(*v), y) implies reaches(
                        edges@,
                        from@,
                        y,
                    ) by {
                        let k = choose|k: int| 0 <= k < found@.push(*v).len() && (#[trigger] found@.push(*v)[k])@ == y;
                        if k < found@.len() {
                            assert(found@[k] == found@.push(*v)[k]);
                            assert(holds_id(found@, y));
                        } else {
                            assert(y == v@);
                        }
                    }
                }
                found.push(v.clone());
                changed = true;
            } else {
                proof {
                    if !changed {
                        assert forall|k: int| 0 <= k < i + 1 implies ((#[trigger] edges@[k]).0@ == from@
                            || holds_id(found@, edges@[k].0@)) ==> holds_id(found@, edges@[k].1@) by {
                        }
                    }
                }
            }
            i = i + 1;
        }
    }
    proof {
        assert forall|y: Seq<char>| reaches(edges@, from@, y) implies holds_id(found@, y) by {
            let n = choose|n: nat| #[trigger] path(edges@, from@, y, n);
            closed_sets_hold_paths(edges@, from@, found@, y, n);
        }
    }
    found
}

proof fn closed_sets_hold_paths(edges: Seq<(String, String)>, from: Seq<char>, found: Seq<String>, y: Seq<char>, n: nat)
    requires
        forall|i: int| 0 <= i < edges.len() ==> ((#[trigger] edges[i]).0@ == from || holds_id(
            found,
            edges[i].0@,
        )) ==> holds_id(found, edges[i].1@),
        path(edges, from, y, n),
    ensures
        holds_id(found, y),
    decreases n,
{
    if n == 0 {
        let i = choose|i: int| 0 <= i < edges.len() && (#[trigger] edges[i]).0@ == from && edges[i].1@ == y;
    } else {
        let z = choose|z: Seq<char>| path(edges, from, z, (n - 1) as nat) && #[trigger] edge(edges, z, y);
        closed_sets_hold_paths(edges, from, found, z, (n - 1) as nat);
        let i = choose|i: int| 0 <= i < edges.len() && (#[trigger] edges[i]).0@ == z && edges[i].1@ == y;
    }
}

/// Whether a new prerequisite from `source` to `target` would close a cycle: it does
/// exactly when `target` already leads back to `source`.
pub fn prerequisite_cycle(edges: &Vec<(String, String)>, source: &str, target: &str) -> (r: bool)
    ensures
        r == reaches(edges@, target@, source@),
{
    let reached = reachable_from(edges, target);
    holds(&reached, source)
}

/// No Task leads back to itself along prerequisites.
pub open spec fn acyclic(edges: Seq<(String, String)>) -> bool {
    forall|x: Seq<char>| !#[trigger] reaches(edges, x, x)
}

proof fn edge_after_push(edges: Seq<(String, String)>, e: (String, String), x: Seq<char>, y: Seq<char>)
    ensures
        edge(edges.push(e), x, y) <==> edge(edges, x, y) || (x == e.0@ && y == e.1@),
{
    let pushed = edges.push(e);
    if edge(pushed, x, y) {
        let i = choose|i: int| 0 <= i < pushed.len() && (#[trigger] pushed[i]).0@ == x && pushed[i].1@ == y;
        if i < edges.len() {
            assert(edges[i] == pushed[i]);
        }
    }
    if edge(edges, x, y) {
        let i = choose|i: int| 0 <= i < edges.len() && (#[trigger] edges[i]).0@ == x && edges[i].1@ == y;
        assert(pushed[i] == edges[i]);
    }
    if x == e.0@ && y == e.1@ {
        assert(pushed[edges.len() as int] == e);
    }
}

proof fn reaches_transitive(edges: Seq<(String, String)>, x: Seq<char>, y: Seq<char>, z: Seq<char>, m: nat)
    requires
        reaches(edges, x, y),
        path(edges, y, z, m),
    ensures
        reaches(edges, x, z),
    decreases m,
{
    if m == 0 {
        let n = choose|n: nat| #[trigger] path(edges, x, y, n);
        assert(path(edges, x, z, n + 1));
    } else {
        let w = choose|w: Seq<char>| path(edges, y, w, (m - 1) as nat) && #[trigger] edge(edges, w, z);
        reaches_transitive(edges, x, y, w, (m - 1) as nat);
        let n = choose|n: nat| #[trigger] path(edges, x, w, n);
        assert(path(edges, x, z, n + 1));
    }
}

/// A path after adding the edge `a -> b` either existed before, or runs from `a` (or a
/// Task leading to it) to `b` (or a Task it leads to).
proof fn paths_after_push(edges: Seq<(String, String)>, e: (String, String), x: Seq<char>, y: Seq<char>, n: nat)
    requires
        e.0@ != e.1@,
        !reaches(edges, e.1@, e.0@),
        path(edges.push(e), x, y, n),
    ensures
        path(edges, x, y, n) || ((x == e.0@ || reaches(edges, x, e.0@)) && (y == e.1@ || reaches(
            edges,
            e.1@,
            y,
        ))),
    decreases n,
{
    let (a, b) = (e.0@, e.1@);
    let pushed = edges.push(e);
    if n == 0 {
        edge_after_push(edges, e, x, y);
    } else {
        let z = choose|z: Seq<char>| path(pushed, x, z, (n - 1) as nat) && #[trigger] edge(pushed, z, y);
        paths_after_push(edges, e, x, z, (n - 1) as nat);
        edge_after_push(edges, e, z, y);
        if path(edges, x, z, (n - 1) as nat) {
            if edge(edges, z, y) {
                assert(path(edges, x, y, n));
            } else {
                assert(reaches(edges, x, a) || x == a) by {
                    if x != a {
                        assert(path(edges, x, z, (n - 1) as nat));
                    }
                }
            }
        } else {
            if edge(edges, z, y) {
                if z == b {
                    assert(path(edges, b, y, 0));
                } else {
                    let m = choose|m: nat| #[trigger] path(edges, b, z, m);
                    assert(path(edges, b, y, m + 1));
                }
            } else {
                if z != b {
                    assert(reaches(edges, b, z));
                    assert(z == a);
                }
            }
        }
    }
}

/// Adding a prerequisite that the cycle check accepts keeps the prerequisite graph
/// acyclic.
pub proof fn checked_prerequisites_keep_the_graph_acyclic(edges: Seq<(String, String)>, source: String, target: String)
    requires
        acyclic(edges),
        source@ != target@,
        !reaches(edges, target@, source@),
    ensures
        acyclic(edges.push((source, target))),
{
    let e = (source, target);
    assert forall|x: Seq<char>| !#[trigger] reaches(edges.push(e), x, x) by {
        if reaches(edges.push(e), x, x) {
            let n = choose|n: nat| #[trigger] path(edges.push(e), x, x, n);
            paths_after_push(edges, e, x, x, n);
            if path(edges, x, x, n) {
                assert(reaches(edges, x, x));
            } else if x == source@ {
                assert(reaches(edges, target@, source@));
            } else if x == target@ {
                assert(reaches(edges, target@, source@));
            } else {
                let m = choose|m: nat| #[trigger] path(edges, x, source@, m);
                reaches_transitive(edges, target@, x, source@, m);
            }
        }
    }
}

} // verus!
