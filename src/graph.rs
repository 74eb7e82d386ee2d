//! Directed graphs given as adjacency matrices: reachability and the search
//! for an edge that closes a cycle.

use vstd::prelude::*;

verus! {

/// Every row has one entry per node.
pub open spec fn square(m: Seq<Seq<bool>>) -> bool {
    forall|i: int| 0 <= i < m.len() ==> (#[trigger] m[i]).len() == m.len()
}

/// There is an edge from `u` to `v`.
pub open spec fn edge(m: Seq<Seq<bool>>, u: int, v: int) -> bool {
    0 <= u < m.len() && 0 <= v < m.len() && m[u][v]
}

/// `p` is a nonempty sequence of nodes, each with an edge to the next.
pub open spec fn is_walk(m: Seq<Seq<bool>>, p: Seq<int>) -> bool {
    &&& p.len() >= 1
    &&& forall|i: int| 0 <= i < p.len() ==> 0 <= #[trigger] p[i] < m.len()
    &&& forall|i: int| 0 <= i < p.len() - 1 ==> edge(m, #[trigger] p[i], p[i + 1])
}

/// Some walk leads from `a` to `b`.
pub open spec fn reachable(m: Seq<Seq<bool>>, a: int, b: int) -> bool {
    exists|p: Seq<int>| #[trigger] is_walk(m, p) && p[0] == a && p.last() == b
}

/// The edge from `u` to `v` closes a cycle: `u` is reachable from `v`.
pub open spec fn closes_cycle(m: Seq<Seq<bool>>, u: int, v: int) -> bool {
    edge(m, u, v) && reachable(m, v, u)
}

/// The graph has a cycle.
pub open spec fn has_cycle(m: Seq<Seq<bool>>) -> bool {
    exists|u: int, v: int| #[trigger] closes_cycle(m, u, v)
}

/// The rows of a matrix as sequences.
pub open spec fn rows(adj: Seq<Vec<bool>>) -> Seq<Seq<bool>> {
    adj.map_values(|r: Vec<bool>| r@)
}

/// A graph without a cycle has no walk of two or more nodes that returns
/// to where it started.
pub proof fn lemma_acyclic_walk(m: Seq<Seq<bool>>, p: Seq<int>)
    requires
        !has_cycle(m),
        is_walk(m, p),
        p.len() >= 2,
    ensures
        p[0] != p.last(),
{
    if p[0] == p.last() {
        let n = p.len();
        let u = p[n - 2];
        let v = p[n - 1];
        let q = p.subrange(0, n - 1);
        assert(edge(m, p[n - 2], p[n - 1]));
        assert forall|i: int| 0 <= i < q.len() - 1 implies edge(m, #[trigger] q[i], q[i + 1]) by {
            assert(q[i] == p[i] && q[i + 1] == p[i + 1]);
        }
        assert forall|i: int| 0 <= i < q.len() implies 0 <= #[trigger] q[i] < m.len() by {
            assert(q[i] == p[i]);
        }
        assert(is_walk(m, q) && q[0] == v && q.last() == u);
        assert(closes_cycle(m, u, v));
    }
}

/// The number of `false` entries.
pub open spec fn count_false(s: Seq<bool>) -> nat
    decreases s.len(),
{
    if s.len() == 0 {
        0
    } else {
        count_false(s.drop_last()) + if s.last() { 0nat } else { 1nat }
    }
}

proof fn lemma_count_false_set(s: Seq<bool>, i: int)
    requires
        0 <= i < s.len(),
        !s[i],
    ensures
        count_false(s.update(i, true)) + 1 == count_false(s),
    decreases s.len(),
{
    if i == s.len() - 1 {
        assert(s.update(i, true).drop_last() =~= s.drop_last());
    } else {
        lemma_count_false_set(s.drop_last(), i);
        assert(s.update(i, true).drop_last() =~= s.drop_last().update(i, true));
    }
}

/// A set of nodes closed under edges, holding `s`, holds every node
/// reachable from `s`.
proof fn lemma_closed_holds_reachable(m: Seq<Seq<bool>>, seen: Seq<bool>, s: int, p: Seq<int>)
    requires
        seen.len() == m.len(),
        0 <= s < m.len(),
        seen[s],
        forall|u: int, w: int| 0 <= u < m.len() && 0 <= w < m.len() && seen[u] && #[trigger] m[u][w] ==> seen[w],
        is_walk(m, p),
        p[0] == s,
    ensures
        seen[p.last()],
    decreases p.len(),
{
    if p.len() > 1 {
        let q = p.drop_last();
        assert forall|i: int| 0 <= i < q.len() - 1 implies edge(m, #[trigger] q[i], q[i + 1]) by {
            assert(q[i] == p[i] && q[i + 1] == p[i + 1]);
        }
        assert forall|i: int| 0 <= i < q.len() implies 0 <= #[trigger] q[i] < m.len() by {
            assert(q[i] == p[i]);
        }
        lemma_closed_holds_reachable(m, seen, s, q);
        let k = p.len() - 2;
        assert(edge(m, p[k], p[k + 1]));
        assert(m[p[k]][p[k + 1]]);
    }
}

/// The nodes reachable from `s`.
pub fn reach_from(adj: &Vec<Vec<bool>>, s: usize) -> (r: Vec<bool>)
    requires
        square(rows(adj@)),
        s < adj@.len(),
    ensures
        r@.len() == adj@.len(),
        forall|w: int| 0 <= w < adj@.len() ==> (r@[w] <==> reachable(rows(adj@), s as int, w)),
{
    let ghost m = rows(adj@);
    let n = adj.len();
    let mut seen: Vec<bool> = Vec::new();
    let mut k: usize = 0;
    while k < n
        invariant
            k <= n,
            seen@.len() == k,
            forall|w: int| 0 <= w < k ==> seen@[w] == (w == s as int),
        decreases n - k,
    {
        seen.push(k == s);
        k = k + 1;
    }
    proof {
        let p = seq![s as int];
        assert(is_walk(m, p));
    }
    let mut changed = true;
    while changed
        invariant
            n == adj@.len(),
            m == rows(adj@),
            square(m),
            s < n,
            seen@.len() == n,
            seen@[s as int],
            forall|w: int| 0 <= w < n && #[trigger] seen@[w] ==> reachable(m, s as int, w),
            !changed ==> forall|u: int, w: int| 0 <= u < n && 0 <= w < n && seen@[u] && #[trigger] m[u][w] ==> seen@[w],
        decreases count_false(seen@) + if changed { 1nat } else { 0nat },
    {
        let ghost start = seen@;
        changed = false;
        let mut u: usize = 0;
        while u < n
            invariant
                n == adj@.len(),
                m == rows(adj@),
                square(m),
                s < n,
                u <= n,
                seen@.len() == n,
                seen@[s as int],
                forall|w: int| 0 <= w < n && #[trigger] seen@[w] ==> reachable(m, s as int, w),
                !changed ==> seen@ == start,
                changed ==> count_false(seen@) < count_false(start),
                !changed ==> forall|x: int, w: int| 0 <= x < u && 0 <= w < n && seen@[x] && #[trigger] m[x][w] ==> seen@[w],
            decreases n - u,
        {
            if seen[u] {
                let mut w: usize = 0;
                while w < n
                    invariant
                        n == adj@.len(),
                        m == rows(adj@),
                        square(m),
                        s < n,
                        u < n,
                        w <= n,
                        seen@.len() == n,
                        seen@[s as int],
                        seen@[u as int],
                        forall|x: int| 0 <= x < n && #[trigger] seen@[x] ==> reachable(m, s as int, x),
                        !changed ==> seen@ == start,
                        changed ==> count_false(seen@) < count_false(start),
                        !changed ==> forall|x: int, y: int| 0 <= x < u && 0 <= y < n && seen@[x] && #[trigger] m[x][y] ==> seen@[y],
                        !changed ==> forall|y: int| 0 <= y < w && #[trigger] m[u as int][y] ==> seen@[y],
                    decreases n - w,
                {
                    assert(m[u as int] == adj@[u as int]@);
                    assert(m[u as int].len() == n);
                    if adj[u][w] && !seen[w] {
                        proof {
                            let p = choose|p: Seq<int>| #[trigger] is_walk(m, p) && p[0] == s as int && p.last() == u as int;
                            let q = p.push(w as int);
                            assert(q[q.len() - 2] == u as int);
                            assert forall|i: int| 0 <= i < q.len() - 1 implies edge(m, #[trigger] q[i], q[i + 1]) by {
                                if i < p.len() - 1 {
                                    assert(q[i] == p[i] && q[i + 1] == p[i + 1]);
                                }
                            }
                            assert forall|i: int| 0 <= i < q.len() implies 0 <= #[trigger] q[i] < m.len() by {
                                if i < p.len() {
                                    assert(q[i] == p[i]);
                                }
                            }
                            assert(is_walk(m, q));
                            assert(reachable(m, s as int, w as int));
                            lemma_count_false_set(seen@, w as int);
                        }
                        seen.set(w, true);
                        changed = true;
                    }
                    w = w + 1;
                }
            }
            u = u + 1;
        }
    }
    proof {
        assert forall|w: int| 0 <= w < n implies (seen@[w] <==> reachable(m, s as int, w)) by {
            if reachable(m, s as int, w) {
                let p = choose|p: Seq<int>| #[trigger] is_walk(m, p) && p[0] == s as int && p.last() == w;
                lemma_closed_holds_reachable(m, seen@, s as int, p);
            }
        }
    }
    seen
}

/// An edge that closes a cycle, if the graph has one.
pub fn find_cycle(adj: &Vec<Vec<bool>>) -> (r: Option<(usize, usize)>)
    requires
        square(rows(adj@)),
    ensures
        r is None <==> !has_cycle(rows(adj@)),
        r is Some ==> closes_cycle(rows(adj@), r->Some_0.0 as int, r->Some_0.1 as int),
{
    let ghost m = rows(adj@);
    let n = adj.len();
    let mut v: usize = 0;
    while v < n
        invariant
            n == adj@.len(),
            m == rows(adj@),
            square(m),
            v <= n,
            forall|x: int, y: int| 0 <= y < v ==> !#[trigger] closes_cycle(m, x, y),
        decreases n - v,
    {
        let seen = reach_from(adj, v);
        let mut u: usize = 0;
        while u < n
            invariant
                n == adj@.len(),
                m == rows(adj@),
                square(m),
                v < n,
                u <= n,
                seen@.len() == n,
                forall|w: int| 0 <= w < n ==> (seen@[w] <==> reachable(m, v as int, w)),
                forall|x: int, y: int| 0 <= y < v ==> !#[trigger] closes_cycle(m, x, y),
                forall|x: int| 0 <= x < u ==> !#[trigger] closes_cycle(m, x, v as int),
            decreases n - u,
        {
            assert(m[u as int] == adj@[u as int]@);
            if adj[u][v] && seen[u] {
                assert(closes_cycle(m, u as int, v as int));
                return Some((u, v));
            }
            u = u + 1;
        }
        v = v + 1;
    }
    assert forall|x: int, y: int| !#[trigger] closes_cycle(m, x, y) by {
        if 0 <= y < n && 0 <= x < n {
        }
    }
    None
}

} // verus!
