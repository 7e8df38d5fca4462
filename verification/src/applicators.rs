//! How a force is applied: over every pair of vertices (repulsion) or over
//! every edge (attraction). The force function computes a displacement for
//! a pair; the pair's first vertex is moved by it and the second one by its
//! opposite.
use vstd::prelude::*;
use bevy_math::Vec2;
use crate::graph::ToIndexPair;
use crate::layout_types::{Displacements, PositionMut, ToVertexPair, VertexPair};
use crate::vec2::{add_assign_vec2, sub_assign_vec2, vec2_difference, vec2_sum};

verus! {

/// The pair of vertices at indices `i` and `j`.
pub open spec fn pair_at<'a, Vertex>(vertices: &'a [Vertex], i: int, j: int) -> VertexPair<'a, Vertex> {
    VertexPair { from: &vertices@[i], to: &vertices@[j] }
}

/// Some edge of `edges` has vertex `k` as an endpoint.
pub open spec fn touches<E: ToIndexPair>(edges: Seq<E>, k: int) -> bool {
    exists|e: int| 0 <= e < edges.len()
        && ((#[trigger] edges[e].index_pair()).0 == k || edges[e].index_pair().1 == k)
}

/// One application of `force` to the pair `from`, `to`: `mid` is `before`
/// with `force` added to the displacement of `from`, and `after` is `mid`
/// with `force` subtracted from the displacement of `to`.
pub open spec fn pushes_apart(
    before: Seq<Vec2>,
    mid: Seq<Vec2>,
    after: Seq<Vec2>,
    from: int,
    to: int,
    force: Vec2,
) -> bool {
    &&& 0 <= from < before.len()
    &&& 0 <= to < before.len()
    &&& mid == before.update(from, mid[from])
    &&& vec2_sum(before[from], force, mid[from])
    &&& after == mid.update(to, after[to])
    &&& vec2_difference(mid[to], force, after[to])
}

/// `forces[t]` is applied to `pairs[t]`, one pair after the other: it leads
/// from `trace[t]` through `mids[t]` to `trace[t + 1]`.
pub open spec fn applied_in_order(
    trace: Seq<Seq<Vec2>>,
    mids: Seq<Seq<Vec2>>,
    pairs: Seq<(int, int)>,
    forces: Seq<Vec2>,
) -> bool {
    &&& trace.len() == pairs.len() + 1
    &&& mids.len() == pairs.len()
    &&& forces.len() == pairs.len()
    &&& forall|t: int| 0 <= t < pairs.len()
        ==> pushes_apart(trace[t], #[trigger] mids[t], trace[t + 1], pairs[t].0, pairs[t].1, forces[t])
}

/// `forces[t]` is a value that `force_fn` returns for the vertices of
/// `pairs[t]`.
pub open spec fn computed_by<Vertex, Context, F: for<'a> Fn(VertexPair<'a, Vertex>, &'a Context) -> Vec2>(
    force_fn: F,
    vertices: &[Vertex],
    context: &Context,
    pairs: Seq<(int, int)>,
    forces: Seq<Vec2>,
) -> bool {
    forall|t: int| 0 <= t < pairs.len()
        ==> force_fn.ensures((pair_at(vertices, pairs[t].0, pairs[t].1), context), #[trigger] forces[t])
}

/// The displacements `before` become `after` when the forces that `force_fn`
/// computes for `pairs` are applied in order.
pub open spec fn forces_applied<Vertex, Context, F: for<'a> Fn(VertexPair<'a, Vertex>, &'a Context) -> Vec2>(
    force_fn: F,
    vertices: &[Vertex],
    context: &Context,
    pairs: Seq<(int, int)>,
    before: Seq<Vec2>,
    after: Seq<Vec2>,
) -> bool {
    exists|trace: Seq<Seq<Vec2>>, mids: Seq<Seq<Vec2>>, forces: Seq<Vec2>|
        #[trigger] applied_in_order(trace, mids, pairs, forces)
            && trace[0] == before
            && trace.last() == after
            && computed_by(force_fn, vertices, context, pairs, forces)
}

/// The pairs `(i, j)` with `i < j < n` for one `i`, by increasing `j`.
pub open spec fn pair_row(n: nat, i: nat) -> Seq<(int, int)> {
    Seq::new(if i + 1 < n { (n - i - 1) as nat } else { 0 }, |k: int| (i as int, i + 1 + k))
}

/// The pairs `(i, j)` with `i < j < n` and `i < rows`, by increasing `i`
/// and then `j`.
pub open spec fn pair_rows(n: nat, rows: nat) -> Seq<(int, int)>
    decreases rows,
{
    if rows == 0 {
        Seq::empty()
    } else {
        pair_rows(n, (rows - 1) as nat) + pair_row(n, (rows - 1) as nat)
    }
}

/// Every pair of distinct vertex indices below `n`, once, smaller index
/// first, by increasing first and then second index.
pub open spec fn repulsion_pairs(n: nat) -> Seq<(int, int)> {
    pair_rows(n, n)
}

/// `p` comes before `q` by first and then second index.
pub open spec fn lex_before(p: (int, int), q: (int, int)) -> bool {
    p.0 < q.0 || (p.0 == q.0 && p.1 < q.1)
}

proof fn lemma_pair_rows(n: nat, rows: nat)
    requires
        rows <= n,
    ensures
        forall|i: int, j: int| #[trigger] pair_rows(n, rows).contains((i, j)) <==> (0 <= i < rows && i < j < n),
        forall|a: int, b: int| 0 <= a < b < pair_rows(n, rows).len()
            ==> lex_before(#[trigger] pair_rows(n, rows)[a], #[trigger] pair_rows(n, rows)[b]),
    decreases rows,
{
    if rows > 0 {
        let r = (rows - 1) as nat;
        lemma_pair_rows(n, r);
        let prev = pair_rows(n, r);
        let row = pair_row(n, r);
        let all = pair_rows(n, rows);
        assert(all == prev + row);
        assert forall|i: int, j: int| #[trigger] all.contains((i, j)) <==> (0 <= i < rows && i < j < n) by {
            if all.contains((i, j)) {
                let k = choose|k: int| 0 <= k < all.len() && all[k] == (i, j);
                if k < prev.len() {
                    assert(prev.contains((i, j)));
                } else {
                    assert(row[k - prev.len()] == (i, j));
                }
            }
            if 0 <= i < rows && i < j < n {
                if i < r {
                    assert(prev.contains((i, j)));
                    let k = choose|k: int| 0 <= k < prev.len() && prev[k] == (i, j);
                    assert(all[k] == (i, j));
                } else {
                    let k = j - i - 1;
                    assert(row[k] == (i, j));
                    assert(all[prev.len() + k] == (i, j));
                }
            }
        }
        assert forall|a: int, b: int| 0 <= a < b < all.len() implies lex_before(#[trigger] all[a], #[trigger] all[b]) by {
            if b < prev.len() {
                assert(all[a] == prev[a]);
                assert(all[b] == prev[b]);
            } else if a < prev.len() {
                assert(all[a] == prev[a]);
                assert(prev.contains(prev[a]));
                assert(prev.contains((prev[a].0, prev[a].1)));
                assert(all[b] == row[b - prev.len()]);
            } else {
                assert(all[a] == row[a - prev.len()]);
                assert(all[b] == row[b - prev.len()]);
            }
        }
    }
}

/// Repulsion acts on every pair of distinct vertices exactly once: a pair
/// is listed exactly when its smaller index comes first and both are
/// vertices, and the list is strictly ordered by first and then second
/// index, so no pair comes twice.
pub proof fn lemma_repulsion_pairs_cover_each_pair_once(n: nat)
    ensures
        forall|i: int, j: int| #[trigger] repulsion_pairs(n).contains((i, j)) <==> 0 <= i < j < n,
        forall|a: int, b: int| 0 <= a < b < repulsion_pairs(n).len()
            ==> lex_before(#[trigger] repulsion_pairs(n)[a], #[trigger] repulsion_pairs(n)[b]),
        forall|a: int, b: int| 0 <= a < b < repulsion_pairs(n).len()
            ==> #[trigger] repulsion_pairs(n)[a] != #[trigger] repulsion_pairs(n)[b],
{
    lemma_pair_rows(n, n);
    assert forall|i: int, j: int| #[trigger] repulsion_pairs(n).contains((i, j)) <==> 0 <= i < j < n by {
        if 0 <= i < j < n {
            assert(i < n);
        }
    }
}

/// Applies `force_fn` to every pair of distinct vertices once: for
/// `from < to`, in increasing order of `from` and then of `to`, the
/// displacement that `force_fn` returns for the pair is added to the
/// displacement of `from` and subtracted from that of `to`. Edges play no
/// part.
pub fn linear_repulsion_applicator<Vertex, Edge, Context, F>(
    vertices: &[Vertex],
    edges: &[Edge],
    context: &Context,
    displacements: &mut Displacements,
    force_fn: F,
)
    where
        F: for<'a> Fn(VertexPair<'a, Vertex>, &'a Context) -> Vec2,
    requires
        vertices@.len() >= 2 ==> vertices@.len() <= old(displacements).0@.len(),
        forall|i: int, j: int|
            0 <= i < j < vertices@.len() ==> force_fn.requires((#[trigger] pair_at(vertices, i, j), context)),
    ensures
        forces_applied(
            force_fn,
            vertices,
            context,
            repulsion_pairs(vertices@.len()),
            old(displacements).0@,
            final(displacements).0@,
        ),
        final(displacements).0@.len() == old(displacements).0@.len(),
        forall|k: int|
            0 <= k < old(displacements).0@.len() && (vertices@.len() < 2 || k >= vertices@.len())
                ==> #[trigger] final(displacements).0@[k] == old(displacements).0@[k],
{
    let n = vertices.len();
    let ghost old_d = displacements.0@;
    let ghost mut trace: Seq<Seq<Vec2>> = seq![old_d];
    let ghost mut mids: Seq<Seq<Vec2>> = Seq::empty();
    let ghost mut forces: Seq<Vec2> = Seq::empty();
    let ghost mut done: Seq<(int, int)> = Seq::empty();
    let mut from_idx: usize = 0;
    while from_idx < n
        invariant
            from_idx <= n,
            n == vertices@.len(),
            n >= 2 ==> n <= old_d.len(),
            displacements.0@.len() == old_d.len(),
            forall|k: int| 0 <= k < old_d.len() && (n < 2 || k >= n)
                ==> #[trigger] displacements.0@[k] == old_d[k],
            forall|i: int, j: int|
                0 <= i < j < vertices@.len() ==> force_fn.requires((#[trigger] pair_at(vertices, i, j), context)),
            done == pair_rows(n as nat, from_idx as nat),
            applied_in_order(trace, mids, done, forces),
            trace[0] == old_d,
            trace.last() == displacements.0@,
            computed_by(force_fn, vertices, context, done, forces),
        decreases n - from_idx,
    {
        let mut to_idx: usize = from_idx + 1;
        let ghost row = pair_row(n as nat, from_idx as nat);
        let ghost rows = pair_rows(n as nat, from_idx as nat);
        while to_idx < n
            invariant
                from_idx < n,
                from_idx + 1 <= to_idx <= n,
                n == vertices@.len(),
                n >= 2 ==> n <= old_d.len(),
                displacements.0@.len() == old_d.len(),
                forall|k: int| 0 <= k < old_d.len() && (n < 2 || k >= n)
                    ==> #[trigger] displacements.0@[k] == old_d[k],
                forall|i: int, j: int|
                    0 <= i < j < vertices@.len() ==> force_fn.requires((#[trigger] pair_at(vertices, i, j), context)),
                row == pair_row(n as nat, from_idx as nat),
                rows == pair_rows(n as nat, from_idx as nat),
                done == rows + row.take(to_idx - from_idx - 1),
                applied_in_order(trace, mids, done, forces),
                trace[0] == old_d,
                trace.last() == displacements.0@,
                computed_by(force_fn, vertices, context, done, forces),
            decreases n - to_idx,
        {
            assert(force_fn.requires((pair_at(vertices, from_idx as int, to_idx as int), context)));
            let displacement = force_fn(vertices.to_vertex_pair(from_idx, to_idx), context);
            let ghost before = displacements.0@;
            add_assign_vec2(&mut displacements.0[from_idx], displacement);
            let ghost mid = displacements.0@;
            sub_assign_vec2(&mut displacements.0[to_idx], displacement);
            proof {
                let pair = (from_idx as int, to_idx as int);
                assert(row[to_idx - from_idx - 1] == pair);
                assert(row.take(to_idx - from_idx) == row.take(to_idx - from_idx - 1).push(pair));
                let old_done = done;
                let old_trace = trace;
                let old_mids = mids;
                let old_forces = forces;
                done = done.push(pair);
                trace = trace.push(displacements.0@);
                mids = mids.push(mid);
                forces = forces.push(displacement);
                assert(done == rows + row.take(to_idx + 1 - from_idx - 1));
                assert(pushes_apart(before, mid, displacements.0@, pair.0, pair.1, displacement));
                assert forall|t: int| 0 <= t < done.len() implies pushes_apart(
                    trace[t],
                    #[trigger] mids[t],
                    trace[t + 1],
                    done[t].0,
                    done[t].1,
                    forces[t],
                ) by {
                    if t < old_done.len() {
                        assert(mids[t] == old_mids[t]);
                        assert(trace[t] == old_trace[t]);
                        assert(trace[t + 1] == old_trace[t + 1]);
                        assert(done[t] == old_done[t]);
                        assert(forces[t] == old_forces[t]);
                    } else {
                        assert(trace[t] == old_trace.last());
                    }
                }
                assert forall|t: int| 0 <= t < done.len() implies force_fn.ensures(
                    (pair_at(vertices, done[t].0, done[t].1), context),
                    #[trigger] forces[t],
                ) by {
                    if t < old_done.len() {
                        assert(forces[t] == old_forces[t]);
                        assert(done[t] == old_done[t]);
                    }
                }
            }
            to_idx += 1;
        }
        proof {
            assert(row.take(to_idx - from_idx - 1) == row);
            assert(done == pair_rows(n as nat, (from_idx + 1) as nat));
        }
        from_idx += 1;
    }
    proof {
        assert(applied_in_order(trace, mids, repulsion_pairs(n as nat), forces));
    }
}

/// The pair of vertices that edge `e` joins.
pub open spec fn edge_pair<'a, Vertex, E: ToIndexPair>(vertices: &'a [Vertex], edges: Seq<E>, e: int) -> VertexPair<'a, Vertex> {
    pair_at(vertices, edges[e].index_pair().0 as int, edges[e].index_pair().1 as int)
}

/// Every edge of `edges` joins two indices below `n`.
pub open spec fn index_pairs_below<E: ToIndexPair>(edges: Seq<E>, n: nat) -> bool {
    forall|e: int| 0 <= e < edges.len()
        ==> (#[trigger] edges[e].index_pair()).0 < n && edges[e].index_pair().1 < n
}

/// Whether every edge of `edges` joins two indices below `n`: the condition
/// under which `linear_attraction_applicator` can index the vertices and the
/// displacements of a graph.
pub fn all_index_pairs_below<E: ToIndexPair>(edges: &[E], n: usize) -> (b: bool)
    ensures
        b == index_pairs_below(edges@, n as nat),
{
    let mut e: usize = 0;
    while e < edges.len()
        invariant
            e <= edges@.len(),
            forall|i: int| 0 <= i < e ==> (#[trigger] edges@[i].index_pair()).0 < n && edges@[i].index_pair().1 < n,
        decreases edges@.len() - e,
    {
        let (from_idx, to_idx) = edges[e].to_index_pair();
        if from_idx >= n || to_idx >= n {
            assert(!((edges@[e as int].index_pair()).0 < n && edges@[e as int].index_pair().1 < n));
            return false;
        }
        e += 1;
    }
    true
}

/// The index pairs of `edges`, in order.
pub open spec fn edge_pairs<E: ToIndexPair>(edges: Seq<E>) -> Seq<(int, int)> {
    Seq::new(edges.len(), |e: int| (edges[e].index_pair().0 as int, edges[e].index_pair().1 as int))
}

/// Applies `force_fn` along every edge, in the order of `edges`: the
/// displacement that `force_fn` returns for the edge's two vertices is added
/// to the displacement of its first vertex and subtracted from that of its
/// second one. Vertices that no edge touches keep their displacement.
pub fn linear_attraction_applicator<Vertex, Edge, Context, F>(
    vertices: &[Vertex],
    edges: &[Edge],
    context: &Context,
    displacements: &mut Displacements,
    force_fn: F,
)
    where
        Edge: ToIndexPair,
        F: for<'a> Fn(VertexPair<'a, Vertex>, &'a Context) -> Vec2,
    requires
        index_pairs_below(edges@, vertices@.len()),
        index_pairs_below(edges@, old(displacements).0@.len()),
        forall|e: int|
            0 <= e < edges@.len() ==> force_fn.requires((#[trigger] edge_pair(vertices, edges@, e), context)),
    ensures
        forces_applied(force_fn, vertices, context, edge_pairs(edges@), old(displacements).0@, final(displacements).0@),
        final(displacements).0@.len() == old(displacements).0@.len(),
        forall|k: int|
            0 <= k < old(displacements).0@.len() && !touches(edges@, k)
                ==> #[trigger] final(displacements).0@[k] == old(displacements).0@[k],
{
    let ghost old_d = displacements.0@;
    let ghost pairs = edge_pairs(edges@);
    let ghost mut trace: Seq<Seq<Vec2>> = seq![old_d];
    let ghost mut mids: Seq<Seq<Vec2>> = Seq::empty();
    let ghost mut forces: Seq<Vec2> = Seq::empty();
    let mut e: usize = 0;
    while e < edges.len()
        invariant
            e <= edges@.len(),
            index_pairs_below(edges@, vertices@.len()),
            index_pairs_below(edges@, old_d.len()),
            displacements.0@.len() == old_d.len(),
            forall|k: int| 0 <= k < old_d.len() && !touches(edges@, k)
                ==> #[trigger] displacements.0@[k] == old_d[k],
            forall|i: int|
                0 <= i < edges@.len() ==> force_fn.requires((#[trigger] edge_pair(vertices, edges@, i), context)),
            pairs == edge_pairs(edges@),
            applied_in_order(trace, mids, pairs.take(e as int), forces),
            trace[0] == old_d,
            trace.last() == displacements.0@,
            computed_by(force_fn, vertices, context, pairs.take(e as int), forces),
        decreases edges@.len() - e,
    {
        let (from_idx, to_idx) = edges[e].to_index_pair();
        assert(force_fn.requires((edge_pair(vertices, edges@, e as int), context)));
        let displacement = force_fn(vertices.to_vertex_pair(from_idx, to_idx), context);
        proof {
            assert(touches(edges@, from_idx as int));
            assert(touches(edges@, to_idx as int));
        }
        let ghost before = displacements.0@;
        add_assign_vec2(&mut displacements.0[from_idx], displacement);
        let ghost mid = displacements.0@;
        sub_assign_vec2(&mut displacements.0[to_idx], displacement);
        proof {
            let pair = (from_idx as int, to_idx as int);
            assert(pairs[e as int] == pair);
            let old_done = pairs.take(e as int);
            let done = pairs.take(e + 1);
            assert(done == old_done.push(pair));
            let old_trace = trace;
            let old_mids = mids;
            let old_forces = forces;
            trace = trace.push(displacements.0@);
            mids = mids.push(mid);
            forces = forces.push(displacement);
            assert(pushes_apart(before, mid, displacements.0@, pair.0, pair.1, displacement));
            assert forall|t: int| 0 <= t < done.len() implies pushes_apart(
                trace[t],
                #[trigger] mids[t],
                trace[t + 1],
                done[t].0,
                done[t].1,
                forces[t],
            ) by {
                if t < old_done.len() {
                    assert(mids[t] == old_mids[t]);
                    assert(trace[t] == old_trace[t]);
                    assert(trace[t + 1] == old_trace[t + 1]);
                    assert(done[t] == old_done[t]);
                    assert(forces[t] == old_forces[t]);
                } else {
                    assert(trace[t] == old_trace.last());
                }
            }
            assert forall|t: int| 0 <= t < done.len() implies force_fn.ensures(
                (pair_at(vertices, done[t].0, done[t].1), context),
                #[trigger] forces[t],
            ) by {
                if t < old_done.len() {
                    assert(forces[t] == old_forces[t]);
                    assert(done[t] == old_done[t]);
                }
            }
        }
        e += 1;
    }
    proof {
        assert(pairs.take(edges@.len() as int) == pairs);
    }
}

/// Moves every vertex by its displacement, in index order.
pub fn linear_position_update<Vertex, Context>(
    displacements: &Displacements,
    vertices: &mut [Vertex],
    context: &mut Context,
)
    where
        Vertex: PositionMut,
    requires
        old(vertices)@.len() <= displacements.0@.len(),
    ensures
        final(vertices)@.len() == old(vertices)@.len(),
        forall|i: int| 0 <= i < old(vertices)@.len() ==> vec2_sum(
            old(vertices)@[i].movable_position(),
            displacements.0@[i],
            #[trigger] final(vertices)@[i].movable_position(),
        ),
        *final(context) == *old(context),
{
    let n = vertices.len();
    let ghost old_v = vertices@;
    let mut idx: usize = 0;
    while idx < n
        invariant
            idx <= n,
            n == vertices@.len(),
            n == old_v.len(),
            n <= displacements.0@.len(),
            forall|k: int| 0 <= k < idx ==> vec2_sum(
                old_v[k].movable_position(),
                displacements.0@[k],
                #[trigger] vertices@[k].movable_position(),
            ),
            forall|k: int| idx <= k < n ==> #[trigger] vertices@[k] == old_v[k],
        decreases n - idx,
    {
        add_assign_vec2(vertices[idx].position_mut(), displacements.0[idx]);
        idx += 1;
    }
}

} // verus!
