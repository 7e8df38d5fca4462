//! Random graphs for trying layouts out: optionally a random spanning tree,
//! then random extra edges until the requested number is reached, never
//! adding a loop or a second edge between the same two vertices.
use vstd::prelude::*;
use vstd::arithmetic::div_mod::{lemma_mod_self_0, lemma_small_mod};
use crate::graph::{Edge, Graph, edges_in_range, has_edge_between, is_simple};

verus! {

/// A walk along `edges`: consecutive vertices of `path` are joined by an edge.
pub open spec fn is_path(edges: Seq<Edge>, path: Seq<nat>) -> bool {
    &&& path.len() >= 1
    &&& forall|i: int, j: int|
        0 <= i && j == i + 1 && j < path.len() ==> has_edge_between(edges, #[trigger] path[i], #[trigger] path[j])
}

/// Vertex `v` can be reached from vertex 0 along `edges`.
pub open spec fn reaches(edges: Seq<Edge>, v: nat) -> bool {
    exists|path: Seq<nat>| is_path(edges, path) && path[0] == 0 && #[trigger] path.last() == v
}

/// Every vertex below `n` can be reached from vertex 0 along `edges`.
pub open spec fn connected(edges: Seq<Edge>, n: nat) -> bool {
    forall|v: nat| v < n ==> #[trigger] reaches(edges, v)
}

/// Adding an edge keeps every walk a walk.
proof fn lemma_path_survives_push(edges: Seq<Edge>, e: Edge, path: Seq<nat>)
    requires
        is_path(edges, path),
    ensures
        is_path(edges.push(e), path),
{
    assert forall|i: int, j: int| 0 <= i && j == i + 1 && j < path.len() implies has_edge_between(
        edges.push(e),
        #[trigger] path[i],
        #[trigger] path[j],
    ) by {
        assert(has_edge_between(edges, path[i], path[j]));
        let k = choose|k: int| 0 <= k < edges.len()
            && #[trigger] edges[k].same_undirected(Edge { from: path[i] as usize, to: path[j] as usize });
        assert(edges.push(e)[k] == edges[k]);
    }
}

/// Adding edges keeps a connected graph connected.
pub proof fn lemma_connected_survives_push(edges: Seq<Edge>, e: Edge, n: nat)
    requires
        connected(edges, n),
    ensures
        connected(edges.push(e), n),
{
    assert forall|v: nat| v < n implies #[trigger] reaches(edges.push(e), v) by {
        assert(reaches(edges, v));
        let path = choose|path: Seq<nat>| is_path(edges, path) && path[0] == 0 && #[trigger] path.last() == v;
        lemma_path_survives_push(edges, e, path);
    }
}

/// Vertex `v` is reached by the first `k` edges of a growing tree: it is the
/// root, vertex 0, or the head of one of those edges.
pub open spec fn reached_before(edges: Seq<Edge>, k: int, v: usize) -> bool {
    v == 0 || exists|m: int| #![trigger edges[m]] 0 <= m < k && edges[m].to == v
}

/// The edges grow a tree from vertex 0 in their order: each edge points from
/// a vertex that the edges before it have reached to one they have not.
pub open spec fn grows_tree(edges: Seq<Edge>) -> bool {
    forall|k: int| 0 <= k < edges.len() ==> {
        &&& reached_before(edges, k, (#[trigger] edges[k]).from)
        &&& !reached_before(edges, k, edges[k].to)
    }
}

/// A uniformly random index below `upper`.
///
/// Calls `rand::random_range(0..upper)`, which draws from the thread-local
/// generator and returns a value of the range; it panics on an empty range,
/// which `requires` rules out. Which value comes back is left open.
#[verifier::external_body]
fn random_below(upper: usize) -> (r: usize)
    requires
        upper > 0,
    ensures
        r < upper,
{
    rand::random_range(0..upper)
}

/// One step of growing a spanning tree: the vertex at `disconnected_idx` of
/// the unreached vertices leaves that list (the last one takes its place),
/// joins the reached vertices at their end, and is joined by a new edge from
/// the reached vertex at `connected_idx`.
pub fn attach_vertex(
    connected: &mut Vec<usize>,
    disconnected: &mut Vec<usize>,
    edges: &mut Vec<Edge>,
    disconnected_idx: usize,
    connected_idx: usize,
)
    requires
        disconnected_idx < old(disconnected)@.len(),
        connected_idx < old(connected)@.len(),
    ensures
        final(edges)@ == old(edges)@.push(
            Edge { from: old(connected)@[connected_idx as int], to: old(disconnected)@[disconnected_idx as int] },
        ),
        final(disconnected)@ == old(disconnected)@.update(disconnected_idx as int, old(disconnected)@.last()).drop_last(),
        final(connected)@ == old(connected)@.push(old(disconnected)@[disconnected_idx as int]),
{
    let new_vertex = disconnected.swap_remove(disconnected_idx);
    let existing_vertex = connected[connected_idx];
    edges.push(Edge { from: existing_vertex, to: new_vertex });
    connected.push(new_vertex);
}

/// A random spanning tree on `vertices` vertices: starting from vertex 0,
/// each step picks a random vertex not yet reached and joins it to a random
/// vertex already reached, the edge pointing from the reached vertex to the
/// new one.
pub fn spanning_tree(vertices: usize) -> (edges: Vec<Edge>)
    requires
        vertices > 1,
    ensures
        edges@.len() == vertices - 1,
        edges_in_range(edges@, vertices as nat),
        is_simple(edges@),
        connected(edges@, vertices as nat),
        grows_tree(edges@),
{
    let n = vertices;
    let mut graph_edges: Vec<Edge> = Vec::new();
    let mut connected_vertices: Vec<usize> = Vec::new();
    connected_vertices.push(0);
    let mut disconnected_vertices: Vec<usize> = Vec::new();
    let mut v: usize = 1;
    while v < n
        invariant
            1 <= v <= n,
            disconnected_vertices@.len() == v - 1,
            forall|i: int| 0 <= i < v - 1 ==> #[trigger] disconnected_vertices@[i] == i + 1,
        decreases n - v,
    {
        disconnected_vertices.push(v);
        v += 1;
    }
    assert(is_path(graph_edges@, seq![0nat]));
    assert forall|w: usize| w < n implies #[trigger] connected_vertices@.contains(w)
        || disconnected_vertices@.contains(w) by {
        if w == 0 {
            assert(connected_vertices@[0] == w);
        } else {
            assert(disconnected_vertices@[w - 1] == w);
        }
    }
    assert(seq![0nat].last() == 0);
    let ghost mut parents: Seq<int> = Seq::empty();
    while disconnected_vertices.len() > 0
        invariant
            n > 1,
            connected_vertices@.len() == graph_edges@.len() + 1,
            graph_edges@.len() + disconnected_vertices@.len() == n - 1,
            connected_vertices@[0] == 0,
            // the two lists split the vertices
            forall|w: usize| w < n ==> #[trigger] connected_vertices@.contains(w) || disconnected_vertices@.contains(w),
            forall|i: int| 0 <= i < connected_vertices@.len() ==> #[trigger] connected_vertices@[i] < n,
            forall|i: int| 0 <= i < disconnected_vertices@.len() ==> #[trigger] disconnected_vertices@[i] < n,
            forall|i: int, j: int| 0 <= i < connected_vertices@.len() && 0 <= j < disconnected_vertices@.len()
                ==> #[trigger] connected_vertices@[i] != #[trigger] disconnected_vertices@[j],
            forall|i: int, j: int| 0 <= i < j < connected_vertices@.len()
                ==> #[trigger] connected_vertices@[i] != #[trigger] connected_vertices@[j],
            forall|i: int, j: int| 0 <= i < j < disconnected_vertices@.len()
                ==> #[trigger] disconnected_vertices@[i] != #[trigger] disconnected_vertices@[j],
            // the k-th edge reaches the (k + 1)-th connected vertex from an earlier one
            forall|k: int| 0 <= k < graph_edges@.len() ==> (#[trigger] graph_edges@[k]).to == connected_vertices@[k + 1],
            parents.len() == graph_edges@.len(),
            forall|k: int| 0 <= k < graph_edges@.len() ==> 0 <= #[trigger] parents[k] <= k
                && graph_edges@[k].from == connected_vertices@[parents[k]],
            // every connected vertex is reached from vertex 0
            forall|i: int| 0 <= i < connected_vertices@.len() ==> reaches(graph_edges@, #[trigger] connected_vertices@[i] as nat),
        decreases disconnected_vertices@.len(),
    {
        let disconnected_idx = random_below(disconnected_vertices.len());
        let connected_idx = random_below(connected_vertices.len());
        let ghost old_conn = connected_vertices@;
        let ghost old_disc = disconnected_vertices@;
        let ghost old_edges = graph_edges@;
        attach_vertex(
            &mut connected_vertices,
            &mut disconnected_vertices,
            &mut graph_edges,
            disconnected_idx,
            connected_idx,
        );
        proof {
            let new_vertex = old_disc[disconnected_idx as int];
            let existing_vertex = old_conn[connected_idx as int];
            let edge = Edge { from: existing_vertex, to: new_vertex };
            // the split of the vertices is kept
            assert forall|w: usize| w < n implies #[trigger] connected_vertices@.contains(w)
                || disconnected_vertices@.contains(w) by {
                if old_conn.contains(w) {
                    let i = choose|i: int| 0 <= i < old_conn.len() && old_conn[i] == w;
                    assert(connected_vertices@[i] == w);
                } else {
                    assert(old_disc.contains(w));
                    let j = choose|j: int| 0 <= j < old_disc.len() && old_disc[j] == w;
                    if j == disconnected_idx {
                        assert(connected_vertices@[connected_vertices@.len() - 1] == w);
                    } else if j == old_disc.len() - 1 {
                        assert(disconnected_vertices@[disconnected_idx as int] == w);
                    } else {
                        assert(disconnected_vertices@[j] == w);
                    }
                }
            }
            assert forall|i: int, j: int| 0 <= i < connected_vertices@.len() && 0 <= j < disconnected_vertices@.len()
                implies #[trigger] connected_vertices@[i] != #[trigger] disconnected_vertices@[j] by {
                let jj = if j == disconnected_idx { old_disc.len() - 1 } else { j };
                assert(disconnected_vertices@[j] == old_disc[jj]);
                assert(jj != disconnected_idx);
                if i < old_conn.len() {
                    assert(connected_vertices@[i] == old_conn[i]);
                } else {
                    assert(connected_vertices@[i] == old_disc[disconnected_idx as int]);
                }
            }
            assert forall|i: int, j: int| 0 <= i < j < disconnected_vertices@.len()
                implies #[trigger] disconnected_vertices@[i] != #[trigger] disconnected_vertices@[j] by {
                let ii = if i == disconnected_idx { old_disc.len() - 1 } else { i };
                let jj = if j == disconnected_idx { old_disc.len() - 1 } else { j };
                assert(disconnected_vertices@[i] == old_disc[ii]);
                assert(disconnected_vertices@[j] == old_disc[jj]);
            }
            assert forall|i: int, j: int| 0 <= i < j < connected_vertices@.len()
                implies #[trigger] connected_vertices@[i] != #[trigger] connected_vertices@[j] by {
                if j == old_conn.len() {
                    assert(connected_vertices@[i] == old_conn[i]);
                    assert(old_disc[disconnected_idx as int] == new_vertex);
                } else {
                    assert(connected_vertices@[i] == old_conn[i]);
                    assert(connected_vertices@[j] == old_conn[j]);
                }
            }
            let old_parents = parents;
            parents = parents.push(connected_idx as int);
            assert forall|k: int| 0 <= k < graph_edges@.len() implies 0 <= #[trigger] parents[k] <= k
                && graph_edges@[k].from == connected_vertices@[parents[k]] by {
                if k < old_edges.len() {
                    assert(parents[k] == old_parents[k]);
                    assert(connected_vertices@[parents[k]] == old_conn[parents[k]]);
                    assert(graph_edges@[k] == old_edges[k]);
                }
            }
            // walks: old ones survive, the new vertex extends the walk to its parent
            assert forall|i: int| 0 <= i < connected_vertices@.len() implies reaches(graph_edges@, #[trigger] connected_vertices@[i] as nat) by {
                if i < old_conn.len() {
                    assert(connected_vertices@[i] == old_conn[i]);
                    let path = choose|path: Seq<nat>| is_path(old_edges, path) && path[0] == 0
                        && #[trigger] path.last() == old_conn[i] as nat;
                    lemma_path_survives_push(old_edges, edge, path);
                } else {
                    assert(old_conn[connected_idx as int] == existing_vertex);
                    let path = choose|path: Seq<nat>| is_path(old_edges, path) && path[0] == 0
                        && #[trigger] path.last() == old_conn[connected_idx as int] as nat;
                    lemma_path_survives_push(old_edges, edge, path);
                    let longer = path.push(new_vertex as nat);
                    assert(graph_edges@[old_edges.len() as int] == edge);
                    assert(edge.same_undirected(Edge { from: existing_vertex, to: new_vertex }));
                    assert(graph_edges@[old_edges.len() as int].same_undirected(
                        Edge { from: (existing_vertex as nat) as usize, to: (new_vertex as nat) as usize },
                    ));
                    assert(has_edge_between(graph_edges@, existing_vertex as nat, new_vertex as nat));
                    assert forall|a: int, b: int| 0 <= a && b == a + 1 && b < longer.len() implies
                        has_edge_between(graph_edges@, #[trigger] longer[a], #[trigger] longer[b]) by {
                        if b < path.len() {
                            assert(longer[a] == path[a]);
                            assert(longer[b] == path[b]);
                        } else {
                            assert(longer[a] == path.last());
                        }
                    }
                    assert(longer.last() == connected_vertices@[i] as nat);
                    assert(longer[0] == 0);
                    assert(is_path(graph_edges@, longer));
                }
            }
        }
    }
    proof {
        let edges = graph_edges@;
        let conn = connected_vertices@;
        assert forall|v: nat| v < n implies #[trigger] reaches(edges, v) by {
            assert(conn.contains(v as usize) || disconnected_vertices@.contains(v as usize));
            assert(conn.contains(v as usize));
            let i = choose|i: int| 0 <= i < conn.len() && conn[i] == v as usize;
            assert(reaches(edges, conn[i] as nat));
        }
        assert forall|k: int| 0 <= k < edges.len() implies (#[trigger] edges[k]).in_range(n as nat) by {
            assert(edges[k].to == conn[k + 1]);
            assert(parents[k] <= k);
        }
        assert forall|k: int| 0 <= k < edges.len() implies (#[trigger] edges[k]).from != edges[k].to by {
            assert(parents[k] <= k);
            assert(edges[k].to == conn[k + 1]);
        }
        assert forall|i: int, j: int| 0 <= i < j < edges.len() implies !(#[trigger] edges[i]).same_undirected(
            #[trigger] edges[j],
        ) by {
            assert(edges[i].to == conn[i + 1]);
            assert(edges[j].to == conn[j + 1]);
            assert(parents[i] <= i);
        }
        assert forall|k: int| 0 <= k < edges.len() implies {
            &&& reached_before(edges, k, (#[trigger] edges[k]).from)
            &&& !reached_before(edges, k, edges[k].to)
        } by {
            let p = parents[k];
            if p > 0 {
                assert(edges[p - 1].to == conn[p]);
                assert(edges[k].from == edges[p - 1].to);
            }
            assert(edges[k].to == conn[k + 1]);
            assert(conn[0] != conn[k + 1]);
            assert forall|m: int| 0 <= m < k implies edges[m].to != edges[k].to by {
                assert(edges[m].to == conn[m + 1]);
                assert(conn[m + 1] != conn[k + 1]);
            }
        }
    }
    graph_edges
}


/// The edge that an attempt to join `from` to `to` proposes: a loop is
/// turned into an edge to the next vertex, counted modulo `vertices`.
pub open spec fn proposed_edge(vertices: nat, from: nat, to: nat) -> Edge {
    if to == from {
        Edge { from: from as usize, to: ((to + 1) % vertices) as usize }
    } else {
        Edge { from: from as usize, to: to as usize }
    }
}

/// Some edge of `edges` joins the same two vertices as `e`.
pub open spec fn duplicates(edges: Seq<Edge>, e: Edge) -> bool {
    exists|i: int| 0 <= i < edges.len() && #[trigger] edges[i].same_undirected(e)
}

/// Tries to add an edge from `from` to `to` to a graph on `vertices`
/// vertices: a loop is redirected to the next vertex, and the edge is only
/// added when no edge joins the same two vertices yet. Returns whether it
/// was added. A simple graph stays simple, and a connected one connected.
pub fn try_add_edge(edges: &mut Vec<Edge>, vertices: usize, from: usize, to: usize) -> (added: bool)
    requires
        vertices > 1,
        from < vertices,
        to < vertices,
    ensures
        added == !duplicates(old(edges)@, proposed_edge(vertices as nat, from as nat, to as nat)),
        added ==> final(edges)@ == old(edges)@.push(proposed_edge(vertices as nat, from as nat, to as nat)),
        !added ==> final(edges)@ == old(edges)@,
        proposed_edge(vertices as nat, from as nat, to as nat).in_range(vertices as nat),
        proposed_edge(vertices as nat, from as nat, to as nat).from != proposed_edge(vertices as nat, from as nat, to as nat).to,
        edges_in_range(old(edges)@, vertices as nat) ==> edges_in_range(final(edges)@, vertices as nat),
        is_simple(old(edges)@) ==> is_simple(final(edges)@),
        connected(old(edges)@, vertices as nat) ==> connected(final(edges)@, vertices as nat),
{
    proof {
        if to + 1 < vertices {
            lemma_small_mod((to + 1) as nat, vertices as nat);
        } else {
            lemma_mod_self_0(vertices as int);
        }
    }
    let mut to_idx = to;
    if to_idx == from {
        to_idx = (to_idx + 1) % vertices;
    }
    let edge = Edge { from, to: to_idx };
    let ghost e = proposed_edge(vertices as nat, from as nat, to as nat);
    assert(edge == e);
    let mut i: usize = 0;
    let mut found = false;
    while i < edges.len()
        invariant
            i <= edges@.len(),
            found == exists|k: int| 0 <= k < i && #[trigger] edges@[k].same_undirected(e),
            edge == e,
        decreases edges@.len() - i,
    {
        let other = edges[i];
        if (other.from == edge.from && other.to == edge.to) || (other.from == edge.to && other.to == edge.from) {
            assert(edges@[i as int].same_undirected(e));
            found = true;
        }
        i += 1;
    }
    if found {
        false
    } else {
        let ghost old_edges = edges@;
        edges.push(edge);
        proof {
            if edges_in_range(old_edges, vertices as nat) {
                assert forall|k: int| 0 <= k < edges@.len() implies (#[trigger] edges@[k]).in_range(vertices as nat) by {
                    if k < old_edges.len() {
                        assert(edges@[k] == old_edges[k]);
                    }
                }
            }
            if is_simple(old_edges) {
                assert forall|k: int| 0 <= k < edges@.len() implies (#[trigger] edges@[k]).from != edges@[k].to by {
                    if k < old_edges.len() {
                        assert(edges@[k] == old_edges[k]);
                    }
                }
                assert forall|a: int, b: int| 0 <= a < b < edges@.len() implies !(#[trigger] edges@[a]).same_undirected(
                    #[trigger] edges@[b],
                ) by {
                    assert(edges@[a] == old_edges[a]);
                    if b < old_edges.len() {
                        assert(edges@[b] == old_edges[b]);
                    } else {
                        assert(!old_edges[a].same_undirected(e));
                    }
                }
            }
            if connected(old_edges, vertices as nat) {
                lemma_connected_survives_push(old_edges, e, vertices as nat);
            }
        }
        true
    }
}

/// Proposes one random edge between two of the graph's vertices and adds it
/// as `try_add_edge` does.
pub fn add_random_edge(graph: &mut Graph) -> (added: bool)
    requires
        old(graph).vertices > 1,
    ensures
        final(graph).vertices == old(graph).vertices,
        exists|from: nat, to: nat| from < old(graph).vertices && to < old(graph).vertices && {
            let e = #[trigger] proposed_edge(old(graph).vertices as nat, from, to);
            &&& added == !duplicates(old(graph).edges@, e)
            &&& added ==> final(graph).edges@ == old(graph).edges@.push(e)
        },
        !added ==> final(graph).edges@ == old(graph).edges@,
        old(graph).edges@.is_prefix_of(final(graph).edges@),
        edges_in_range(old(graph).edges@, old(graph).vertices as nat)
            ==> edges_in_range(final(graph).edges@, final(graph).vertices as nat),
        is_simple(old(graph).edges@) ==> is_simple(final(graph).edges@),
        connected(old(graph).edges@, old(graph).vertices as nat)
            ==> connected(final(graph).edges@, final(graph).vertices as nat),
{
    let from = random_below(graph.vertices);
    let to = random_below(graph.vertices);
    let added = try_add_edge(&mut graph.edges, graph.vertices, from, to);
    added
}

/// The graph that generation starts from: on `vertices` vertices, with a
/// random spanning tree when `connected` is asked for and there are at least
/// two vertices, and with no edges otherwise.
pub fn start_generated_graph(vertices: usize, connected_wanted: bool) -> (g: Graph)
    ensures
        g.vertices == vertices,
        edges_in_range(g.edges@, vertices as nat),
        is_simple(g.edges@),
        connected_wanted && vertices > 1 ==> g.edges@.len() == vertices - 1,
        connected_wanted && vertices > 1 ==> grows_tree(g.edges@),
        !(connected_wanted && vertices > 1) ==> g.edges@.len() == 0,
        connected_wanted ==> connected(g.edges@, vertices as nat),
{
    if connected_wanted && vertices > 1 {
        Graph { vertices, edges: spanning_tree(vertices) }
    } else {
        let g = Graph { vertices, edges: Vec::new() };
        proof {
            if connected_wanted {
                assert forall|v: nat| v < vertices implies #[trigger] reaches(g.edges@, v) by {
                    let path = seq![0nat];
                    assert(path.last() == 0);
                    assert(is_path(g.edges@, path));
                }
            }
        }
        g
    }
}

/// One round of adding random edges until the graph has `edges` of them:
/// returns `true`, leaving the graph as it is, when it already has that many
/// or has fewer than two vertices; otherwise makes one attempt with
/// `add_random_edge` and returns `false`.
pub fn generation_step(graph: &mut Graph, edges: usize) -> (done: bool)
    ensures
        done == (old(graph).edges@.len() >= edges || old(graph).vertices <= 1),
        done ==> final(graph).edges@ == old(graph).edges@,
        final(graph).vertices == old(graph).vertices,
        !done ==> exists|from: nat, to: nat| from < old(graph).vertices && to < old(graph).vertices && {
            let e = #[trigger] proposed_edge(old(graph).vertices as nat, from, to);
            if duplicates(old(graph).edges@, e) {
                final(graph).edges@ == old(graph).edges@
            } else {
                final(graph).edges@ == old(graph).edges@.push(e)
            }
        },
        old(graph).edges@.is_prefix_of(final(graph).edges@),
        edges_in_range(old(graph).edges@, old(graph).vertices as nat)
            ==> edges_in_range(final(graph).edges@, final(graph).vertices as nat),
        is_simple(old(graph).edges@) ==> is_simple(final(graph).edges@),
        connected(old(graph).edges@, old(graph).vertices as nat)
            ==> connected(final(graph).edges@, final(graph).vertices as nat),
{
    if graph.edges.len() < edges && graph.vertices > 1 {
        add_random_edge(graph);
        false
    } else {
        true
    }
}

/// What an attempt proposes: an edge from `from` to `to` when the two
/// differ; a drawn loop is turned into an edge to the next vertex, and the
/// last vertex is followed by vertex 0. Either way the edge joins two
/// different vertices of the graph.
pub proof fn lemma_proposed_edge(n: usize, from: usize, to: usize)
    requires
        n > 1,
        from < n,
        to < n,
    ensures
        ({
            let e = proposed_edge(n as nat, from as nat, to as nat);
            &&& from != to ==> e.from == from && e.to == to
            &&& from == to && to + 1 < n ==> e.from == from && e.to == to + 1
            &&& from == to && to + 1 == n ==> e.from == from && e.to == 0
            &&& e.from != e.to
            &&& e.from < n && e.to < n
        }),
{
    if to + 1 < n {
        lemma_small_mod((to + 1) as nat, n as nat);
    } else {
        lemma_mod_self_0(n as int);
    }
}

/// An edge counts as already there exactly when some edge of the list joins
/// the same two vertices, in the same or in the opposite direction.
pub proof fn lemma_duplicates(edges: Seq<Edge>, e: Edge)
    ensures
        duplicates(edges, e) <==> exists|i: int| 0 <= i < edges.len() && ((#[trigger] edges[i]).from == e.from
            && edges[i].to == e.to || edges[i].from == e.to && edges[i].to == e.from),
{
    if duplicates(edges, e) {
        let i = choose|i: int| 0 <= i < edges.len() && #[trigger] edges[i].same_undirected(e);
        assert(edges[i].from == e.from && edges[i].to == e.to || edges[i].from == e.to && edges[i].to == e.from);
    }
    if exists|i: int| 0 <= i < edges.len() && ((#[trigger] edges[i]).from == e.from
        && edges[i].to == e.to || edges[i].from == e.to && edges[i].to == e.from) {
        let i = choose|i: int| 0 <= i < edges.len() && ((#[trigger] edges[i]).from == e.from
            && edges[i].to == e.to || edges[i].from == e.to && edges[i].to == e.from);
        assert(edges[i].same_undirected(e));
    }
}

/// In a connected graph with at least two vertices every vertex lies on
/// some edge: no vertex is left on its own.
pub proof fn lemma_connected_touches_every_vertex(edges: Seq<Edge>, n: usize, v: usize)
    requires
        connected(edges, n as nat),
        n > 1,
        v < n,
    ensures
        exists|i: int| 0 <= i < edges.len() && ((#[trigger] edges[i]).from == v || edges[i].to == v),
{
    // the walk from 0 to `w` (not 0) ends and, read backwards, starts with an edge
    let w: nat = if v == 0 { 1 } else { v as nat };
    assert(reaches(edges, w));
    let path = choose|path: Seq<nat>| is_path(edges, path) && path[0] == 0 && #[trigger] path.last() == w;
    assert(path.len() >= 2) by {
        if path.len() == 1 {
            assert(path.last() == path[0]);
        }
    }
    let a: int = if v == 0 { 0 } else { path.len() - 2 };
    assert(has_edge_between(edges, path[a], path[a + 1]));
    let i = choose|i: int| 0 <= i < edges.len()
        && #[trigger] edges[i].same_undirected(Edge { from: path[a] as usize, to: path[a + 1] as usize });
    if v == 0 {
        assert(path[a] == 0);
    } else {
        assert(path[a + 1] == path.last());
    }
    assert(edges[i].from == v || edges[i].to == v);
}

} // verus!
