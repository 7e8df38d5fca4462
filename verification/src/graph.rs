//! The graph that layouts are loaded from: a number of vertices and a list of
//! edges between vertex indices.
use vstd::prelude::*;

verus! {

/// A directed edge between two vertex indices.
#[derive(Clone, Copy)]
pub struct Edge {
    pub from: usize,
    pub to: usize,
}

/// A graph with vertices `0..vertices` and a list of edges.
pub struct Graph {
    pub vertices: usize,
    pub edges: Vec<Edge>,
}

impl Edge {
    /// Whether both endpoints are vertices of a graph with `n` vertices.
    pub open spec fn in_range(self, n: nat) -> bool {
        self.from < n && self.to < n
    }

    /// Whether `self` and `other` join the same two vertices, in either
    /// direction.
    pub open spec fn same_undirected(self, other: Edge) -> bool {
        (self.from == other.from && self.to == other.to)
            || (self.from == other.to && self.to == other.from)
    }
}

impl Default for Graph {
    /// The empty graph: no vertices, no edges.
    fn default() -> (g: Self)
        ensures
            g.vertices == 0,
            g.edges@.len() == 0,
    {
        Graph { vertices: 0, edges: Vec::new() }
    }
}

/// Every edge of `edges` joins two of the `n` vertices.
pub open spec fn edges_in_range(edges: Seq<Edge>, n: nat) -> bool {
    forall|i: int| 0 <= i < edges.len() ==> (#[trigger] edges[i]).in_range(n)
}

/// No edge is a loop and no two edges join the same pair of vertices.
pub open spec fn is_simple(edges: Seq<Edge>) -> bool {
    &&& forall|i: int| 0 <= i < edges.len() ==> (#[trigger] edges[i]).from != edges[i].to
    &&& forall|i: int, j: int|
        0 <= i < j < edges.len() ==> !(#[trigger] edges[i]).same_undirected(#[trigger] edges[j])
}

/// Some edge joins `a` and `b`, in either direction.
pub open spec fn has_edge_between(edges: Seq<Edge>, a: nat, b: nat) -> bool {
    exists|i: int|
        0 <= i < edges.len() && #[trigger] edges[i].same_undirected(Edge { from: a as usize, to: b as usize })
}

/// Pairs of vertex indices that an edge can be read as.
pub trait ToIndexPair {
    /// The pair of vertex indices that `self` stands for.
    spec fn index_pair(&self) -> (usize, usize);

    fn to_index_pair(&self) -> (r: (usize, usize))
        ensures
            r == self.index_pair(),
    ;
}

impl ToIndexPair for (usize, usize) {
    open spec fn index_pair(&self) -> (usize, usize) {
        *self
    }

    fn to_index_pair(&self) -> (r: (usize, usize)) {
        *self
    }
}

impl ToIndexPair for Edge {
    open spec fn index_pair(&self) -> (usize, usize) {
        (self.from, self.to)
    }

    fn to_index_pair(&self) -> (r: (usize, usize)) {
        (self.from, self.to)
    }
}

} // verus!
