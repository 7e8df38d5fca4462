//! The types shared by layouts: graphs before and after specialization,
//! displacement buffers, vertex pairs and the type-state markers.
use vstd::prelude::*;
use vstd::std_specs::convert::FromSpecImpl;
use bevy_math::Vec2;
use crate::graph::{Edge, Graph};
use crate::vec2::{add_assign_vec2, int_vec2, vec2_from_ints, vec2_sum};

verus! {

/// The raw graph handed to a layout: vertex positions and edges given as
/// pairs of vertex indices.
pub struct BaseGraph {
    pub vertices: Vec<Vec2>,
    pub edges: Vec<(usize, usize)>,
}

impl BaseGraph {
    /// A small path graph on three vertices placed at (0, 0), (1, 1) and
    /// (2, 2), with edges 0-1 and 1-2.
    pub fn mock() -> (g: Self)
        ensures
            g.vertices@ == seq![int_vec2(0, 0), int_vec2(1, 1), int_vec2(2, 2)],
            g.edges@ == seq![(0usize, 1usize), (1usize, 2usize)],
    {
        let mut vertices: Vec<Vec2> = Vec::new();
        vertices.push(vec2_from_ints(0, 0));
        vertices.push(vec2_from_ints(1, 1));
        vertices.push(vec2_from_ints(2, 2));
        let mut edges: Vec<(usize, usize)> = Vec::new();
        edges.push((0, 1));
        edges.push((1, 2));
        BaseGraph { vertices, edges }
    }
}

impl Default for BaseGraph {
    /// A graph without vertices or edges.
    fn default() -> (g: Self)
        ensures
            g.vertices@.len() == 0,
            g.edges@.len() == 0,
    {
        BaseGraph { vertices: Vec::new(), edges: Vec::new() }
    }
}

/// The graph a layout works on, after its vertices and edges have been
/// turned into the layout's own types.
#[derive(Clone)]
pub struct SpecializedGraph<Vertex, Edge> {
    pub vertices: Vec<Vertex>,
    pub edges: Vec<Edge>,
}

impl<Vertex, Edge> Default for SpecializedGraph<Vertex, Edge> {
    /// A graph without vertices or edges.
    fn default() -> (g: Self)
        ensures
            g.vertices@.len() == 0,
            g.edges@.len() == 0,
    {
        SpecializedGraph { vertices: Vec::new(), edges: Vec::new() }
    }
}

impl<'a> From<&'a BaseGraph> for SpecializedGraph<Vec2, (usize, usize)> {
    /// The specialization of a base graph that keeps its positions and edges
    /// as they are.
    fn from(value: &'a BaseGraph) -> (g: Self)
        ensures
            g.vertices@ == value.vertices@,
            g.edges@ == value.edges@,
    {
        let mut vertices: Vec<Vec2> = Vec::new();
        let mut i: usize = 0;
        while i < value.vertices.len()
            invariant
                i <= value.vertices@.len(),
                vertices@ == value.vertices@.subrange(0, i as int),
            decreases value.vertices@.len() - i,
        {
            vertices.push(value.vertices[i]);
            i += 1;
        }
        let mut edges: Vec<(usize, usize)> = Vec::new();
        let mut j: usize = 0;
        while j < value.edges.len()
            invariant
                j <= value.edges@.len(),
                edges@ == value.edges@.subrange(0, j as int),
            decreases value.edges@.len() - j,
        {
            edges.push(value.edges[j]);
            j += 1;
        }
        assert(vertices@ == value.vertices@);
        assert(edges@ == value.edges@);
        SpecializedGraph { vertices, edges }
    }
}

impl<'a> FromSpecImpl<&'a BaseGraph> for SpecializedGraph<Vec2, (usize, usize)> {
    /// A `Vec` is known by its view alone, so the conversion is described by
    /// the `ensures` of `from`: the same positions and edges.
    open spec fn obeys_from_spec() -> bool {
        false
    }

    closed spec fn from_spec(v: &'a BaseGraph) -> Self {
        choose|g: Self| g.vertices@ == v.vertices@ && g.edges@ == v.edges@
    }
}

/// The displacement that the forces of one iteration give each vertex.
pub struct Displacements(pub Vec<Vec2>);

impl Displacements {
    /// `len` zero displacements.
    pub fn fill_zero_sized(len: usize) -> (d: Self)
        ensures
            d.0@.len() == len,
            forall|i: int| 0 <= i < len ==> #[trigger] d.0@[i] == int_vec2(0, 0),
    {
        let zero = vec2_from_ints(0, 0);
        let mut v: Vec<Vec2> = Vec::new();
        let mut i: usize = 0;
        while i < len
            invariant
                i <= len,
                v@.len() == i,
                zero == int_vec2(0, 0),
                forall|k: int| 0 <= k < i ==> #[trigger] v@[k] == int_vec2(0, 0),
            decreases len - i,
        {
            v.push(zero);
            i += 1;
        }
        Displacements(v)
    }
}

/// The two vertices that a force acts between: it pushes `from`, and `to`
/// in the opposite direction.
pub struct VertexPair<'a, Vertex> {
    pub from: &'a Vertex,
    pub to: &'a Vertex,
}

/// Vertex collections that a pair of vertices can be picked from by index.
pub trait ToVertexPair<'a, Vertex> {
    /// How many vertices can be picked.
    spec fn vertex_count(&self) -> nat;

    /// The vertex at index `i`.
    spec fn vertex_at(&self, i: int) -> Vertex;

    fn to_vertex_pair(&'a self, from: usize, to: usize) -> (p: VertexPair<'a, Vertex>)
        requires
            from < self.vertex_count(),
            to < self.vertex_count(),
        ensures
            *p.from == self.vertex_at(from as int),
            *p.to == self.vertex_at(to as int),
    ;
}

impl<'a, Vertex> ToVertexPair<'a, Vertex> for &[Vertex] {
    open spec fn vertex_count(&self) -> nat {
        self@.len()
    }

    open spec fn vertex_at(&self, i: int) -> Vertex {
        self@[i]
    }

    fn to_vertex_pair(&'a self, from: usize, to: usize) -> (p: VertexPair<'a, Vertex>) {
        VertexPair { from: &self[from], to: &self[to] }
    }
}

/// Vertex types that carry a position.
pub trait Position {
    /// The position of the vertex.
    spec fn spec_position(&self) -> Vec2;

    fn position(&self) -> (p: Vec2)
        ensures
            p == self.spec_position(),
    ;
}

impl Position for Vec2 {
    open spec fn spec_position(&self) -> Vec2 {
        *self
    }

    fn position(&self) -> (p: Vec2) {
        *self
    }
}

/// Vertex types whose position can be changed in place.
pub trait PositionMut {
    /// The position that `position_mut` lends out.
    spec fn movable_position(&self) -> Vec2;

    /// Lends out the position: it starts as the vertex's position, and what
    /// is left in it becomes the vertex's position.
    fn position_mut(&mut self) -> (r: &mut Vec2)
        ensures
            *r == old(self).movable_position(),
            final(self).movable_position() == *final(r),
    ;
}

impl PositionMut for Vec2 {
    open spec fn movable_position(&self) -> Vec2 {
        *self
    }

    fn position_mut(&mut self) -> (r: &mut Vec2) {
        self
    }
}

/// Vertex types that can be seen as a position.
pub trait AsVec2 {
    /// The position of the vertex.
    spec fn spec_vec2(&self) -> Vec2;

    fn as_ref_vec2(&self) -> (r: &Vec2)
        ensures
            *r == self.spec_vec2(),
    ;

    fn as_copy_vec2(&self) -> (r: Vec2)
        ensures
            r == self.spec_vec2(),
    ;
}

impl AsVec2 for Vec2 {
    open spec fn spec_vec2(&self) -> Vec2 {
        *self
    }

    fn as_ref_vec2(&self) -> (r: &Vec2) {
        self
    }

    fn as_copy_vec2(&self) -> (r: Vec2) {
        *self
    }
}

/// Edge types that can be seen as an edge of a `Graph`.
pub trait AsEdge {
    /// The edge that `self` stands for.
    spec fn spec_edge(&self) -> Edge;

    fn as_edge(&self) -> (e: Edge)
        ensures
            e == self.spec_edge(),
    ;
}

impl AsEdge for Edge {
    open spec fn spec_edge(&self) -> Edge {
        *self
    }

    fn as_edge(&self) -> (e: Edge) {
        *self
    }
}

/// A force-directed layout algorithm: it is loaded with a graph, iterates,
/// and reports where the vertices are and which edges join them.
pub trait LayoutAlgorithm {
    fn load_graph(&mut self, graph: &Graph);

    fn iterate(&mut self);

    fn get_positions(&self) -> Vec<Vec2>;

    fn get_edges(&self) -> Vec<Edge>;
}

/// A layout algorithm that can also iterate step by step: `dbg_iterate`
/// iterates once and returns the displacements that each force contributed,
/// one list per force.
pub trait DebugLayoutAlgorithm: LayoutAlgorithm {
    fn dbg_iterate(&mut self) -> Vec<Vec<Vec2>>;
}

/// The positions of `vertices`, in order.
pub fn positions_of<Vertex: AsVec2>(vertices: &[Vertex]) -> (positions: Vec<Vec2>)
    ensures
        positions@.len() == vertices@.len(),
        forall|i: int| 0 <= i < vertices@.len() ==> #[trigger] positions@[i] == vertices@[i].spec_vec2(),
{
    let mut positions: Vec<Vec2> = Vec::new();
    let mut i: usize = 0;
    while i < vertices.len()
        invariant
            i <= vertices@.len(),
            positions@.len() == i,
            forall|k: int| 0 <= k < i ==> #[trigger] positions@[k] == vertices@[k].spec_vec2(),
        decreases vertices@.len() - i,
    {
        positions.push(vertices[i].as_copy_vec2());
        i += 1;
    }
    positions
}

/// The edges of `edges` as edges of a `Graph`, in order.
pub fn edges_of<E: AsEdge>(edges: &[E]) -> (result: Vec<Edge>)
    ensures
        result@.len() == edges@.len(),
        forall|i: int| 0 <= i < edges@.len() ==> #[trigger] result@[i] == edges@[i].spec_edge(),
{
    let mut result: Vec<Edge> = Vec::new();
    let mut i: usize = 0;
    while i < edges.len()
        invariant
            i <= edges@.len(),
            result@.len() == i,
            forall|k: int| 0 <= k < i ==> #[trigger] result@[k] == edges@[k].spec_edge(),
        decreases edges@.len() - i,
    {
        result.push(edges[i].as_edge());
        i += 1;
    }
    result
}

/// Writes the position of every vertex into `positions` at the same index;
/// the entries after the last vertex keep their value.
pub fn write_positions<Vertex: AsVec2>(vertices: &[Vertex], positions: &mut Vec<Vec2>)
    requires
        vertices@.len() <= old(positions)@.len(),
    ensures
        final(positions)@.len() == old(positions)@.len(),
        forall|i: int| 0 <= i < vertices@.len() ==> #[trigger] final(positions)@[i] == vertices@[i].spec_vec2(),
        forall|i: int| vertices@.len() <= i < old(positions)@.len() ==> #[trigger] final(positions)@[i] == old(positions)@[i],
{
    let ghost old_positions = positions@;
    let mut idx: usize = 0;
    while idx < vertices.len()
        invariant
            idx <= vertices@.len(),
            vertices@.len() <= positions@.len(),
            positions@.len() == old_positions.len(),
            forall|k: int| 0 <= k < idx ==> #[trigger] positions@[k] == vertices@[k].spec_vec2(),
            forall|k: int| idx <= k < old_positions.len() ==> #[trigger] positions@[k] == old_positions[k],
        decreases vertices@.len() - idx,
    {
        positions.set(idx, *vertices[idx].as_ref_vec2());
        idx += 1;
    }
}

impl Displacements {
    /// Adds `part` to these displacements entry by entry, as the debug
    /// iteration adds up the contributions of the single forces. Entries
    /// past the end of `part` keep their value.
    pub fn accumulate(&mut self, part: &Displacements)
        requires
            part.0@.len() <= old(self).0@.len(),
        ensures
            final(self).0@.len() == old(self).0@.len(),
            forall|i: int| 0 <= i < part.0@.len() ==> vec2_sum(old(self).0@[i], part.0@[i], #[trigger] final(self).0@[i]),
            forall|i: int| part.0@.len() <= i < old(self).0@.len() ==> #[trigger] final(self).0@[i] == old(self).0@[i],
    {
        let ghost old_d = self.0@;
        let mut idx: usize = 0;
        while idx < part.0.len()
            invariant
                idx <= part.0@.len(),
                part.0@.len() <= self.0@.len(),
                self.0@.len() == old_d.len(),
                forall|k: int| 0 <= k < idx ==> vec2_sum(old_d[k], part.0@[k], #[trigger] self.0@[k]),
                forall|k: int| idx <= k < old_d.len() ==> #[trigger] self.0@[k] == old_d[k],
            decreases part.0@.len() - idx,
        {
            add_assign_vec2(&mut self.0[idx], part.0[idx]);
            idx += 1;
        }
    }
}

/// `chain` adds up `parts` entry by entry from zero: it starts with `n`
/// zero displacements, and each further row adds one part to the row before
/// it. Entries past the end of a part keep their value.
pub open spec fn sums_parts(parts: Seq<Seq<Vec2>>, n: nat, chain: Seq<Seq<Vec2>>) -> bool {
    &&& chain.len() == parts.len() + 1
    &&& forall|j: int| 0 <= j < chain.len() ==> (#[trigger] chain[j]).len() == n
    &&& forall|i: int| 0 <= i < n ==> #[trigger] chain[0][i] == int_vec2(0, 0)
    &&& forall|j: int, i: int| 0 <= j < parts.len() && 0 <= i < n ==> if i < parts[j].len() {
        vec2_sum(chain[j][i], parts[j][i], #[trigger] chain[j + 1][i])
    } else {
        chain[j + 1][i] == chain[j][i]
    }
}

/// `total` is the sum of `parts`, entry by entry, starting from `n` zero
/// displacements and adding the parts in their order.
pub open spec fn is_sum_of_parts(parts: Seq<Seq<Vec2>>, n: nat, total: Seq<Vec2>) -> bool {
    exists|chain: Seq<Seq<Vec2>>| #[trigger] sums_parts(parts, n, chain) && chain.last() == total
}

/// A sum of parts has one entry per vertex; with no parts every entry is
/// zero, and with a single part each entry is zero plus that part's entry
/// (zero where the part is too short).
pub proof fn lemma_sum_of_few_parts(parts: Seq<Seq<Vec2>>, n: nat, total: Seq<Vec2>)
    requires
        is_sum_of_parts(parts, n, total),
    ensures
        total.len() == n,
        parts.len() == 0 ==> forall|i: int| 0 <= i < n ==> #[trigger] total[i] == int_vec2(0, 0),
        parts.len() == 1 ==> forall|i: int| 0 <= i < n ==> if i < parts[0].len() {
            vec2_sum(int_vec2(0, 0), parts[0][i], #[trigger] total[i])
        } else {
            total[i] == int_vec2(0, 0)
        },
{
    let chain = choose|chain: Seq<Seq<Vec2>>| #[trigger] sums_parts(parts, n, chain) && chain.last() == total;
    assert(chain[chain.len() - 1].len() == n);
    if parts.len() == 1 {
        assert forall|i: int| 0 <= i < n implies if i < parts[0].len() {
            vec2_sum(int_vec2(0, 0), parts[0][i], #[trigger] total[i])
        } else {
            total[i] == int_vec2(0, 0)
        } by {
            assert(chain[0int][i] == int_vec2(0, 0));
            assert(chain[1int] == total);
            let j: int = 0;
            assert(if i < parts[j].len() {
                vec2_sum(chain[j][i], parts[j][i], chain[j + 1][i])
            } else {
                chain[j + 1][i] == chain[j][i]
            });
        }
    }
    if parts.len() == 0 {
        assert forall|i: int| 0 <= i < n implies #[trigger] total[i] == int_vec2(0, 0) by {
            assert(chain[0] == total);
            assert(chain[0][i] == int_vec2(0, 0));
        }
    }
}

/// The displacements of one debug iteration: `len` zero displacements with
/// the contribution of each force added in turn, entry by entry.
pub fn sum_from_zero(parts: &Vec<Vec<Vec2>>, len: usize) -> (total: Displacements)
    requires
        forall|j: int| 0 <= j < parts@.len() ==> (#[trigger] parts@[j])@.len() <= len,
    ensures
        total.0@.len() == len,
        is_sum_of_parts(parts@.map_values(|p: Vec<Vec2>| p@), len as nat, total.0@),
{
    let ghost pv = parts@.map_values(|p: Vec<Vec2>| p@);
    let mut total = Displacements::fill_zero_sized(len);
    let ghost mut chain: Seq<Seq<Vec2>> = seq![total.0@];
    let mut j: usize = 0;
    while j < parts.len()
        invariant
            j <= parts@.len(),
            pv == parts@.map_values(|p: Vec<Vec2>| p@),
            forall|k: int| 0 <= k < parts@.len() ==> (#[trigger] parts@[k])@.len() <= len,
            total.0@.len() == len,
            sums_parts(pv.take(j as int), len as nat, chain),
            chain.last() == total.0@,
        decreases parts@.len() - j,
    {
        let part = &parts[j];
        let ghost row = total.0@;
        let mut i: usize = 0;
        while i < part.len()
            invariant
                i <= part@.len(),
                part@.len() <= len,
                total.0@.len() == len,
                forall|k: int| 0 <= k < i ==> vec2_sum(row[k], part@[k], #[trigger] total.0@[k]),
                forall|k: int| i <= k < len ==> #[trigger] total.0@[k] == row[k],
            decreases part@.len() - i,
        {
            add_assign_vec2(&mut total.0[i], part[i]);
            i += 1;
        }
        proof {
            let old_chain = chain;
            chain = chain.push(total.0@);
            let pj = pv.take(j + 1);
            assert(pv[j as int] == part@);
            assert forall|a: int, b: int| 0 <= a < pj.len() && 0 <= b < len implies if b < pj[a].len() {
                vec2_sum(chain[a][b], pj[a][b], #[trigger] chain[a + 1][b])
            } else {
                chain[a + 1][b] == chain[a][b]
            } by {
                if a < j {
                    assert(pj[a] == pv.take(j as int)[a]);
                    assert(chain[a] == old_chain[a]);
                    assert(chain[a + 1] == old_chain[a + 1]);
                } else {
                    assert(pj[a] == part@);
                    assert(chain[a] == row);
                    assert(chain[a + 1] == total.0@);
                }
            }
            assert forall|a: int| 0 <= a < chain.len() implies (#[trigger] chain[a]).len() == len by {
                if a < old_chain.len() {
                    assert(chain[a] == old_chain[a]);
                }
            }
            assert(chain[0] == old_chain[0]);
        }
        j += 1;
    }
    proof {
        assert(pv.take(parts@.len() as int) == pv);
        assert(sums_parts(pv, len as nat, chain));
    }
    total
}

/// A builder that has no graph loading function yet.
pub struct NoneGraphLoadingFn;

/// A builder that has no position update function yet.
pub struct NonePositionUpdateFn;

/// A layout whose context has not been chosen yet.
pub struct NoneContext;

/// A layout whose context has been chosen.
pub struct SomeContext<Context>(pub Context);

/// A layout whose graph has not been set yet.
pub struct NoneGraph;

/// A layout whose graph has been set.
pub struct SomeGraph<Vertex, Edge>(pub SpecializedGraph<Vertex, Edge>);

impl<Context> From<Context> for SomeContext<Context> {
    fn from(value: Context) -> (r: Self) {
        SomeContext(value)
    }
}

impl<Context> FromSpecImpl<Context> for SomeContext<Context> {
    open spec fn obeys_from_spec() -> bool {
        true
    }

    open spec fn from_spec(v: Context) -> Self {
        SomeContext(v)
    }
}

impl<Vertex, Edge> From<SpecializedGraph<Vertex, Edge>> for SomeGraph<Vertex, Edge> {
    fn from(value: SpecializedGraph<Vertex, Edge>) -> (r: Self) {
        SomeGraph(value)
    }
}

impl<Vertex, Edge> FromSpecImpl<SpecializedGraph<Vertex, Edge>> for SomeGraph<Vertex, Edge> {
    open spec fn obeys_from_spec() -> bool {
        true
    }

    open spec fn from_spec(v: SpecializedGraph<Vertex, Edge>) -> Self {
        SomeGraph(v)
    }
}

impl From<Vec<Vec2>> for Displacements {
    fn from(value: Vec<Vec2>) -> (r: Self) {
        Displacements(value)
    }
}

impl FromSpecImpl<Vec<Vec2>> for Displacements {
    open spec fn obeys_from_spec() -> bool {
        true
    }

    open spec fn from_spec(v: Vec<Vec2>) -> Self {
        Displacements(v)
    }
}

impl<'a, Vertex> From<&'a [Vertex; 2]> for VertexPair<'a, Vertex> {
    /// The pair of the two vertices of `arr`, the first one first.
    fn from(arr: &'a [Vertex; 2]) -> (r: Self) {
        VertexPair { from: &arr[0], to: &arr[1] }
    }
}

impl<'a, Vertex> FromSpecImpl<&'a [Vertex; 2]> for VertexPair<'a, Vertex> {
    open spec fn obeys_from_spec() -> bool {
        true
    }

    open spec fn from_spec(v: &'a [Vertex; 2]) -> Self {
        VertexPair { from: &v@[0], to: &v@[1] }
    }
}

} // verus!
