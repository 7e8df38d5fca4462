use bevy_math::Vec2;
use force_smith::camera::{keyboard_direction, MovementKeys};
use force_smith::graph::{Edge, ToIndexPair};
use force_smith::vec2::{SafeMutVec2, SafeVec2};
use force_smith::layout_types::{
    sum_from_zero,
    edges_of, positions_of, write_positions, SomeContext, SomeGraph, VertexPair,
    AsEdge, AsVec2, BaseGraph, Displacements, Position, PositionMut, SpecializedGraph, ToVertexPair,
};

#[test]
fn mock_graph_is_a_path_on_three_vertices() {
    let g = BaseGraph::mock();
    assert_eq!(g.vertices, vec![Vec2::ZERO, Vec2::ONE, Vec2::splat(2.0)]);
    assert_eq!(g.edges, vec![(0, 1), (1, 2)]);
}

#[test]
fn specialization_keeps_positions_and_edges() {
    let g = BaseGraph::mock();
    let s = SpecializedGraph::from(&g);
    assert_eq!(s.vertices, g.vertices);
    assert_eq!(s.edges, g.edges);
    let empty: SpecializedGraph<Vec2, (usize, usize)> = SpecializedGraph::default();
    assert!(empty.vertices.is_empty() && empty.edges.is_empty());
    let base = BaseGraph::default();
    assert!(base.vertices.is_empty() && base.edges.is_empty());
}

#[test]
fn zero_displacements() {
    let d = Displacements::fill_zero_sized(4);
    assert_eq!(d.0, vec![Vec2::ZERO; 4]);
    assert!(Displacements::fill_zero_sized(0).0.is_empty());
}

#[test]
fn vertex_pairs_and_index_pairs() {
    let vertices = vec![Vec2::new(1.0, 2.0), Vec2::new(3.0, 4.0)];
    let slice: &[Vec2] = &vertices;
    let pair = slice.to_vertex_pair(1, 0);
    assert_eq!(*pair.from, Vec2::new(3.0, 4.0));
    assert_eq!(*pair.to, Vec2::new(1.0, 2.0));
    assert_eq!((4usize, 7usize).to_index_pair(), (4, 7));
    assert_eq!(Edge { from: 2, to: 5 }.to_index_pair(), (2, 5));
    let e = Edge { from: 1, to: 3 }.as_edge();
    assert_eq!((e.from, e.to), (1, 3));
}

#[test]
fn positions_of_plain_vectors() {
    let mut v = Vec2::new(1.5, -2.0);
    assert_eq!(v.position(), Vec2::new(1.5, -2.0));
    assert_eq!(v.as_copy_vec2(), Vec2::new(1.5, -2.0));
    assert_eq!(*v.as_ref_vec2(), Vec2::new(1.5, -2.0));
    *v.position_mut() = Vec2::ONE;
    assert_eq!(v, Vec2::ONE);
}

#[test]
fn keyboard_direction_adds_held_keys() {
    let none = MovementKeys {
        h: false, j: false, k: false, l: false,
        arrow_left: false, arrow_down: false, arrow_up: false, arrow_right: false,
    };
    assert_eq!(keyboard_direction(&none), (0, 0));
    assert_eq!(keyboard_direction(&MovementKeys { l: true, arrow_right: true, k: true, ..none }), (2, 1));
    assert_eq!(keyboard_direction(&MovementKeys { h: true, l: true, j: true, ..none }), (0, -1));
}

#[test]
fn conversions_wrap_their_values() {
    let ctx: SomeContext<u32> = 7u32.into();
    assert_eq!(ctx.0, 7);
    let g: SomeGraph<Vec2, (usize, usize)> = SpecializedGraph::from(&BaseGraph::mock()).into();
    assert_eq!(g.0.edges, vec![(0, 1), (1, 2)]);
    let d: Displacements = vec![Vec2::ONE].into();
    assert_eq!(d.0, vec![Vec2::ONE]);
    let arr = [Vec2::ZERO, Vec2::ONE];
    let pair: VertexPair<Vec2> = (&arr).into();
    assert_eq!((*pair.from, *pair.to), (Vec2::ZERO, Vec2::ONE));
    let v = Vec2::new(3.0, 4.0);
    let back: Vec2 = SafeVec2::from(&v).into();
    assert_eq!(back, v);
    let mut w = Vec2::new(5.0, 6.0);
    let back: Vec2 = SafeMutVec2::from(&mut w).into();
    assert_eq!(back, Vec2::new(5.0, 6.0));
}

#[test]
fn positions_edges_and_sums() {
    let vertices = vec![Vec2::new(1.0, 1.0), Vec2::new(2.0, 3.0)];
    assert_eq!(positions_of(&vertices), vertices);
    let edges = vec![Edge { from: 0, to: 1 }];
    let copied = edges_of(&edges);
    assert_eq!((copied[0].from, copied[0].to), (0, 1));
    let mut positions = vec![Vec2::ZERO, Vec2::ZERO, Vec2::splat(9.0)];
    write_positions(&vertices, &mut positions);
    assert_eq!(positions, vec![Vec2::new(1.0, 1.0), Vec2::new(2.0, 3.0), Vec2::splat(9.0)]);
    let mut total = Displacements(vec![Vec2::ONE, Vec2::ONE, Vec2::ONE]);
    total.accumulate(&Displacements(vec![Vec2::new(0.5, -1.0), Vec2::new(2.0, 2.0)]));
    assert_eq!(total.0, vec![Vec2::new(1.5, 0.0), Vec2::new(3.0, 3.0), Vec2::ONE]);
}

#[test]
fn debug_parts_add_up_from_zero() {
    let parts = vec![
        vec![Vec2::new(1.0, 2.0), Vec2::new(-1.0, 0.5), Vec2::new(0.0, 0.0)],
        vec![Vec2::new(0.5, -2.0), Vec2::new(3.0, 0.5)],
        vec![Vec2::new(1.0, 1.0), Vec2::new(1.0, 1.0), Vec2::new(2.0, -4.0)],
    ];
    let total = sum_from_zero(&parts, 3);
    assert_eq!(total.0, vec![Vec2::new(2.5, 1.0), Vec2::new(3.0, 2.0), Vec2::new(2.0, -4.0)]);
    let none = sum_from_zero(&Vec::new(), 2);
    assert_eq!(none.0, vec![Vec2::ZERO, Vec2::ZERO]);
}
