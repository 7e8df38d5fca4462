use bevy_math::Vec2;
use force_smith::applicators::{
    linear_attraction_applicator, linear_position_update, linear_repulsion_applicator,
};
use force_smith::graph::Edge;
use force_smith::layout_types::{Displacements, VertexPair};

fn pull_to_target(pair: VertexPair<Vec2>, _: &()) -> Vec2 {
    // the unit direction from `from` to `to`, scaled by their distance
    (*pair.to - *pair.from).normalize_or_zero() * pair.from.distance(*pair.to)
}

#[test]
fn linear_repulsion_applicator_works() {
    let mut vertices = vec![Vec2::new(0.0, 0.0), Vec2::new(1.0, 0.0)];
    let edges: Vec<(usize, usize)> = vec![]; // repulsion ignores edges
    let mut displacements = Displacements::fill_zero_sized(vertices.len());
    linear_repulsion_applicator(&vertices, &edges, &(), &mut displacements, pull_to_target);
    linear_position_update(&displacements, &mut vertices, &mut ());

    assert_eq!(vertices[0], Vec2::new(1.0, 0.0));
    assert_eq!(vertices[1], Vec2::new(0.0, 0.0));
}

#[test]
fn linear_attraction_applicator_works() {
    let mut vertices = vec![Vec2::new(0.0, 0.0), Vec2::new(1.0, 0.0), Vec2::new(2.0, 0.0)];
    let edges: Vec<(usize, usize)> = vec![(0, 1)];
    let mut displacements = Displacements::fill_zero_sized(vertices.len());
    linear_attraction_applicator(&vertices, &edges, &(), &mut displacements, pull_to_target);
    linear_position_update(&displacements, &mut vertices, &mut ());

    assert_eq!(vertices[0], Vec2::new(1.0, 0.0));
    assert_eq!(vertices[1], Vec2::new(0.0, 0.0));
    assert_eq!(vertices[2], Vec2::new(2.0, 0.0));
}

#[test]
fn repulsion_visits_every_pair_once_in_order() {
    let vertices = vec![Vec2::new(0.0, 0.0), Vec2::new(1.0, 0.0), Vec2::new(3.0, 0.0)];
    let edges: Vec<Edge> = vec![];
    let mut displacements = Displacements::fill_zero_sized(3);
    let constant = |_: VertexPair<Vec2>, _: &()| Vec2::new(1.0, 2.0);
    linear_repulsion_applicator(&vertices, &edges, &(), &mut displacements, constant);
    // vertex 0 is `from` twice, vertex 1 once each way, vertex 2 `to` twice
    assert_eq!(displacements.0, vec![Vec2::new(2.0, 4.0), Vec2::ZERO, Vec2::new(-2.0, -4.0)]);
}

#[test]
fn repulsion_of_a_single_vertex_changes_nothing() {
    let vertices = vec![Vec2::new(5.0, 5.0)];
    let edges: Vec<Edge> = vec![];
    let mut displacements = Displacements(vec![Vec2::new(1.0, 1.0), Vec2::new(7.0, 7.0)]);
    let constant = |_: VertexPair<Vec2>, _: &()| Vec2::new(1.0, 2.0);
    linear_repulsion_applicator(&vertices, &edges, &(), &mut displacements, constant);
    assert_eq!(displacements.0, vec![Vec2::new(1.0, 1.0), Vec2::new(7.0, 7.0)]);
}

#[test]
fn attraction_follows_graph_edges_and_leaves_untouched_vertices() {
    let vertices = vec![Vec2::new(0.0, 0.0), Vec2::new(2.0, 0.0), Vec2::new(0.0, 4.0), Vec2::new(9.0, 9.0)];
    let edges = vec![Edge { from: 0, to: 1 }, Edge { from: 2, to: 0 }];
    let mut displacements = Displacements::fill_zero_sized(4);
    let difference = |pair: VertexPair<Vec2>, _: &()| *pair.to - *pair.from;
    linear_attraction_applicator(&vertices, &edges, &(), &mut displacements, difference);
    // edge 0->1 gives (2,0) to 0 and (-2,0) to 1; edge 2->0 gives (0,-4) to 2 and (0,4) to 0
    assert_eq!(
        displacements.0,
        vec![Vec2::new(2.0, 4.0), Vec2::new(-2.0, 0.0), Vec2::new(0.0, -4.0), Vec2::ZERO]
    );
}
