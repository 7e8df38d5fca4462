use force_smith::generator::{
    add_random_edge, attach_vertex, generation_step, spanning_tree, start_generated_graph, try_add_edge,
};
use force_smith::graph::{Edge, Graph};

fn reached_from_zero(vertices: usize, edges: &[Edge]) -> Vec<bool> {
    let mut seen = vec![false; vertices];
    if vertices == 0 {
        return seen;
    }
    seen[0] = true;
    let mut changed = true;
    while changed {
        changed = false;
        for e in edges {
            if seen[e.from] != seen[e.to] {
                seen[e.from] = true;
                seen[e.to] = true;
                changed = true;
            }
        }
    }
    seen
}

fn is_simple(edges: &[Edge]) -> bool {
    for (i, a) in edges.iter().enumerate() {
        if a.from == a.to {
            return false;
        }
        for b in &edges[i + 1..] {
            if (a.from == b.from && a.to == b.to) || (a.from == b.to && a.to == b.from) {
                return false;
            }
        }
    }
    true
}

#[test]
fn spanning_tree_connects_every_vertex() {
    for n in 2..12 {
        let edges = spanning_tree(n);
        assert_eq!(edges.len(), n - 1);
        assert!(edges.iter().all(|e| e.from < n && e.to < n));
        assert!(is_simple(&edges));
        assert!(reached_from_zero(n, &edges).iter().all(|&r| r));
    }
}

#[test]
fn try_add_edge_redirects_loops_to_the_next_vertex() {
    let mut edges = vec![];
    assert!(try_add_edge(&mut edges, 3, 2, 2));
    assert_eq!(edges.len(), 1);
    assert_eq!((edges[0].from, edges[0].to), (2, 0));
}

#[test]
fn try_add_edge_rejects_an_edge_in_either_direction() {
    let mut edges = vec![Edge { from: 0, to: 1 }];
    assert!(!try_add_edge(&mut edges, 4, 1, 0));
    assert!(!try_add_edge(&mut edges, 4, 0, 1));
    assert_eq!(edges.len(), 1);
    assert!(try_add_edge(&mut edges, 4, 1, 3));
    assert_eq!((edges[1].from, edges[1].to), (1, 3));
}

#[test]
fn start_without_connection_has_no_edges() {
    let g = start_generated_graph(5, false);
    assert_eq!(g.vertices, 5);
    assert!(g.edges.is_empty());
    let g = start_generated_graph(1, true);
    assert_eq!(g.vertices, 1);
    assert!(g.edges.is_empty());
}

#[test]
fn generation_reaches_the_requested_edge_count() {
    let mut g = start_generated_graph(6, true);
    assert_eq!(g.edges.len(), 5);
    while !generation_step(&mut g, 9) {}
    assert_eq!(g.edges.len(), 9);
    assert!(is_simple(&g.edges));
    assert!(reached_from_zero(6, &g.edges).iter().all(|&r| r));
}

#[test]
fn generation_keeps_a_larger_spanning_tree() {
    let mut g = start_generated_graph(7, true);
    assert!(generation_step(&mut g, 3));
    assert_eq!(g.edges.len(), 6);
}

#[test]
fn generation_of_a_single_vertex_is_done_at_once() {
    let mut g = Graph { vertices: 1, edges: vec![] };
    assert!(generation_step(&mut g, 4));
    assert!(g.edges.is_empty());
}

#[test]
fn add_random_edge_keeps_the_graph_simple() {
    let mut g = Graph { vertices: 4, edges: vec![] };
    for _ in 0..50 {
        add_random_edge(&mut g);
        assert!(is_simple(&g.edges));
        assert!(g.edges.iter().all(|e| e.from < 4 && e.to < 4));
    }
    assert!(g.edges.len() <= 6);
}

#[test]
fn default_graph_is_empty() {
    let g = Graph::default();
    assert_eq!(g.vertices, 0);
    assert!(g.edges.is_empty());
}

#[test]
fn two_connected_vertices_give_one_edge_from_the_root() {
    let mut g = start_generated_graph(2, true);
    assert_eq!(g.edges.len(), 1);
    assert_eq!((g.edges[0].from, g.edges[0].to), (0, 1));
    assert!(generation_step(&mut g, 1));
    assert_eq!(g.edges.len(), 1);
    assert_eq!((g.edges[0].from, g.edges[0].to), (0, 1));
}

#[test]
fn spanning_tree_edges_point_away_from_the_reached_part() {
    for _ in 0..20 {
        let edges = spanning_tree(7);
        let mut reached = vec![false; 7];
        reached[0] = true;
        for e in &edges {
            assert!(reached[e.from]);
            assert!(!reached[e.to]);
            reached[e.to] = true;
        }
        let mut g = Graph { vertices: 7, edges: edges.clone() };
        while !generation_step(&mut g, 12) {}
        for (kept, tree) in g.edges.iter().zip(edges.iter()) {
            assert_eq!((kept.from, kept.to), (tree.from, tree.to));
        }
        assert!(g.edges.len() >= edges.len());
    }
}

#[test]
fn attach_vertex_moves_the_drawn_vertex_and_joins_it_to_the_drawn_parent() {
    let mut connected = vec![0, 3];
    let mut disconnected = vec![1, 2, 4];
    let mut edges = vec![Edge { from: 0, to: 3 }];
    attach_vertex(&mut connected, &mut disconnected, &mut edges, 0, 1);
    assert_eq!(connected, vec![0, 3, 1]);
    assert_eq!(disconnected, vec![4, 2]);
    assert_eq!(edges.len(), 2);
    assert_eq!((edges[1].from, edges[1].to), (3, 1));
}
