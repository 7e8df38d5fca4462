//! Force Smith: building blocks for force-directed graph layouts.
//!
//! The verified part of the toolkit: the graph model, the way forces are
//! scheduled over vertex pairs and edges, random graph generation, and the
//! decisions of the interactive visualizer (its execution modes, its graph
//! source panel and its input helpers).

pub mod vec2;
pub mod layout_types;
pub mod graph;
pub mod applicators;
pub mod generator;
pub mod control;
pub mod graph_source;
pub mod camera;
