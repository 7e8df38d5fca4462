# force_smith

Building blocks for force-directed graph layouts, verified with Verus.

`src/` is the verified library:

- `graph`: the graph that layouts load (a vertex count and index edges),
  with the notions of edges in range and simple graphs.
- `layout_types`: base and specialized graphs, displacement buffers,
  vertex pairs, the vertex and edge traits, and the type-state markers.
- `applicators`: how a force is applied, to every pair of vertices
  (repulsion) or along every edge (attraction), and how positions are
  moved by their displacements.
- `generator`: random graphs (a random spanning tree, then random extra
  edges), with proofs that they are simple and, when asked, connected.
- `control`: the execution state machine of the interactive visualizer
  (normal and debug mode) and the work each state schedules.
- `graph_source`: the graph source panel (directory listing, file choice,
  generator settings) and its counter buttons.
- `camera`: the direction held movement keys push the camera in.
- `vec2`: positions are `bevy_math::Vec2` values, carried opaquely; their
  floating point arithmetic is done by `bevy_math`.

`app/` is a headless driver around the library: the layout engine and its
builder (which store user functions as function pointers), the parameter
and configuration types (which hold floating point values), JSON graph
files, directory listings and random positions.
