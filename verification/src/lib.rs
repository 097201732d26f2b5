//! A verified uniform-weight spanning-tree builder.
//!
//! The library grows a spanning tree over a conceptually complete graph in
//! which every edge costs the same, using the uniform-weight specialization
//! of Prim's algorithm, and exposes the vertex-count sweep that a benchmark
//! driver runs the builder over.  The proofs show that the built edge set is
//! a true spanning tree: it has exactly one edge fewer than there are
//! vertices, it reaches every vertex, it joins any two vertices, and it
//! closes no cycle.

pub mod driver;
pub mod graph;
pub mod mst;
pub mod spanning;
