//! Specification-level view of an undirected graph given by a sequence of
//! edges: adjacency, walks, connectivity, simple cycles, and the set of
//! vertices that the edges touch.

use vstd::prelude::*;

verus! {

/// An undirected edge between two vertices, stored as an ordered pair.
pub type Edge = (usize, usize);

/// Whether the edge `e` joins the vertices `a` and `b`, in either
/// orientation.
pub open spec fn edge_joins(e: Edge, a: usize, b: usize) -> bool {
    (e.0 == a && e.1 == b) || (e.0 == b && e.1 == a)
}

/// Whether some edge of `edges` joins `a` and `b`.
pub open spec fn connects(edges: Seq<Edge>, a: usize, b: usize) -> bool {
    exists|i: int| 0 <= i < edges.len() && #[trigger] edge_joins(edges[i], a, b)
}

/// A walk through the graph: every two consecutive vertices of `p` are
/// joined by an edge.
pub open spec fn is_walk(edges: Seq<Edge>, p: Seq<usize>) -> bool {
    forall|i: int| 0 <= i < p.len() - 1 ==> connects(edges, #[trigger] p[i], p[i + 1])
}

/// Whether some walk through `edges` starts at `u` and ends at `v`.
pub open spec fn has_walk(edges: Seq<Edge>, u: usize, v: usize) -> bool {
    exists|p: Seq<usize>| #[trigger] is_walk(edges, p) && p.len() >= 1 && p.first() == u
        && p.last() == v
}

/// Every two vertices of the range `[0, n)` are joined by a walk.
pub open spec fn connected(edges: Seq<Edge>, n: nat) -> bool {
    forall|u: usize, v: usize| u < n && v < n ==> #[trigger] has_walk(edges, u, v)
}

/// A simple cycle: a closed walk over at least three vertices that are
/// pairwise distinct except for the start, which is repeated at the end.
pub open spec fn is_simple_cycle(edges: Seq<Edge>, p: Seq<usize>) -> bool {
    &&& p.len() >= 4
    &&& p.first() == p.last()
    &&& is_walk(edges, p)
    &&& forall|i: int, j: int| 0 <= i < j < p.len() - 1 ==> p[i] != p[j]
}

/// The graph holds no simple cycle.
pub open spec fn acyclic(edges: Seq<Edge>) -> bool {
    forall|p: Seq<usize>| !(#[trigger] is_simple_cycle(edges, p))
}

/// The set of vertices that occur as an endpoint of some edge.
pub open spec fn endpoint_vertices(edges: Seq<Edge>) -> Set<usize> {
    Set::new(
        |v: usize| exists|i: int| 0 <= i < edges.len() && ((#[trigger] edges[i]).0 == v
            || edges[i].1 == v),
    )
}

/// The vertex range `[0, n)` as a set.
pub open spec fn vertex_range(n: nat) -> Set<usize> {
    Set::new(|v: usize| v < n)
}

} // verus!
