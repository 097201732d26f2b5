//! The uniform-weight specialization of Prim's spanning-tree construction.
//!
//! Over a complete graph whose edges all cost the same, the construction
//! grows a tree from vertex 0: each round attaches the unvisited vertex with
//! the minimum label (ties go to the lowest index, matching an ascending
//! scan that keeps the first minimum) to the lowest-indexed visited vertex.
//! Because every label ties, the rounds attach vertices 1, 2, ... in order,
//! always to vertex 0, and the built tree is pinned exactly by
//! [`uniform_mst_edges`].

use crate::graph::Edge;
use crate::graph::connects;
use crate::graph::edge_joins;
use vstd::pervasive::VecAdditionalExecFns;
use vstd::prelude::*;

verus! {

/// The edges of the tree that the construction yields for `n` vertices: the
/// star (0, 1), (0, 2), ..., (0, n - 1).
pub open spec fn uniform_mst_edges(n: nat) -> Seq<Edge> {
    if n == 0 {
        Seq::empty()
    } else {
        Seq::new((n - 1) as nat, |i: int| (0usize, (i + 1) as usize))
    }
}

/// The set of edges of a spanning tree, built incrementally.  Each edge is an
/// unordered pair of vertices; the construction never offers the same pair
/// twice, so the stored sequence holds each edge at most once.
pub struct TreeEdgeSet {
    edges: Vec<Edge>,
}

impl View for TreeEdgeSet {
    type V = Seq<Edge>;

    closed spec fn view(&self) -> Seq<Edge> {
        self.edges@
    }
}

impl TreeEdgeSet {
    /// An empty edge set.
    pub fn new() -> (r: TreeEdgeSet)
        ensures
            r@ == Seq::<Edge>::empty(),
    {
        TreeEdgeSet { edges: Vec::new() }
    }

    /// How many edges the set holds.
    pub fn len(&self) -> (r: usize)
        ensures
            r == self@.len(),
    {
        self.edges.len()
    }

    /// The edge at position `i`, in the order the edges were inserted.
    pub fn edge_at(&self, i: usize) -> (r: Edge)
        requires
            i < self@.len(),
        ensures
            r == self@[i as int],
    {
        self.edges[i]
    }

    /// Appends the edge between `a` and `b`.
    pub fn insert(&mut self, a: usize, b: usize)
        ensures
            final(self)@ == old(self)@.push((a, b)),
    {
        self.edges.push((a, b));
    }

    /// Whether the set holds an edge joining `a` and `b`, in either
    /// orientation.
    pub fn contains_edge(&self, a: usize, b: usize) -> (r: bool)
        ensures
            r == connects(self@, a, b),
    {
        let mut i: usize = 0;
        while i < self.edges.len()
            invariant
                i <= self@.len(),
                forall|j: int| 0 <= j < i ==> !edge_joins(#[trigger] self@[j], a, b),
            decreases self@.len() - i,
        {
            let e = self.edges[i];
            if (e.0 == a && e.1 == b) || (e.0 == b && e.1 == a) {
                proof {
                    assert(edge_joins(self@[i as int], a, b));
                }
                return true;
            }
            i = i + 1;
        }
        false
    }
}

/// Scans the vertices in ascending order and keeps the first unvisited one
/// whose label is the minimum over all unvisited vertices, so that ties go
/// to the lowest index.  Returns `None` when every vertex is visited.
fn select_min_label_unvisited(tv: &Vec<bool>, l: &Vec<u64>) -> (r: Option<usize>)
    requires
        tv@.len() == l@.len(),
    ensures
        (match r {
            Some(w) => {
                &&& w < tv@.len()
                &&& !tv@[w as int]
                &&& forall|v: int| 0 <= v < tv@.len() && !tv@[v] ==> l@[w as int] <= #[trigger] l@[v]
                &&& forall|v: int| 0 <= v < w && !tv@[v] ==> #[trigger] l@[v] > l@[w as int]
            },
            None => forall|v: int| 0 <= v < tv@.len() ==> tv@[v],
        }),
{
    let mut best: Option<usize> = None;
    let mut v: usize = 0;
    while v < tv.len()
        invariant
            tv@.len() == l@.len(),
            v <= tv@.len(),
            (match best {
                Some(w) => {
                    &&& w < v
                    &&& !tv@[w as int]
                    &&& forall|u: int| 0 <= u < v && !tv@[u] ==> l@[w as int] <= #[trigger] l@[u]
                    &&& forall|u: int| 0 <= u < w && !tv@[u] ==> #[trigger] l@[u] > l@[w as int]
                },
                None => forall|u: int| 0 <= u < v ==> tv@[u],
            }),
        decreases tv@.len() - v,
    {
        if !tv[v] {
            match best {
                None => {
                    best = Some(v);
                },
                Some(w) => {
                    if l[v] < l[w] {
                        best = Some(v);
                    }
                },
            }
        }
        v = v + 1;
    }
    best
}

/// Picks the lowest-indexed visited vertex.  Any visited vertex would serve
/// as the attachment point, since every edge costs the same; the lowest
/// index is the deterministic choice, so repeated runs build the same tree.
/// Returns `None` when no vertex is visited.
fn select_lowest_visited(tv: &Vec<bool>) -> (r: Option<usize>)
    ensures
        (match r {
            Some(c) => {
                &&& c < tv@.len()
                &&& tv@[c as int]
                &&& forall|u: int| 0 <= u < c ==> !(#[trigger] tv@[u])
            },
            None => forall|u: int| 0 <= u < tv@.len() ==> !(#[trigger] tv@[u]),
        }),
{
    let mut c: usize = 0;
    while c < tv.len()
        invariant
            c <= tv@.len(),
            forall|u: int| 0 <= u < c ==> !(#[trigger] tv@[u]),
        decreases tv@.len() - c,
    {
        if tv[c] {
            return Some(c);
        }
        c = c + 1;
    }
    None
}

/// Builds a spanning tree of the complete graph on `vertices_count` vertices
/// under uniform edge weights and returns its edge set, which is pinned
/// exactly by [`uniform_mst_edges`].  A vertex count of zero lies outside
/// the documented domain; the choice here is to yield an empty tree.
pub fn prim_minimum_spanning_tree_uniform_weight(vertices_count: usize) -> (te: TreeEdgeSet)
    ensures
        te@ == uniform_mst_edges(vertices_count as nat),
        te@.len() == (if vertices_count == 0 { 0int } else { vertices_count - 1 }),
{
    let mut te = TreeEdgeSet::new();
    if vertices_count == 0 {
        proof {
            assert(te@ =~= uniform_mst_edges(0));
        }
        return te;
    }
    // Visited flags: vertex 0 starts the tree.
    let mut tv: Vec<bool> = Vec::new();
    let mut v: usize = 0;
    while v < vertices_count
        invariant
            v <= vertices_count,
            tv@.len() == v as int,
            forall|u: int| 0 <= u < v ==> #[trigger] tv@[u] == (u == 0),
        decreases vertices_count - v,
    {
        tv.push(v == 0);
        v = v + 1;
    }
    // Labels: every vertex attaches at uniform cost 1, and no label is ever
    // updated, since no cheaper edge can turn up.  Vertex 0 is visited from
    // the start, so its entry is never consulted.
    let mut l: Vec<u64> = Vec::new();
    let mut v2: usize = 0;
    while v2 < vertices_count
        invariant
            v2 <= vertices_count,
            l@.len() == v2 as int,
            forall|u: int| 0 <= u < v2 ==> #[trigger] l@[u] == 1u64,
        decreases vertices_count - v2,
    {
        l.push(1);
        v2 = v2 + 1;
    }
    let mut visited_count: usize = 1;
    while visited_count != vertices_count
        invariant
            1 <= visited_count <= vertices_count,
            tv@.len() == vertices_count as int,
            l@.len() == vertices_count as int,
            forall|u: int| 0 <= u < vertices_count ==> #[trigger] tv@[u] == (u < visited_count),
            forall|u: int| 0 <= u < vertices_count ==> #[trigger] l@[u] == 1u64,
            te@ == uniform_mst_edges(visited_count as nat),
        decreases vertices_count - visited_count,
    {
        // Select w: the unvisited vertex with the minimum label.
        let w_opt = select_min_label_unvisited(&tv, &l);
        proof {
            // The loop condition leaves at least one vertex unvisited, so the
            // selection cannot come back empty.
            assert(!tv@[visited_count as int]);
        }
        let w = w_opt.unwrap();
        proof {
            // The visited vertices are exactly [0, visited_count) and every
            // label ties, so the ascending scan lands on visited_count.
            assert(l@[visited_count as int] == 1u64);
            assert(l@[w as int] == 1u64);
            assert(w == visited_count);
        }
        // Attach w to the lowest-indexed visited vertex.
        let closest_opt = select_lowest_visited(&tv);
        proof {
            assert(tv@[0]);
        }
        let closest = closest_opt.unwrap();
        proof {
            assert(closest == 0);
        }
        te.insert(closest, w);
        tv.set(w, true);
        proof {
            assert(te@ =~= uniform_mst_edges((visited_count + 1) as nat));
        }
        visited_count = visited_count + 1;
    }
    te
}

/// Determinism: the construction is a function of the vertex count alone,
/// so two trees built over the same count are equal, edge for edge.
pub proof fn lemma_uniform_mst_deterministic(a: Seq<Edge>, b: Seq<Edge>, n: nat)
    requires
        a == uniform_mst_edges(n),
        b == uniform_mst_edges(n),
    ensures
        a == b,
{
}

} // verus!
