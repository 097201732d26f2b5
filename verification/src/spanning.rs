//! Proofs that the built edge set is a true spanning tree: its edges touch
//! exactly the vertex range, any two vertices are joined by a walk, no
//! simple cycle closes, and no undirected edge occurs twice.

use crate::graph::acyclic;
use crate::graph::connected;
use crate::graph::connects;
use crate::graph::edge_joins;
use crate::graph::endpoint_vertices;
use crate::graph::has_walk;
use crate::graph::is_simple_cycle;
use crate::graph::is_walk;
use crate::graph::vertex_range;
use crate::mst::uniform_mst_edges;
use vstd::prelude::*;

verus! {

/// The built tree holds the edge (0, v) for every nonzero vertex v below n.
proof fn lemma_star_has_edge(n: nat, v: usize)
    requires
        n <= usize::MAX,
        1 <= v < n,
    ensures
        connects(uniform_mst_edges(n), 0, v),
        connects(uniform_mst_edges(n), v, 0),
{
    let edges = uniform_mst_edges(n);
    assert(edges[v as int - 1] == (0usize, v));
    assert(edge_joins(edges[v as int - 1], 0, v));
    assert(edge_joins(edges[v as int - 1], v, 0));
}

/// Every edge of the built tree runs between vertex 0 and a nonzero vertex.
proof fn lemma_star_edge_shape(n: nat, a: usize, b: usize)
    requires
        n <= usize::MAX,
        connects(uniform_mst_edges(n), a, b),
    ensures
        (a == 0 && b != 0) || (b == 0 && a != 0),
{
    let edges = uniform_mst_edges(n);
    let i = choose|i: int| 0 <= i < edges.len() && #[trigger] edge_joins(edges[i], a, b);
    assert(edges[i] == (0usize, (i + 1) as usize));
    assert((i + 1) as usize != 0);
}

/// Some walk through the built tree joins `u` and `v`: the trivial walk when
/// they are equal, one edge when one of them is vertex 0, and the two edges
/// through vertex 0 otherwise.
proof fn lemma_star_walk(n: nat, u: usize, v: usize)
    requires
        1 <= n <= usize::MAX,
        u < n,
        v < n,
    ensures
        has_walk(uniform_mst_edges(n), u, v),
{
    let edges = uniform_mst_edges(n);
    if u == v {
        let p: Seq<usize> = seq![u];
        assert(is_walk(edges, p));
        assert(p.first() == u && p.last() == v);
    } else if u == 0 {
        lemma_star_has_edge(n, v);
        let p: Seq<usize> = seq![u, v];
        assert forall|i: int| 0 <= i < p.len() - 1 implies #[trigger] connects(
            edges,
            p[i],
            p[i + 1],
        ) by {
            assert(i == 0);
            assert(p[0] == 0 && p[1] == v);
        }
        assert(is_walk(edges, p));
        assert(p.first() == u && p.last() == v);
    } else if v == 0 {
        lemma_star_has_edge(n, u);
        let p: Seq<usize> = seq![u, v];
        assert forall|i: int| 0 <= i < p.len() - 1 implies #[trigger] connects(
            edges,
            p[i],
            p[i + 1],
        ) by {
            assert(i == 0);
            assert(p[0] == u && p[1] == 0);
        }
        assert(is_walk(edges, p));
        assert(p.first() == u && p.last() == v);
    } else {
        lemma_star_has_edge(n, u);
        lemma_star_has_edge(n, v);
        let p: Seq<usize> = seq![u, 0usize, v];
        assert forall|i: int| 0 <= i < p.len() - 1 implies #[trigger] connects(
            edges,
            p[i],
            p[i + 1],
        ) by {
            assert(p[0] == u && p[1] == 0 && p[2] == v);
            assert(i == 0 || i == 1);
        }
        assert(is_walk(edges, p));
        assert(p.first() == u && p.last() == v);
    }
}

/// The built tree is connected: every two vertices of the range `[0, n)`
/// are joined by a walk through its edges.
pub proof fn lemma_uniform_mst_connected(n: nat)
    requires
        1 <= n <= usize::MAX,
    ensures
        connected(uniform_mst_edges(n), n),
{
    let edges = uniform_mst_edges(n);
    assert forall|u: usize, v: usize| u < n && v < n implies #[trigger] has_walk(
        edges,
        u,
        v,
    ) by {
        lemma_star_walk(n, u, v);
    }
}

/// No simple cycle closes in the built tree.  Every edge touches vertex 0 on
/// exactly one side, so consecutive cycle vertices would have to alternate
/// between 0 and nonzero, and three pairwise distinct vertices cannot.
proof fn lemma_star_no_cycle(n: nat, p: Seq<usize>)
    requires
        n <= usize::MAX,
    ensures
        !is_simple_cycle(uniform_mst_edges(n), p),
{
    let edges = uniform_mst_edges(n);
    if is_simple_cycle(edges, p) {
        assert(connects(edges, p[0], p[1]));
        assert(connects(edges, p[1], p[2]));
        assert(connects(edges, p[2], p[3]));
        lemma_star_edge_shape(n, p[0], p[1]);
        lemma_star_edge_shape(n, p[1], p[2]);
        lemma_star_edge_shape(n, p[2], p[3]);
        if p[0] == 0 {
            assert(p[1] != 0);
            assert(p[2] == 0);
            assert(p[0] != p[2]);
        } else {
            assert(p[1] == 0);
            assert(p[2] != 0);
            assert(p[3] == 0);
            if p.len() == 4 {
                assert(p[3] == p[0]);
            } else {
                assert(p[1] != p[3]);
            }
        }
        assert(false);
    }
}

/// The built tree is acyclic.
pub proof fn lemma_uniform_mst_acyclic(n: nat)
    requires
        n <= usize::MAX,
    ensures
        acyclic(uniform_mst_edges(n)),
{
    let edges = uniform_mst_edges(n);
    assert forall|p: Seq<usize>| !(#[trigger] is_simple_cycle(edges, p)) by {
        lemma_star_no_cycle(n, p);
    }
}

/// The built tree is spanning: the vertices its edges touch are exactly the
/// vertex range `[0, n)`.  A single vertex has no edge to appear in, so the
/// range must hold at least two vertices.
pub proof fn lemma_uniform_mst_spanning(n: nat)
    requires
        2 <= n <= usize::MAX,
    ensures
        endpoint_vertices(uniform_mst_edges(n)) == vertex_range(n),
{
    let edges = uniform_mst_edges(n);
    assert forall|v: usize| vertex_range(n).contains(v) implies endpoint_vertices(
        edges,
    ).contains(v) by {
        if v == 0 {
            assert(edges[0] == (0usize, 1usize));
        } else {
            assert(edges[v as int - 1] == (0usize, v));
        }
    }
    assert forall|v: usize| endpoint_vertices(edges).contains(v) implies vertex_range(
        n,
    ).contains(v) by {
        let i = choose|i: int| 0 <= i < edges.len() && ((#[trigger] edges[i]).0 == v
            || edges[i].1 == v);
        assert(edges[i] == (0usize, (i + 1) as usize));
    }
    assert(endpoint_vertices(edges) =~= vertex_range(n));
}

/// No undirected edge occurs twice in the built tree: distinct positions
/// hold pairs that join distinct vertex pairs.
pub proof fn lemma_uniform_mst_no_duplicate_edges(n: nat)
    requires
        n <= usize::MAX,
    ensures
        forall|i: int, j: int|
            0 <= i < j < uniform_mst_edges(n).len() ==> !edge_joins(
                #[trigger] uniform_mst_edges(n)[i],
                (#[trigger] uniform_mst_edges(n)[j]).0,
                uniform_mst_edges(n)[j].1,
            ),
{
    let edges = uniform_mst_edges(n);
    assert forall|i: int, j: int| 0 <= i < j < edges.len() implies !edge_joins(
        #[trigger] edges[i],
        (#[trigger] edges[j]).0,
        edges[j].1,
    ) by {
        assert(edges[i] == (0usize, (i + 1) as usize));
        assert(edges[j] == (0usize, (j + 1) as usize));
        assert((i + 1) as usize == i + 1 && (j + 1) as usize == j + 1);
    }
}

} // verus!
