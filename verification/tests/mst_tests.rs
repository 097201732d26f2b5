use uniform_mst::mst::prim_minimum_spanning_tree_uniform_weight;
use uniform_mst::mst::TreeEdgeSet;

fn endpoint_appears(te: &TreeEdgeSet, v: usize) -> bool {
    let mut i = 0;
    while i < te.len() {
        let (a, b) = te.edge_at(i);
        if a == v || b == v {
            return true;
        }
        i += 1;
    }
    false
}

#[test]
fn zero_vertices_yield_empty_tree() {
    // Zero lies outside the documented domain; the documented choice is an
    // empty tree.
    let te = prim_minimum_spanning_tree_uniform_weight(0);
    assert_eq!(te.len(), 0);
}

#[test]
fn one_vertex_yields_empty_tree() {
    let te = prim_minimum_spanning_tree_uniform_weight(1);
    assert_eq!(te.len(), 0);
}

#[test]
fn two_vertices_yield_the_single_edge() {
    let te = prim_minimum_spanning_tree_uniform_weight(2);
    assert_eq!(te.len(), 1);
    assert_eq!(te.edge_at(0), (0, 1));
    assert!(te.contains_edge(0, 1));
    assert!(te.contains_edge(1, 0));
}

#[test]
fn three_vertices_yield_two_spanning_edges() {
    let te = prim_minimum_spanning_tree_uniform_weight(3);
    assert_eq!(te.len(), 2);
    for v in 0..3 {
        assert!(endpoint_appears(&te, v));
    }
    // The two edges both hang off vertex 0, so no cycle is formed.
    assert_eq!(te.edge_at(0), (0, 1));
    assert_eq!(te.edge_at(1), (0, 2));
}

#[test]
fn edge_count_is_one_less_than_vertex_count() {
    for n in [1usize, 2, 3, 7, 50, 500] {
        let te = prim_minimum_spanning_tree_uniform_weight(n);
        assert_eq!(te.len(), n - 1);
    }
}

#[test]
fn every_vertex_appears_among_the_endpoints() {
    let n = 6;
    let te = prim_minimum_spanning_tree_uniform_weight(n);
    for v in 0..n {
        assert!(endpoint_appears(&te, v));
    }
    assert!(!endpoint_appears(&te, n));
}

#[test]
fn repeated_runs_build_identical_trees() {
    let first = prim_minimum_spanning_tree_uniform_weight(9);
    let second = prim_minimum_spanning_tree_uniform_weight(9);
    assert_eq!(first.len(), second.len());
    for i in 0..first.len() {
        assert_eq!(first.edge_at(i), second.edge_at(i));
    }
}

#[test]
fn absent_edges_are_not_reported() {
    let te = prim_minimum_spanning_tree_uniform_weight(4);
    assert!(!te.contains_edge(1, 2));
    assert!(!te.contains_edge(2, 3));
    assert!(!te.contains_edge(0, 4));
    assert!(!te.contains_edge(0, 0));
}

#[test]
fn no_edge_appears_twice() {
    let te = prim_minimum_spanning_tree_uniform_weight(10);
    for i in 0..te.len() {
        let (a, b) = te.edge_at(i);
        for j in 0..te.len() {
            if i != j {
                let (c, d) = te.edge_at(j);
                assert!(!((a, b) == (c, d) || (a, b) == (d, c)));
            }
        }
    }
}

#[test]
fn elapsed_time_is_nonnegative() {
    let start = std::time::Instant::now();
    let _te = prim_minimum_spanning_tree_uniform_weight(100);
    let elapsed = start.elapsed().as_secs_f64();
    assert!(elapsed >= 0.0);
}

#[test]
fn insert_appends_in_order() {
    let mut te = TreeEdgeSet::new();
    assert_eq!(te.len(), 0);
    assert!(!te.contains_edge(4, 7));
    te.insert(4, 7);
    te.insert(1, 2);
    assert_eq!(te.len(), 2);
    assert_eq!(te.edge_at(0), (4, 7));
    assert_eq!(te.edge_at(1), (1, 2));
    assert!(te.contains_edge(7, 4));
    assert!(!te.contains_edge(4, 2));
}
