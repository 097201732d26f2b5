//! The benchmark driver's sweep: the ordered list of vertex counts that the
//! spanning-tree construction is run over, one count after another.

use vstd::prelude::*;

verus! {

/// The vertex counts the sweep visits: 2 as a small special case, then
/// 500, 1000, 1500, ..., 20000 — 41 counts in all.
pub open spec fn benchmark_vertex_counts() -> Seq<usize> {
    Seq::new(41, |i: int| (if i == 0 { 2usize } else { (500 * i) as usize }))
}

/// Builds the sweep's vertex-count list, in the order the runs execute.
pub fn benchmark_node_counts() -> (r: Vec<usize>)
    ensures
        r@ == benchmark_vertex_counts(),
{
    let mut node_list: Vec<usize> = Vec::new();
    node_list.push(2);
    let mut x: usize = 500;
    while x <= 20000
        invariant
            500 <= x <= 20500,
            x as int % 500 == 0,
            node_list@.len() * 500 == x as int,
            forall|i: int| 0 <= i < node_list@.len() ==> #[trigger] node_list@[i] == (if i == 0 {
                2usize
            } else {
                (500 * i) as usize
            }),
        decreases 20500 - x,
    {
        node_list.push(x);
        x = x + 500;
    }
    proof {
        assert(node_list@ =~= benchmark_vertex_counts());
    }
    node_list
}

} // verus!
