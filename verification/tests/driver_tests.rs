use uniform_mst::driver::benchmark_node_counts;

#[test]
fn sweep_holds_forty_one_counts_in_order() {
    let counts = benchmark_node_counts();
    assert_eq!(counts.len(), 41);
    assert_eq!(counts[0], 2);
    for i in 1..41 {
        assert_eq!(counts[i], 500 * i);
    }
    assert_eq!(counts[1], 500);
    assert_eq!(counts[40], 20000);
}
