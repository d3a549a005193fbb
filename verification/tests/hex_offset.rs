use lattice_graph::hex::offset_based::{HexGraphConst, HexGraphConstLoopEW, HexOffset};
use lattice_graph::hex::shapes::{AxisDR, AxisR, OddR};

fn neighbors_list<I: FnMut() -> Option<HexOffset>>(mut next: I) -> Vec<HexOffset> {
    let mut out = Vec::new();
    while let Some(x) = next() {
        out.push(x);
    }
    out
}

#[test]
fn gen_oddr() {
    let graph = HexGraphConst::<_, _, OddR, 5, 3>::new_with_s(|x| x, |n, d| Some((n, d)));
    for i in 0..graph.node_count() {
        let x = graph.from_index(i);
        assert_eq!(Some(&x), graph.node_weight(x));
    }
}

#[test]
fn neighbors_oddr() {
    let graph = HexGraphConst::<_, _, OddR, 5, 5>::new_with_s(|x| x, |n, d| Some((n, d)));
    let mut it = graph.neighbors(HexOffset::new(0, 0));
    let e = neighbors_list(|| it.next());
    assert_eq!(e, vec![HexOffset::new(0, 1), HexOffset::new(1, 0)]);

    let mut it = graph.neighbors(HexOffset::new(4, 0));
    let e = neighbors_list(|| it.next());
    assert_eq!(
        e,
        vec![HexOffset::new(4, 1), HexOffset::new(3, 0), HexOffset::new(3, 1)]
    );

    let mut it = graph.neighbors(HexOffset::new(1, 1));
    let e = neighbors_list(|| it.next());
    assert_eq!(
        e,
        vec![
            HexOffset::new(2, 2),
            HexOffset::new(2, 1),
            HexOffset::new(2, 0),
            HexOffset::new(1, 0),
            HexOffset::new(0, 1),
            HexOffset::new(1, 2),
        ]
    );

    let mut it = graph.neighbors(HexOffset::new(1, 2));
    let e = neighbors_list(|| it.next());
    assert_eq!(
        e,
        vec![
            HexOffset::new(1, 3),
            HexOffset::new(2, 2),
            HexOffset::new(1, 1),
            HexOffset::new(0, 1),
            HexOffset::new(0, 2),
            HexOffset::new(0, 3),
        ]
    );
}

#[test]
fn edges_oddr() {
    let graph = HexGraphConst::<_, _, OddR, 5, 5>::new_with_s(|x| x, |n, d| Some((n, d)));
    let mut dirs = Vec::new();
    let mut it = graph.edges(HexOffset::new(0, 0));
    while let Some(e) = it.next() {
        dirs.push(*e.direction());
    }
    assert_eq!(dirs, vec![AxisDR::NE, AxisDR::E]);

    let mut ids = Vec::new();
    let mut it = graph.edges(HexOffset::new(4, 0));
    while let Some(e) = it.next() {
        ids.push(e.id().1);
    }
    assert_eq!(ids, vec![AxisR::NE, AxisR::E, AxisR::SE]);

    let mut ids = Vec::new();
    let mut it = graph.edges(HexOffset::new(1, 1));
    while let Some(e) = it.next() {
        ids.push(e.id().1);
    }
    assert_eq!(
        ids,
        vec![AxisR::NE, AxisR::E, AxisR::SE, AxisR::NE, AxisR::E, AxisR::SE]
    );

    let mut ids = Vec::new();
    let mut it = graph.edges(HexOffset::new(1, 2));
    while let Some(e) = it.next() {
        ids.push(e.id().1);
    }
    assert_eq!(
        ids,
        vec![AxisR::NE, AxisR::E, AxisR::SE, AxisR::NE, AxisR::E, AxisR::SE]
    );
}

#[test]
fn neighbors_oddr_lew() {
    let graph = HexGraphConstLoopEW::<_, _, OddR, 5, 5>::new_with_s(|x| x, |n, d| Some((n, d)));
    let mut it = graph.neighbors(HexOffset::new(0, 0));
    let e = neighbors_list(|| it.next());
    assert_eq!(
        e,
        vec![
            HexOffset::new(0, 1),
            HexOffset::new(1, 0),
            HexOffset::new(4, 0),
            HexOffset::new(4, 1),
        ]
    );

    let mut it = graph.neighbors(HexOffset::new(4, 0));
    let e = neighbors_list(|| it.next());
    assert_eq!(
        e,
        vec![
            HexOffset::new(4, 1),
            HexOffset::new(0, 0),
            HexOffset::new(3, 0),
            HexOffset::new(3, 1)
        ]
    );

    let mut it = graph.neighbors(HexOffset::new(1, 1));
    let e = neighbors_list(|| it.next());
    assert_eq!(
        e,
        vec![
            HexOffset::new(2, 2),
            HexOffset::new(2, 1),
            HexOffset::new(2, 0),
            HexOffset::new(1, 0),
            HexOffset::new(0, 1),
            HexOffset::new(1, 2),
        ]
    );

    let mut it = graph.neighbors(HexOffset::new(1, 2));
    let e = neighbors_list(|| it.next());
    assert_eq!(
        e,
        vec![
            HexOffset::new(1, 3),
            HexOffset::new(2, 2),
            HexOffset::new(1, 1),
            HexOffset::new(0, 1),
            HexOffset::new(0, 2),
            HexOffset::new(0, 3),
        ]
    );
}

#[test]
fn hex_edges_sources() {
    let graph = HexGraphConst::<_, _, OddR, 5, 5>::new_with_s(|x| x, |n, d| Some((n, d)));
    let mut it = graph.edges(HexOffset::new(1, 1));
    while let Some(e) = it.next() {
        assert_eq!(e.source(), HexOffset::new(1, 1));
    }
    let mut it = graph.edges(HexOffset::new(0, 0));
    while let Some(e) = it.next() {
        assert_eq!(e.source(), HexOffset::new(0, 0));
    }
}

#[test]
fn hex_edge_weight_is_stored_at_forward_node() {
    let graph = HexGraphConst::<_, _, OddR, 5, 5>::new_with_s(|x| x, |n, d| Some((n, d)));
    assert_eq!(
        graph.edge_weight((HexOffset::new(1, 1), AxisR::E)),
        Some(&Some((HexOffset::new(1, 1), AxisR::E)))
    );
    // The last column has no east edge.
    assert_eq!(graph.edge_weight((HexOffset::new(4, 1), AxisR::E)), None);
    // Outside the graph.
    assert_eq!(graph.node_weight(HexOffset::new(5, 0)), None);
    assert_eq!(graph.node_count(), 25);
}

#[test]
fn hex_default_weights() {
    let graph = HexGraphConst::<u8, u16, OddR, 2, 3>::new_s();
    assert_eq!(graph.node_count(), 6);
    assert_eq!(graph.node_weight(HexOffset::new(1, 2)), Some(&0));
    assert_eq!(graph.to_index(HexOffset::new(1, 2)), 5);
}
