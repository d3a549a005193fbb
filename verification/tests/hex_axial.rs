use lattice_graph::hex::axial_based::{HexAxial, HexGraphConst, HexGraphConstLoopEW};
use lattice_graph::hex::shapes::{AxisR, OddR};

type C = HexAxial;
type Hex5x5 = HexGraphConst<C, Option<(C, AxisR)>, OddR, 5, 5>;
type Hex5x5Lew = HexGraphConstLoopEW<C, Option<(C, AxisR)>, OddR, 5, 5>;

fn neighbors_of_plain(g: &Hex5x5, c: C) -> Vec<C> {
    let mut out = Vec::new();
    let mut it = g.neighbors(c);
    while let Some(x) = it.next() {
        out.push(x);
    }
    out
}

fn neighbors_of_lew(g: &Hex5x5Lew, c: C) -> Vec<C> {
    let mut out = Vec::new();
    let mut it = g.neighbors(c);
    while let Some(x) = it.next() {
        out.push(x);
    }
    out
}

#[test]
fn axial_gen_oddr() {
    let graph = Hex5x5::new_with_s(|x| x, |n, d| Some((n, d)));
    for i in 0..graph.node_count() {
        let x = graph.from_index(i);
        assert_eq!(Some(&x), graph.node_weight(x));
        assert_eq!(graph.to_index(x), i);
    }
}

#[test]
fn axial_neighbors_oddr() {
    let graph = Hex5x5::new_with_s(|x| x, |n, d| Some((n, d)));
    assert_eq!(
        neighbors_of_plain(&graph, C::new(0, 0)),
        vec![C::new(0, 1), C::new(1, 0)]
    );
    assert_eq!(
        neighbors_of_plain(&graph, C::new(4, 0)),
        vec![C::new(4, 1), C::new(3, 0), C::new(3, 1)]
    );
    assert_eq!(
        neighbors_of_plain(&graph, C::new(1, 1)),
        vec![
            C::new(1, 2),
            C::new(2, 1),
            C::new(2, 0),
            C::new(1, 0),
            C::new(0, 1),
            C::new(0, 2),
        ]
    );
    assert_eq!(
        neighbors_of_plain(&graph, C::new(1, 2)),
        vec![
            C::new(1, 3),
            C::new(2, 2),
            C::new(2, 1),
            C::new(1, 1),
            C::new(0, 2),
            C::new(0, 3),
        ]
    );
}

#[test]
fn axial_neighbors_oddr_lew() {
    let graph = Hex5x5Lew::new_with_s(|x| x, |n, d| Some((n, d)));
    assert_eq!(
        neighbors_of_lew(&graph, C::new(0, 0)),
        vec![C::new(0, 1), C::new(1, 0), C::new(4, 0), C::new(4, 1)]
    );
    assert_eq!(
        neighbors_of_lew(&graph, C::new(4, 0)),
        vec![C::new(4, 1), C::new(0, 0), C::new(3, 0), C::new(3, 1)]
    );
    assert_eq!(
        neighbors_of_lew(&graph, C::new(1, 1)),
        vec![
            C::new(1, 2),
            C::new(2, 1),
            C::new(2, 0),
            C::new(1, 0),
            C::new(0, 1),
            C::new(0, 2),
        ]
    );
    assert_eq!(
        neighbors_of_lew(&graph, C::new(1, 2)),
        vec![
            C::new(1, 3),
            C::new(2, 2),
            C::new(2, 1),
            C::new(1, 1),
            C::new(0, 2),
            C::new(0, 3),
        ]
    );
}

#[test]
fn axial_lew_neighbors_stay_in_graph() {
    let graph = Hex5x5Lew::new_with_s(|x| x, |n, d| Some((n, d)));
    for i in 0..graph.node_count() {
        let x = graph.from_index(i);
        let mut it = graph.neighbors(x);
        while let Some(n) = it.next() {
            assert!(graph.node_weight(n).is_some());
        }
    }
}
