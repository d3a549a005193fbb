use lattice_graph::square::index::{Axis, EdgeIndex, NodeIndex, SquareDirection};
use lattice_graph::square::{HorizontalLoop, HVLoop, SquareGraph, VerticalLoop};

fn sample(h: usize, v: usize) -> SquareGraph<usize, i32, u32> {
    SquareGraph::<_, _, u32>::new_with(
        h,
        v,
        |x, y| x + 2 * y,
        |x, y, d| (x + 2 * y) as i32 * (if d.is_horizontal() { 1 } else { -1 }),
    )
}

fn pos(n: NodeIndex<u32>) -> (usize, usize) {
    n.into()
}

fn eid(x: usize, y: usize, a: Axis) -> EdgeIndex<u32> {
    (NodeIndex::<u32>::from((x, y)), a).into()
}

#[test]
fn tests_gen() {
    let sq = sample(4, 3);
    assert_eq!(sq.horizontal_node_count(), 4);
    assert_eq!(sq.vertical_node_count(), 3);
    assert_eq!(sq.node_weight((0, 0).into()), Some(&0));
    assert_eq!(sq.node_weight((3, 0).into()), Some(&3));
    assert_eq!(sq.node_weight((4, 0).into()), None);
    assert_eq!(sq.node_weight((0, 2).into()), Some(&4));
    assert_eq!(sq.node_weight((0, 3).into()), None);
    assert_eq!(sq.edge_weight(eid(0, 0, Axis::Horizontal)), Some(&0));
    assert_eq!(sq.edge_weight(eid(0, 2, Axis::Horizontal)), Some(&4));
    assert_eq!(sq.edge_weight(eid(0, 2, Axis::Vertical)), None);
    assert_eq!(sq.edge_weight(eid(3, 0, Axis::Horizontal)), None);
    assert_eq!(sq.edge_weight(eid(3, 0, Axis::Vertical)), Some(&-3));
}

#[test]
fn tests_node_identifiers() {
    let sq = SquareGraph::<_, _, u32>::new_with(3, 5, |_x, _y| (), |_x, _y, _d| ());
    let mut count = 0;
    let mut it = sq.node_identifiers();
    while let Some(x) = it.next() {
        let x2 = sq.to_index(x);
        assert_eq!(x2, count);
        let x3 = sq.from_index(x2);
        assert_eq!(x, x3);
        count += 1;
    }
    assert_eq!(count, 15);
}

fn neighbors_of(sq: &SquareGraph<usize, i32, u32>, x: usize, y: usize) -> Vec<(usize, usize)> {
    let mut out = Vec::new();
    let mut it = sq.neighbors((x, y).into());
    while let Some(n) = it.next() {
        out.push(pos(n));
    }
    out
}

#[test]
fn tests_neighbors() {
    let sq = sample(3, 5);
    assert_eq!(neighbors_of(&sq, 0, 0), vec![(1, 0), (0, 1)]);
    assert_eq!(neighbors_of(&sq, 0, 4), vec![(1, 4), (0, 3)]);
    assert_eq!(neighbors_of(&sq, 2, 0), vec![(1, 0), (2, 1)]);
    assert_eq!(neighbors_of(&sq, 2, 4), vec![(1, 4), (2, 3)]);
    assert_eq!(neighbors_of(&sq, 1, 2), vec![(0, 2), (2, 2), (1, 1), (1, 3)]);
}

#[test]
fn tests_edges() {
    let sq = sample(3, 5);

    let mut targets = Vec::new();
    let mut it = sq.edges((0, 0).into());
    while let Some(e) = it.next() {
        targets.push(pos(e.target()));
    }
    assert_eq!(targets, vec![(1, 0), (0, 1)]);

    let mut weights = Vec::new();
    let mut it = sq.edges((0, 0).into());
    while let Some(e) = it.next() {
        weights.push(*e.weight());
    }
    assert_eq!(weights, vec![0, 0]);

    let mut weights = Vec::new();
    let mut it = sq.edges((1, 1).into());
    while let Some(e) = it.next() {
        weights.push(*e.weight());
    }
    assert_eq!(weights, vec![2, 3, -1, -3]);

    let mut targets = Vec::new();
    let mut it = sq.edges((1, 2).into());
    while let Some(e) = it.next() {
        targets.push(pos(e.target()));
    }
    assert_eq!(targets, vec![(0, 2), (2, 2), (1, 1), (1, 3)]);
}

#[test]
fn tests_edge_references() {
    let sq = sample(3, 5);

    let mut i = 0;
    let mut x = -1;
    let mut it = sq.edge_references();
    while let Some(e) = it.next() {
        if e.id().axis != Axis::Horizontal {
            continue;
        }
        let y = sq.to_index(e.id().node) as i32;
        assert!(x < y);
        x = y;
        i += 1;
    }
    assert_eq!(i, 10);
    x = -1;
    i = 0;
    let mut it = sq.edge_references();
    while let Some(e) = it.next() {
        if e.id().axis != Axis::Vertical {
            continue;
        }
        let y = sq.to_index(e.id().node) as i32;
        assert!(x < y);
        x = y;
        i += 1;
    }
    assert_eq!(i, 12);
}

#[test]
fn square_distance() {
    let n = NodeIndex::<u32>::from((0, 0));
    assert_eq!(n.distance((2, 1)), 3);
    let n = NodeIndex::<u32>::from((3, 1));
    assert_eq!(n.distance((0, 4)), 6);
    assert_eq!(n.distance((3, 1)), 0);
}

#[test]
fn square_node_index_steps() {
    let n = NodeIndex::<u32>::from((2, 2));
    assert_eq!(pos(n.up()), (2, 3));
    assert_eq!(pos(n.down()), (2, 1));
    assert_eq!(pos(n.left()), (1, 2));
    assert_eq!(pos(n.right()), (3, 2));
    assert!(n == (2, 2));
    assert!(!(n == (2, 3)));
}

#[test]
fn square_get_edge_id() {
    let sq = sample(3, 5);
    // Leaving (1, 1) to the right is the horizontal edge of (1, 1), forward.
    assert_eq!(
        sq.get_edge_id((1, 1).into(), SquareDirection::right()),
        Some((eid(1, 1, Axis::Horizontal), true))
    );
    // Leaving (1, 1) to the left is the horizontal edge of (0, 1), backward.
    assert_eq!(
        sq.get_edge_id((1, 1).into(), SquareDirection::left()),
        Some((eid(0, 1, Axis::Horizontal), false))
    );
    assert_eq!(sq.get_edge_id((0, 1).into(), SquareDirection::left()), None);
    assert_eq!(sq.get_edge_id((1, 4).into(), SquareDirection::up()), None);
    assert_eq!(
        sq.get_edge_id((1, 0).into(), SquareDirection::down()),
        None
    );
}

#[test]
fn square_horizontal_loop_neighbors() {
    let sq = SquareGraph::<_, _, u32, HorizontalLoop>::new_with(
        3,
        2,
        |x, y| x + 2 * y,
        |x, y, _d| (x + 2 * y) as i32,
    );
    let mut out = Vec::new();
    let mut it = sq.neighbors((0, 0).into());
    while let Some(n) = it.next() {
        out.push(pos(n));
    }
    // The left neighbour of the first column is the last column.
    assert!(out.contains(&(2, 0)));
    assert!(out.contains(&(1, 0)));
    assert!(out.contains(&(0, 1)));
    assert_eq!(out.len(), 3);
    // Every column has a horizontal edge, the last one wraps to the first.
    assert_eq!(sq.edge_weight(eid(2, 0, Axis::Horizontal)), Some(&2));
}

#[test]
fn square_vertical_loop_edges() {
    let sq = SquareGraph::<_, _, u32, VerticalLoop>::new_with(
        2,
        3,
        |x, y| x + 2 * y,
        |x, y, _d| (x + 2 * y) as i32,
    );
    assert_eq!(sq.edge_weight(eid(0, 2, Axis::Vertical)), Some(&4));
    assert_eq!(sq.edge_weight(eid(1, 0, Axis::Horizontal)), None);
    let sq = SquareGraph::<_, _, u32, HVLoop>::new_with(2, 3, |_x, _y| 0, |_x, _y, _d| 1);
    let mut count = 0;
    let mut it = sq.edge_references();
    while let Some(_e) = it.next() {
        count += 1;
    }
    assert_eq!(count, 12);
}

#[test]
fn square_visit_map() {
    let sq = sample(3, 5);
    let mut map = sq.visit_map();
    assert!(map.visit(NodeIndex::<u32>::from((2, 4))));
    assert!(!map.visit(NodeIndex::<u32>::from((2, 4))));
    assert!(map.is_visited(&NodeIndex::<u32>::from((2, 4))));
    assert!(!map.is_visited(&NodeIndex::<u32>::from((2, 3))));
    sq.reset_map(&mut map);
    assert!(!map.is_visited(&NodeIndex::<u32>::from((2, 4))));
}

#[test]
fn square_weight_mut() {
    let mut sq = sample(3, 5);
    if let Some(w) = sq.node_weight_mut((2, 4).into()) {
        *w = 99;
    }
    assert_eq!(sq.node_weight((2, 4).into()), Some(&99));
    assert_eq!(sq.node_weight((2, 3).into()), Some(&8));
    if let Some(w) = sq.edge_weight_mut(eid(1, 1, Axis::Vertical)) {
        *w = 42;
    }
    assert_eq!(sq.edge_weight(eid(1, 1, Axis::Vertical)), Some(&42));
    assert_eq!(sq.edge_weight(eid(1, 1, Axis::Horizontal)), Some(&3));
    assert!(sq.edge_weight_mut(eid(1, 4, Axis::Vertical)).is_none());
    assert_eq!(sq.node_count(), 15);
}

#[test]
fn square_node_references_left() {
    let sq = sample(3, 5);
    let mut it = sq.node_references();
    assert_eq!(it.size_hint(), (15, Some(15)));
    let first = it.next().unwrap();
    assert_eq!(pos(first.0), (0, 0));
    assert_eq!(*first.1, 0);
    let second = it.next().unwrap();
    assert_eq!(pos(second.0), (0, 1));
    assert_eq!(*second.1, 2);
    assert_eq!(it.size_hint(), (13, Some(13)));
    assert_eq!(it.count(), 13);
}

#[test]
fn square_edge_references() {
    let sq = sample(3, 5);
    let mut horizontal = Vec::new();
    let mut vertical = Vec::new();
    let mut it = sq.edge_references();
    while let Some(e) = it.next() {
        let y = sq.to_index(e.id().node) as i32;
        match e.id().axis {
            Axis::Horizontal => horizontal.push(y),
            Axis::Vertical => vertical.push(y),
        }
    }
    assert_eq!(horizontal.len(), 10);
    assert_eq!(vertical.len(), 12);
    assert!(horizontal.windows(2).all(|w| w[0] < w[1]));
    assert!(vertical.windows(2).all(|w| w[0] < w[1]));
}

#[test]
fn square_loop_edge_id_is_the_nodes_own() {
    let g = SquareGraph::<(), (), usize, HorizontalLoop>::new(3, 5);
    let node = NodeIndex::<usize>::new(2, 1);
    let e = EdgeIndex { node, axis: Axis::Horizontal };
    assert_eq!(g.get_edge_id(node, SquareDirection::right()), Some((e, true)));
    let r = g.get_edge_reference(node, SquareDirection::right()).unwrap();
    assert_eq!(r.source(), node);
    assert_eq!(r.target(), NodeIndex::<usize>::new(0, 1));
    // Leaving column 0 to the left takes the edge of the last column backward.
    let r = g.get_edge_reference(NodeIndex::new(0, 1), SquareDirection::left()).unwrap();
    assert_eq!(r.source(), NodeIndex::<usize>::new(0, 1));
    assert_eq!(r.target(), node);
}

#[test]
fn square_node_indices_left() {
    let sq = SquareGraph::<_, _, u32>::new_with(3, 5, |_x, _y| (), |_x, _y, _d| ());
    let mut it = sq.node_identifiers();
    assert_eq!(it.size_hint(), (15, Some(15)));
    it.next();
    assert_eq!(it.size_hint(), (14, Some(14)));
    let mut left = 14;
    while it.next().is_some() {
        left -= 1;
        if left > 0 {
            assert_eq!(it.size_hint(), (left, Some(left)));
        }
    }
    assert_eq!(left, 0);
}
