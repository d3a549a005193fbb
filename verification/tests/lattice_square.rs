use lattice_graph::lattice_abstract::shapes::{Offset, Shape};
use lattice_graph::lattice_abstract::square::{
    DirectedSquareAxis, SquareAxis, SquareGraphAbstract, SquareOffset, SquareShape,
};

type SquareGraph<N, E> = SquareGraphAbstract<N, E>;

fn pos(x: SquareOffset) -> (usize, usize) {
    (x.0.horizontal, x.0.vertical)
}

fn sample(h: usize, v: usize) -> SquareGraph<usize, i32> {
    SquareGraph::new_with(
        SquareShape::new(h, v),
        |SquareOffset(Offset {
             horizontal: x,
             vertical: y,
         })| x + 2 * y,
        |SquareOffset(Offset {
             horizontal: x,
             vertical: y,
         }),
         _d| (x + 2 * y) as i32,
    )
}

#[test]
fn square_gen() {
    let sq = sample(4, 3);
    assert_eq!(sq.shape().horizontal(), 4);
    assert_eq!(sq.shape().vertical(), 3);
    assert_eq!(sq.node_weight((0, 0).into()), Some(&0));
    assert_eq!(sq.node_weight((0, 1).into()), Some(&2));
    assert_eq!(sq.node_weight((1, 0).into()), Some(&1));
    assert_eq!(sq.node_weight((2, 0).into()), Some(&2));
    assert_eq!(sq.node_weight((3, 0).into()), Some(&3));
    assert_eq!(sq.node_weight((4, 0).into()), None);
    assert_eq!(sq.node_weight((0, 2).into()), Some(&4));
    assert_eq!(sq.node_weight((0, 3).into()), None);
    assert_eq!(sq.edge_weight(((0, 0).into(), SquareAxis::X)), Some(&0));
    assert_eq!(sq.edge_weight(((0, 2).into(), SquareAxis::X)), Some(&4));
    assert_eq!(sq.edge_weight(((0, 2).into(), SquareAxis::Y)), None);
    assert_eq!(sq.edge_weight(((3, 0).into(), SquareAxis::X)), None);
    assert_eq!(sq.edge_weight(((3, 0).into(), SquareAxis::Y)), Some(&3));
}

#[test]
fn square_node_identifiers() {
    let sq = SquareGraph::new_with(
        SquareShape::new(4, 3),
        |SquareOffset(Offset {
             horizontal: x,
             vertical: y,
         })| x + 2 * y,
        |SquareOffset(Offset {
             horizontal: x,
             vertical: y,
         }),
         _d| Some((x + 2 * y) as i32),
    );
    let mut count = 0;
    let mut it = sq.node_identifiers();
    while let Some(x) = it.next() {
        let x2 = sq.to_index(x);
        assert_eq!(x2, count);
        let x3 = sq.from_index(x2);
        assert_eq!(x, x3);
        count += 1;
    }
    assert_eq!(count, 12);
}

fn neighbors_of(sq: &SquareGraph<usize, i32>, x: usize, y: usize) -> Vec<(usize, usize)> {
    let mut out = Vec::new();
    let mut it = sq.neighbors((x, y).into());
    while let Some(n) = it.next() {
        out.push(pos(n));
    }
    out
}

#[test]
fn square_neighbors() {
    let sq = sample(3, 5);
    assert_eq!(neighbors_of(&sq, 0, 0), vec![(1, 0), (0, 1)]);
    assert_eq!(neighbors_of(&sq, 0, 4), vec![(1, 4), (0, 3)]);
    assert_eq!(neighbors_of(&sq, 2, 0), vec![(2, 1), (1, 0)]);
    assert_eq!(neighbors_of(&sq, 2, 4), vec![(1, 4), (2, 3)]);
    assert_eq!(neighbors_of(&sq, 1, 2), vec![(2, 2), (1, 3), (0, 2), (1, 1)]);
}

#[test]
fn square_edges() {
    let sq = sample(3, 5);

    let mut targets = Vec::new();
    let mut it = sq.edges((0, 0).into());
    while let Some(e) = it.next() {
        targets.push(pos(e.target()));
    }
    assert_eq!(targets, vec![(1, 0), (0, 1)]);

    let mut weights = Vec::new();
    let mut it = sq.edges((0, 0).into());
    while let Some(e) = it.next() {
        weights.push(*e.weight());
    }
    assert_eq!(weights, vec![0, 0]);

    let mut weights = Vec::new();
    let mut it = sq.edges((1, 1).into());
    while let Some(e) = it.next() {
        weights.push(*e.weight());
    }
    assert_eq!(weights, vec![3, 3, 2, 1]);

    let mut targets = Vec::new();
    let mut it = sq.edges((1, 2).into());
    while let Some(e) = it.next() {
        targets.push(pos(e.target()));
    }
    assert_eq!(targets, vec![(2, 2), (1, 3), (0, 2), (1, 1)]);
}

#[test]
fn square_edges_directions_and_sources() {
    let sq = sample(3, 5);
    let mut dirs = Vec::new();
    let mut it = sq.edges((1, 1).into());
    while let Some(e) = it.next() {
        assert_eq!(pos(e.source()), (1, 1));
        dirs.push(*e.direction());
    }
    assert_eq!(
        dirs,
        vec![
            DirectedSquareAxis::X,
            DirectedSquareAxis::Y,
            DirectedSquareAxis::RX,
            DirectedSquareAxis::RY
        ]
    );
}

#[test]
fn square_edge_references_count() {
    let sq = sample(3, 5);
    let mut horizontal = 0;
    let mut vertical = 0;
    let mut it = sq.edge_references();
    while let Some(e) = it.next() {
        match e.id().1 {
            SquareAxis::X => horizontal += 1,
            SquareAxis::Y => vertical += 1,
        }
    }
    // 2 horizontal edges in each of 5 rows, 4 vertical edges in each of 3 columns.
    assert_eq!(horizontal, 10);
    assert_eq!(vertical, 12);
}

#[test]
fn square_weight_mut_writes_one_node() {
    let mut sq = sample(3, 5);
    if let Some(w) = sq.node_weight_mut((1, 2).into()) {
        *w = 100;
    }
    assert_eq!(sq.node_weight((1, 2).into()), Some(&100));
    assert_eq!(sq.node_weight((1, 1).into()), Some(&3));
    assert!(sq.node_weight_mut((3, 0).into()).is_none());

    if let Some(w) = sq.edge_weight_mut(((0, 0).into(), SquareAxis::Y)) {
        *w = -7;
    }
    assert_eq!(sq.edge_weight(((0, 0).into(), SquareAxis::Y)), Some(&-7));
    assert_eq!(sq.edge_weight(((0, 0).into(), SquareAxis::X)), Some(&0));
    assert!(sq.edge_weight_mut(((2, 0).into(), SquareAxis::X)).is_none());
}

#[test]
fn square_counts_and_adjacency() {
    let sq = sample(3, 5);
    assert_eq!(sq.node_count(), 15);
    assert_eq!(sq.node_bound(), 15);
    assert!(sq.is_adjacent((1, 1).into(), (1, 2).into()));
    assert!(sq.is_adjacent((1, 1).into(), (0, 1).into()));
    assert!(!sq.is_adjacent((1, 1).into(), (2, 2).into()));
    assert!(!sq.is_adjacent((1, 1).into(), (1, 1).into()));
}

#[test]
fn lattice_square_visit_map() {
    let sq = sample(3, 5);
    let mut map = sq.visit_map();
    assert!(!map.is_visited(&(1, 1).into()));
    assert!(map.visit((1, 1).into()));
    assert!(map.is_visited(&(1, 1).into()));
    assert!(!map.visit((1, 1).into()));
    assert!(!map.is_visited(&(1, 2).into()));
    sq.reset_map(&mut map);
    assert!(!map.is_visited(&(1, 1).into()));
}

#[test]
fn square_node_references() {
    let sq = sample(2, 2);
    let mut out = Vec::new();
    let mut it = sq.node_references();
    while let Some((c, w)) = it.next() {
        out.push((pos(c), *w));
    }
    assert_eq!(out, vec![((0, 0), 0), ((0, 1), 2), ((1, 0), 1), ((1, 1), 3)]);
}
