use lattice_graph::hex::axial_based::{HexAxial, HexAxialShape};
use lattice_graph::hex::double_coord::{DoubleCoord, DoubleCoordShape};
use lattice_graph::hex::offset_based::{HexOffset, HexOffsetShape};
use lattice_graph::hex::shapes::{AxisDQ, AxisDR, AxisR, OddQ, OddR, LEW};
use lattice_graph::lattice_abstract::shapes::{Offset, Shape};
use lattice_graph::lattice_abstract::square::{DirectedSquareAxis, SquareOffset, SquareShape};

const DR: [AxisDR; 6] = [
    AxisDR::NE,
    AxisDR::E,
    AxisDR::SE,
    AxisDR::SW,
    AxisDR::W,
    AxisDR::NW,
];

fn back_r(d: AxisDR) -> AxisDR {
    match d {
        AxisDR::NE => AxisDR::SW,
        AxisDR::E => AxisDR::W,
        AxisDR::SE => AxisDR::NW,
        AxisDR::SW => AxisDR::NE,
        AxisDR::W => AxisDR::E,
        AxisDR::NW => AxisDR::SE,
    }
}

#[test]
fn square_move_and_back() {
    let s = SquareShape::<petgraph::Undirected>::new(3, 3);
    let c = SquareOffset(Offset::new(1, 1));
    let moved = s.move_coord(c, DirectedSquareAxis::X).unwrap();
    assert_eq!(moved, SquareOffset(Offset::new(2, 1)));
    assert_eq!(s.move_coord(moved, DirectedSquareAxis::RX), Ok(c));
    let moved = s.move_coord(c, DirectedSquareAxis::RY).unwrap();
    assert_eq!(moved, SquareOffset(Offset::new(1, 0)));
    assert_eq!(s.move_coord(moved, DirectedSquareAxis::Y), Ok(c));
    // Leaving the lattice fails.
    assert!(s.move_coord(SquareOffset(Offset::new(2, 1)), DirectedSquareAxis::X).is_err());
    assert!(s.move_coord(SquareOffset(Offset::new(1, 0)), DirectedSquareAxis::RY).is_err());
}

#[test]
fn hex_offset_r_move_and_back() {
    let s = HexOffsetShape::<OddR, (), usize, usize>::new(5, 5);
    let c = HexOffset::new(1, 1);
    assert_eq!(s.move_coord(c, AxisDR::NE), Ok(HexOffset::new(2, 2)));
    for x in 0..5 {
        for y in 0..5 {
            let c = HexOffset::new(x, y);
            for d in DR {
                if let Ok(m) = s.move_coord(c, d) {
                    assert_eq!(s.move_coord(m, back_r(d)), Ok(c));
                }
            }
        }
    }
}

#[test]
fn hex_offset_r_lew_move_and_back() {
    let s = HexOffsetShape::<OddR, LEW, usize, usize>::new(5, 5);
    // West of the first column is the last column.
    assert_eq!(
        s.move_coord(HexOffset::new(0, 0), AxisDR::W),
        Ok(HexOffset::new(4, 0))
    );
    for x in 0..5 {
        for y in 0..5 {
            let c = HexOffset::new(x, y);
            for d in DR {
                if let Ok(m) = s.move_coord(c, d) {
                    assert_eq!(s.move_coord(m, back_r(d)), Ok(c));
                }
            }
        }
    }
}

#[test]
fn hex_offset_q_move_not_reversible() {
    // In flat top offset coordinates a step north east from the first row is not undone
    // by a step south west.
    let s = HexOffsetShape::<OddQ, (), usize, usize>::new(5, 5);
    let c = HexOffset::new(0, 1);
    let m = s.move_coord(c, AxisDQ::NE).unwrap();
    assert_eq!(m, HexOffset::new(1, 1));
    assert_eq!(s.move_coord(m, AxisDQ::SW), Ok(HexOffset::new(0, 0)));
}

#[test]
fn hex_axial_move_and_back() {
    let s = HexAxialShape::<OddR, (), usize, usize>::new(5, 5);
    let c = HexAxial::new(1, 1);
    for d in DR {
        if let Ok(m) = s.move_coord(c, d) {
            assert_eq!(s.move_coord(m, back_r(d)), Ok(c));
        }
    }
    assert_eq!(s.to_offset(HexAxial::new(1, 1)).is_ok(), true);
    let o = Offset::new(2, 3);
    assert_eq!(s.to_offset(s.from_offset(o)), Ok(o));
}

#[test]
fn hex_axial_lew_move_and_back() {
    let s = HexAxialShape::<OddR, LEW, usize, usize>::new(3, 3);
    // Row 2 holds r from -1 to 1; west of r = -1 is r = 1.
    let c = HexAxial::new(-1, 2);
    let m = s.move_coord(c, AxisDR::W).unwrap();
    assert_eq!(m, HexAxial::new(1, 2));
    assert_eq!(s.move_coord(m, AxisDR::E), Ok(c));
    assert!(s.to_offset(m).is_ok());
    for r in -1..3 {
        for q in 0..3 {
            let c = HexAxial::new(r, q);
            if s.to_offset(c).is_err() {
                continue;
            }
            for d in DR {
                if let Ok(m) = s.move_coord(c, d) {
                    assert!(s.to_offset(m).is_ok());
                    assert_eq!(s.move_coord(m, back_r(d)), Ok(c));
                }
            }
        }
    }
}

#[test]
fn double_coord_moves() {
    let s = DoubleCoordShape::<OddR, (), usize, usize, AxisR>::new(3, 3);
    let c = DoubleCoord::new(1, 1);
    let m = s.move_coord(c, AxisDR::NE).unwrap();
    assert_eq!(m, DoubleCoord::new(2, 2));
    assert!(s.is_neighbor(c, m));
    assert!(s.is_neighbor(m, c));
    assert_eq!(s.move_coord(m, AxisDR::SW), Ok(c));
    assert!(!s.is_neighbor(c, DoubleCoord::new(1, 3)));
    // The doubled horizontal coordinate stays below twice the node count of a row.
    assert_eq!(s.move_coord(c, AxisDR::E), Ok(DoubleCoord::new(3, 1)));
    assert!(s.move_coord(DoubleCoord::new(5, 1), AxisDR::E).is_err());
    assert_eq!(s.move_coord(DoubleCoord::new(0, 1), AxisDR::E), Ok(DoubleCoord::new(2, 1)));
}

#[test]
fn double_coord_east_to_last_column() {
    let s = DoubleCoordShape::<OddR, (), usize, usize, AxisR>::new(5, 5);
    let a = DoubleCoord::new(4, 0);
    let b = DoubleCoord::new(6, 0);
    assert_eq!(s.to_offset(a), Ok(Offset::new(2, 0)));
    assert_eq!(s.to_offset(b), Ok(Offset::new(3, 0)));
    assert!(s.is_neighbor(a, b));
    assert_eq!(s.move_coord(a, AxisDR::E), Ok(b));
    assert_eq!(s.get_direction(a, b), Some(AxisDR::E));
}

#[test]
fn hex_offset_q_lew_moves_inside() {
    let plain = HexOffsetShape::<OddQ, (), usize, usize>::new(5, 5);
    let looped = HexOffsetShape::<OddQ, LEW, usize, usize>::new(5, 5);
    let c = HexOffset::new(1, 1);
    assert_eq!(plain.move_coord(c, AxisDQ::N), Ok(HexOffset::new(1, 2)));
    assert_eq!(looped.move_coord(c, AxisDQ::N), Ok(HexOffset::new(1, 2)));
    for x in 0..5 {
        for y in 0..5 {
            let c = HexOffset::new(x, y);
            for d in [AxisDQ::N, AxisDQ::NE, AxisDQ::SE, AxisDQ::S, AxisDQ::SW, AxisDQ::NW] {
                if let Ok(m) = plain.move_coord(c, d) {
                    assert_eq!(looped.move_coord(c, d), Ok(m));
                }
            }
        }
    }
}

#[test]
fn hex2d_direction_indices() {
    let yz = hex2d::Direction::YZ.to_int::<i32>() as usize;
    let xz = hex2d::Direction::XZ.to_int::<i32>() as usize;
    let yx = hex2d::Direction::YX.to_int::<i32>() as usize;
    assert_eq!(AxisDR::from_hex2d_index(yz), AxisDR::NW);
    assert_eq!(AxisDR::from_hex2d_index(xz), AxisDR::NE);
    assert_eq!(AxisDR::from_hex2d_index(yx), AxisDR::W);
    assert_eq!(AxisDQ::from_hex2d_index(yz), AxisDQ::N);
    assert_eq!(AxisDQ::from_hex2d_index(xz), AxisDQ::NE);
    for d in DR {
        assert_eq!(AxisDR::from_hex2d_index(d.hex2d_index()), d);
    }
    assert_eq!(AxisDR::NE.hex2d_index(), xz);
}

#[test]
fn double_coord_offsets() {
    let s = DoubleCoordShape::<OddR, (), usize, usize, AxisR>::new(3, 4);
    let o = Offset::new(1, 1);
    let c = s.from_offset(o);
    assert_eq!(c, DoubleCoord::new(3, 1));
    assert_eq!(s.to_offset(c), Ok(o));
    assert_eq!(s.from_offset(Offset::new(2, 2)), DoubleCoord::new(4, 2));
    assert!(s.to_offset(DoubleCoord::new(6, 0)).is_err());
    assert!(s.to_offset(DoubleCoord::new(0, 4)).is_err());
}

#[test]
fn hex_offset_q_north_east_from_top_row() {
    // From an even column the step north-east does not check the row.
    let plain = HexOffsetShape::<OddQ, (), usize, usize>::new(5, 5);
    assert_eq!(plain.move_coord(HexOffset::new(1, 4), AxisDQ::NE), Ok(HexOffset::new(2, 5)));
    let looped = HexOffsetShape::<OddQ, LEW, usize, usize>::new(5, 5);
    assert_eq!(looped.move_coord(HexOffset::new(4, 4), AxisDQ::NE), Ok(HexOffset::new(0, 5)));
}

#[test]
fn defaults_are_the_origin() {
    assert_eq!(HexAxial::default(), HexAxial::new(0, 0));
    assert_eq!(HexAxial::new(3, -2).r(), 3);
    assert_eq!(HexAxial::new(3, -2).q(), -2);
    assert_eq!(HexOffset::default(), HexOffset::new(0, 0));
    assert_eq!(Offset::default(), Offset::new(0, 0));
    assert_eq!(SquareOffset::default(), SquareOffset(Offset::new(0, 0)));
}
