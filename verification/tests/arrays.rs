use lattice_graph::array2::Array2;
use lattice_graph::array2d::Array2D;
use lattice_graph::fixedvec2d::FixedVec2D;

#[test]
fn array2_gen() {
    let x = Array2::new(5, 2, |h, v| (h, v));
    for i in 0..5 {
        for j in 0..2 {
            assert_eq!(x.ref_2d()[i][j], (i, j));
        }
    }
}

#[test]
fn array2_ref_1d() {
    let x = Array2::new(5, 2, |h, v| (h, v));
    for i in 0..5 {
        for j in 0..2 {
            assert_eq!(x.ref_1d()[j + i * 2], (i, j));
        }
    }
}

#[test]
fn array2_gen_zst() {
    let x = Array2::new(5, 2, |_h, _v| ());
    for i in 0..5 {
        for j in 0..2 {
            assert_eq!(x.ref_2d()[i][j], ());
        }
    }
}

#[test]
fn array2d_gen_0() {
    let x = Array2D::new(5, 0, |h, v| (h, v));
    let ar2d = x.ref_2d();
    assert_eq!(ar2d.len(), 5);
    assert_eq!(ar2d.get(0).map(|x| x.len()), Some(0));
    let ar1d = x.ref_1d();
    assert_eq!(ar1d.len(), 0);
}

#[test]
fn array2d_gen() {
    let x = Array2D::new(5, 2, |h, v| (h, v));
    for i in 0..5 {
        for j in 0..2 {
            assert_eq!(x.ref_2d()[i][j], (i, j));
        }
    }
}

#[test]
fn array2d_ref_1d() {
    let x = Array2D::new(5, 2, |h, v| (h, v));
    for i in 0..5 {
        for j in 0..2 {
            assert_eq!(x.ref_1d()[j + i * 2], (i, j));
        }
    }
}

#[test]
fn array2d_gen_zst() {
    let x = Array2D::new(5, 2, |_h, _v| ());
    for i in 0..5 {
        for j in 0..2 {
            assert_eq!(x.ref_2d()[i][j], ());
        }
    }
}

#[test]
fn array2d_clone() {
    let x = Array2D::new(5, 2, |h, v| (h, v));
    let mut y = x.clone();
    for i in 0..5 {
        for j in 0..2 {
            let yv = &mut y.mut_1d()[j + i * 2];
            assert_eq!(x.ref_2d()[i][j], *yv);
            *yv = (yv.0 + 1, yv.1);
            assert_ne!(x.ref_2d()[i][j], y.mut_1d()[j + i * 2]);
        }
    }
    drop(x);
    for i in 0..5 {
        for j in 0..2 {
            assert_eq!(y.ref_2d()[i][j], (i + 1, j));
        }
    }
}

#[test]
fn fixedvec2d_gen_0() {
    let x = FixedVec2D::new(5, 0, |h, v| (h, v));
    let ar2d = x.ref_2d();
    assert_eq!(ar2d.len(), 5);
    assert_eq!(ar2d.get(0).map(|x| x.len()), Some(0));
    let ar1d = x.ref_1d();
    assert_eq!(ar1d.len(), 0);
}

#[test]
fn fixedvec2d_gen() {
    let x = FixedVec2D::new(5, 2, |h, v| (h, v));
    for i in 0..5 {
        for j in 0..2 {
            assert_eq!(x.ref_2d()[i][j], (i, j));
        }
    }
}

#[test]
fn fixedvec2d_ref_1d() {
    let x = FixedVec2D::new(5, 2, |h, v| (h, v));
    for i in 0..5 {
        for j in 0..2 {
            assert_eq!(x.ref_1d()[j + i * 2], (i, j));
        }
    }
}

#[test]
fn fixedvec2d_gen_zst() {
    let x = FixedVec2D::new(5, 2, |_h, _v| ());
    for i in 0..5 {
        for j in 0..2 {
            assert_eq!(x.ref_2d()[i][j], ());
        }
    }
}

#[test]
fn fixedvec2d_clone() {
    let x = FixedVec2D::new(5, 2, |h, v| (h, v));
    let mut y = x.clone();
    for i in 0..5 {
        for j in 0..2 {
            let yv = y.index_mut((i, j));
            assert_eq!(x.ref_2d()[i][j], *yv);
            *yv = (yv.0 + 1, yv.1);
            assert_ne!(x.ref_2d()[i][j], *y.index_mut((i, j)));
        }
    }
    drop(x);
    for i in 0..5 {
        for j in 0..2 {
            assert_eq!(y.ref_2d()[i][j], (i + 1, j));
        }
    }
}

#[test]
fn array2_from_raw_and_get() {
    let x = Array2::from_raw(2, 3, vec![0, 1, 2, 3, 4, 5]);
    assert_eq!(x.h_size(), 2);
    assert_eq!(x.v_size(), 3);
    assert_eq!(x.size(), 6);
    assert_eq!(x.get((1, 2)), Some(&5));
    assert_eq!(x.get((2, 0)), None);
    assert_eq!(x.get((0, 3)), None);
    assert_eq!(x.into_raw(), vec![0, 1, 2, 3, 4, 5]);
}

#[test]
fn array2_empty_rows() {
    let x = Array2::new(0, 4, |h, v| h + v);
    assert_eq!(x.size(), 0);
    assert_eq!(x.ref_2d().len(), 0);
}

#[test]
fn fixedvec2d_from_raw_checks_length() {
    assert!(FixedVec2D::from_raw(2, 3, vec![1u8; 5]).is_none());
    let x = FixedVec2D::from_raw(2, 3, vec![1u8; 6]).unwrap();
    assert_eq!(*x.index((1, 2)), 1);
    assert_eq!(x.size(), 6);
}
