//! Hex graph with double coordinates.
//! It doesn't have an even offset column/rows right now.
pub mod shapes;
use crate::lattice_abstract::shapes::{LatticeSize, Offset, Shape};
use crate::lattice_abstract::{edge_fn_ok, in_lattice, node_fn_ok, shape_ok, LatticeGraph};
pub use shapes::{ConstDoubleCoordShape, DoubleCoord, DoubleCoordShape};
use shapes::DoubleCoordShapeBase;
use crate::hex::shapes::OddR;
use vstd::prelude::*;

verus! {

/// Hex graph with double coordinates.
pub type HexGraph<N, E, B = OddR, L = (), H = usize, V = usize> = LatticeGraph<
    N,
    E,
    DoubleCoordShape<B, L, H, V>,
>;

/// Hex graph with double coordinates and a size fixed by const generics.
pub type HexGraphConst<N, E, B, const H: usize, const V: usize> = LatticeGraph<
    N,
    E,
    ConstDoubleCoordShape<B, (), H, V>,
>;

impl<N, E, B, L, const H: usize, const V: usize> LatticeGraph<N, E, ConstDoubleCoordShape<B, L, H, V>> where
    B: DoubleCoordShapeBase,
    ConstDoubleCoordShape<B, L, H, V>: Shape,
 {
    /// Creates a graph with node and edge weights set to [`default`](`Default::default`) on
    /// the shape of const size.
    pub fn new_s() -> (r: Self)
        where
            N: Default,
            E: Default,
        requires
            forall|s: ConstDoubleCoordShape<B, L, H, V>|
                s.h().spec_size() == H && s.v().spec_size() == V ==> #[trigger] shape_ok(s),
        ensures
            r.wf(),
            r.spec_shape().h().spec_size() == H,
            r.spec_shape().v().spec_size() == V,
    {
        let s = ConstDoubleCoordShape::<B, L, H, V>::default();
        assert(shape_ok(s));
        Self::new(s)
    }

    /// Creates a graph with node and edge weights from the coordinate on the shape of const
    /// size; see [`new_with`](`LatticeGraph::new_with`).
    pub fn new_with_s<FN, FE>(n: FN, e: FE) -> (r: Self)
        where
            FN: Fn(<ConstDoubleCoordShape<B, L, H, V> as Shape>::Coordinate) -> N,
            FE: Fn(<ConstDoubleCoordShape<B, L, H, V> as Shape>::Coordinate, <ConstDoubleCoordShape<B, L, H, V> as Shape>::Axis) -> E,
        requires
            forall|s: ConstDoubleCoordShape<B, L, H, V>|
                s.h().spec_size() == H && s.v().spec_size() == V ==> #[trigger] shape_ok(s),
            forall|s: ConstDoubleCoordShape<B, L, H, V>|
                s.h().spec_size() == H && s.v().spec_size() == V ==> #[trigger] node_fn_ok(&s, &n),
            forall|s: ConstDoubleCoordShape<B, L, H, V>|
                s.h().spec_size() == H && s.v().spec_size() == V ==> #[trigger] edge_fn_ok(&s, &e),
        ensures
            r.wf(),
            r.spec_shape().h().spec_size() == H,
            r.spec_shape().v().spec_size() == V,
            forall|o: Offset|
                in_lattice(o, r.spec_shape().spec_horizontal(), r.spec_shape().spec_vertical())
                    ==> call_ensures(n, (r.spec_shape().spec_from_offset(o),), #[trigger] r.spec_node_at(o)),
            forall|o: Offset, a: <ConstDoubleCoordShape<B, L, H, V> as Shape>::Axis|
                in_lattice(o, r.spec_shape().spec_horizontal(), r.spec_shape().spec_vertical())
                    ==> match #[trigger] r.spec_edge_at(o, a) {
                    Some(w) => call_ensures(e, (r.spec_shape().spec_from_offset(o), a), w),
                    None => true,
                },
    {
        let s = ConstDoubleCoordShape::<B, L, H, V>::default();
        assert(shape_ok(s));
        Self::new_with(s, n, e)
    }
}

} // verus!
