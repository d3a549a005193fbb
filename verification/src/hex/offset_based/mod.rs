//! Hex graph with offset coordinates: the coordinate is the position in the storage.
pub mod shapes;
use crate::lattice_abstract::shapes::{LatticeSize, Offset, Shape};
use crate::lattice_abstract::{edge_fn_ok, in_lattice, node_fn_ok, shape_ok, LatticeGraph};
use shapes::ConstHexOffsetShape;
use crate::hex::shapes::LEW;
pub use shapes::{HexOffset, HexOffsetShape};
use vstd::prelude::*;

verus! {

/// Hex graph with offset coordinates.
pub type HexGraph<N, E, B, H = usize, V = usize> = LatticeGraph<N, E, HexOffsetShape<B, (), H, V>>;

/// Hex graph with offset coordinates that loops east-west.
pub type HexGraphLoopEW<N, E, B, H = usize, V = usize> = LatticeGraph<
    N,
    E,
    HexOffsetShape<B, LEW, H, V>,
>;

/// Hex graph with offset coordinates and a size fixed by const generics.
pub type HexGraphConst<N, E, B, const H: usize, const V: usize> = LatticeGraph<
    N,
    E,
    ConstHexOffsetShape<B, (), H, V>,
>;

/// Hex graph with offset coordinates that loops east-west, with a size fixed by const
/// generics.
pub type HexGraphConstLoopEW<N, E, B, const H: usize, const V: usize> = LatticeGraph<
    N,
    E,
    ConstHexOffsetShape<B, LEW, H, V>,
>;

impl<N, E, B, L, const H: usize, const V: usize> LatticeGraph<N, E, ConstHexOffsetShape<B, L, H, V>> where
    ConstHexOffsetShape<B, L, H, V>: Shape,
 {
    /// Creates a graph with node and edge weights set to [`default`](`Default::default`) on
    /// the shape of const size.
    pub fn new_s() -> (r: Self)
        where
            N: Default,
            E: Default,
        requires
            forall|s: ConstHexOffsetShape<B, L, H, V>|
                s.h().spec_size() == H && s.v().spec_size() == V ==> #[trigger] shape_ok(s),
        ensures
            r.wf(),
            r.spec_shape().h().spec_size() == H,
            r.spec_shape().v().spec_size() == V,
    {
        let s = ConstHexOffsetShape::<B, L, H, V>::default();
        assert(shape_ok(s));
        Self::new(s)
    }

    /// Creates a graph with node and edge weights from the coordinate on the shape of const
    /// size; see [`new_with`](`LatticeGraph::new_with`).
    pub fn new_with_s<FN, FE>(n: FN, e: FE) -> (r: Self)
        where
            FN: Fn(<ConstHexOffsetShape<B, L, H, V> as Shape>::Coordinate) -> N,
            FE: Fn(<ConstHexOffsetShape<B, L, H, V> as Shape>::Coordinate, <ConstHexOffsetShape<B, L, H, V> as Shape>::Axis) -> E,
        requires
            forall|s: ConstHexOffsetShape<B, L, H, V>|
                s.h().spec_size() == H && s.v().spec_size() == V ==> #[trigger] shape_ok(s),
            forall|s: ConstHexOffsetShape<B, L, H, V>|
                s.h().spec_size() == H && s.v().spec_size() == V ==> #[trigger] node_fn_ok(&s, &n),
            forall|s: ConstHexOffsetShape<B, L, H, V>|
                s.h().spec_size() == H && s.v().spec_size() == V ==> #[trigger] edge_fn_ok(&s, &e),
        ensures
            r.wf(),
            r.spec_shape().h().spec_size() == H,
            r.spec_shape().v().spec_size() == V,
            forall|o: Offset|
                in_lattice(o, r.spec_shape().spec_horizontal(), r.spec_shape().spec_vertical())
                    ==> call_ensures(n, (r.spec_shape().spec_from_offset(o),), #[trigger] r.spec_node_at(o)),
            forall|o: Offset, a: <ConstHexOffsetShape<B, L, H, V> as Shape>::Axis|
                in_lattice(o, r.spec_shape().spec_horizontal(), r.spec_shape().spec_vertical())
                    ==> match #[trigger] r.spec_edge_at(o, a) {
                    Some(w) => call_ensures(e, (r.spec_shape().spec_from_offset(o), a), w),
                    None => true,
                },
    {
        let s = ConstHexOffsetShape::<B, L, H, V>::default();
        assert(shape_ok(s));
        Self::new_with(s, n, e)
    }
}

} // verus!
