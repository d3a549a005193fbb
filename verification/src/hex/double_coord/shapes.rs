//! Double coordinates for hex graph: a step east doubles the horizontal coordinate.
use crate::hex::shapes::{AxisDQ, AxisDR, AxisQ, AxisR, OddQ, OddR, OE, RQ};
use crate::lattice_abstract::shapes::{wrap_usize, Axis, Coordinate, LatticeSize, Offset, Shape};
use const_generic_wrap::WrapUSIZE;
use std::marker::PhantomData;
use vstd::prelude::*;

verus! {

/// Double coordinate based coordinates for hex graph.
#[derive(Debug, Clone, Copy, PartialEq, Eq, PartialOrd, Ord, Hash, Structural)]
pub struct DoubleCoord {
    pub h: usize,
    pub v: usize,
}

impl DoubleCoord {
    /// Create a new coordinate.
    pub fn new(h: usize, v: usize) -> (r: Self)
        ensures
            r.h == h,
            r.v == v,
    {
        Self { h, v }
    }

    /// Get a double coord's h.
    pub fn h(&self) -> (r: usize)
        ensures
            r == self.h,
    {
        self.h
    }

    /// Get a double coord's v.
    pub fn v(&self) -> (r: usize)
        ensures
            r == self.v,
    {
        self.v
    }
}

impl Coordinate for DoubleCoord {
    fn is_same(&self, other: &Self) -> (r: bool) {
        *self == *other
    }
}

/// The coordinate `(h, v)` as a value.
pub open spec fn double_coord(h: int, v: int) -> DoubleCoord {
    DoubleCoord { h: h as usize, v: v as usize }
}

/// One step of `(dh, dv)` from `c`: a coordinate that grows is checked against its limit,
/// one that shrinks against zero.
pub open spec fn double_shift(c: DoubleCoord, dh: int, dv: int, h_max: int, v_max: int) -> Option<
    DoubleCoord,
> {
    let h = c.h + dh;
    let v = c.v + dv;
    if (dh > 0 ==> h < h_max) && (dh < 0 ==> h >= 0) && (dv > 0 ==> v < v_max) && (dv < 0 ==> v
        >= 0) {
        Some(double_coord(h, v))
    } else {
        None
    }
}

/// The step of a point top direction in double coordinates.
pub open spec fn double_step_r(dir: AxisDR) -> (int, int) {
    match dir {
        AxisDR::NE => (1, 1),
        AxisDR::E => (2, 0),
        AxisDR::SE => (1, -1),
        AxisDR::SW => (-1, -1),
        AxisDR::W => (-2, 0),
        AxisDR::NW => (-1, 1),
    }
}

/// The step of a flat top direction in double coordinates.
pub open spec fn double_step_q(dir: AxisDQ) -> (int, int) {
    match dir {
        AxisDQ::N => (0, 2),
        AxisDQ::NE => (1, 1),
        AxisDQ::SE => (1, -1),
        AxisDQ::S => (0, -2),
        AxisDQ::SW => (-1, -1),
        AxisDQ::NW => (-1, 1),
    }
}

/// A step of at most two in each coordinate, as [`double_shift`] states it.
fn double_step(c: DoubleCoord, dh: i8, dv: i8, h_max: usize, v_max: usize) -> (r: Option<
    DoubleCoord,
>)
    requires
        -2 <= dh <= 2,
        -2 <= dv <= 2,
    ensures
        r == double_shift(c, dh as int, dv as int, h_max as int, v_max as int),
{
    let h: usize = if dh > 0 {
        let d: usize = dh as usize;
        if c.h < h_max && h_max - c.h > d {
            c.h + d
        } else {
            return None;
        }
    } else if dh < 0 {
        let d: usize = (-dh) as usize;
        if c.h >= d {
            c.h - d
        } else {
            return None;
        }
    } else {
        c.h
    };
    let v: usize = if dv > 0 {
        let d: usize = dv as usize;
        if c.v < v_max && v_max - c.v > d {
            c.v + d
        } else {
            return None;
        }
    } else if dv < 0 {
        let d: usize = (-dv) as usize;
        if c.v >= d {
            c.v - d
        } else {
            return None;
        }
    } else {
        c.v
    };
    Some(DoubleCoord::new(h, v))
}

/// A trait to make a type in [`crate::hex::shapes`] a shape for double coordinates.
pub trait DoubleCoordShapeBase: OE + RQ + Clone {
    type Axis: Axis;

    /// The coordinate reached by one step, or `None` when it leaves the limits.
    spec fn spec_move_coord(
        coord: DoubleCoord,
        dir: <Self::Axis as Axis>::Direction,
        h_max: int,
        v_max: int,
    ) -> Option<DoubleCoord>;

    /// A step either stays below the limit or does not grow.
    proof fn lemma_move_coord_bounds(
        coord: DoubleCoord,
        dir: <Self::Axis as Axis>::Direction,
        h_max: int,
        v_max: int,
    )
        ensures
            Self::spec_move_coord(coord, dir, h_max, v_max) matches Some(c) ==> (c.h < h_max
                || c.h <= coord.h) && (c.v < v_max || c.v <= coord.v),
    ;

    fn move_coord(
        coord: DoubleCoord,
        dir: <Self::Axis as Axis>::Direction,
        h_max: usize,
        v_max: usize,
    ) -> (r: Option<DoubleCoord>)
        ensures
            r == Self::spec_move_coord(coord, dir, h_max as int, v_max as int),
    ;
}

impl DoubleCoordShapeBase for OddR {
    type Axis = AxisR;

    open spec fn spec_move_coord(coord: DoubleCoord, dir: AxisDR, h_max: int, v_max: int) -> Option<
        DoubleCoord,
    > {
        double_shift(coord, double_step_r(dir).0, double_step_r(dir).1, h_max, v_max)
    }

    proof fn lemma_move_coord_bounds(coord: DoubleCoord, dir: AxisDR, h_max: int, v_max: int) {
    }

    fn move_coord(coord: DoubleCoord, dir: AxisDR, h_max: usize, v_max: usize) -> (r: Option<
        DoubleCoord,
    >) {
        move_coord_r(coord, dir, h_max, v_max)
    }
}

impl DoubleCoordShapeBase for OddQ {
    type Axis = AxisQ;

    open spec fn spec_move_coord(coord: DoubleCoord, dir: AxisDQ, h_max: int, v_max: int) -> Option<
        DoubleCoord,
    > {
        double_shift(coord, double_step_q(dir).0, double_step_q(dir).1, h_max, v_max)
    }

    proof fn lemma_move_coord_bounds(coord: DoubleCoord, dir: AxisDQ, h_max: int, v_max: int) {
    }

    fn move_coord(coord: DoubleCoord, dir: AxisDQ, h_max: usize, v_max: usize) -> (r: Option<
        DoubleCoord,
    >) {
        move_coord_q(coord, dir, h_max, v_max)
    }
}

fn move_coord_r(coord: DoubleCoord, dir: AxisDR, h_max: usize, v_max: usize) -> (r: Option<
    DoubleCoord,
>)
    ensures
        r == double_shift(
            coord,
            double_step_r(dir).0,
            double_step_r(dir).1,
            h_max as int,
            v_max as int,
        ),
{
    match dir {
        AxisDR::NE => double_step(coord, 1, 1, h_max, v_max),
        AxisDR::E => double_step(coord, 2, 0, h_max, v_max),
        AxisDR::SE => double_step(coord, 1, -1, h_max, v_max),
        AxisDR::SW => double_step(coord, -1, -1, h_max, v_max),
        AxisDR::W => double_step(coord, -2, 0, h_max, v_max),
        AxisDR::NW => double_step(coord, -1, 1, h_max, v_max),
    }
}

fn move_coord_q(coord: DoubleCoord, dir: AxisDQ, h_max: usize, v_max: usize) -> (r: Option<
    DoubleCoord,
>)
    ensures
        r == double_shift(
            coord,
            double_step_q(dir).0,
            double_step_q(dir).1,
            h_max as int,
            v_max as int,
        ),
{
    match dir {
        AxisDQ::N => double_step(coord, 0, 2, h_max, v_max),
        AxisDQ::NE => double_step(coord, 1, 1, h_max, v_max),
        AxisDQ::SE => double_step(coord, 1, -1, h_max, v_max),
        AxisDQ::S => double_step(coord, 0, -2, h_max, v_max),
        AxisDQ::SW => double_step(coord, -1, -1, h_max, v_max),
        AxisDQ::NW => double_step(coord, -1, 1, h_max, v_max),
    }
}

/// Shape for double coordinates.
#[derive(Debug, Copy, PartialEq, Eq, PartialOrd, Ord, Hash)]
pub struct DoubleCoordShape<
    ShapeBase,
    Loop,
    H = usize,
    V = usize,
    A = <ShapeBase as DoubleCoordShapeBase>::Axis,
> {
    h: H,
    v: V,
    l: PhantomData<Loop>,
    t: PhantomData<ShapeBase>,
    a: PhantomData<A>,
}

impl<ShapeBase, Loop, H: Copy, V: Copy, A> Clone for DoubleCoordShape<ShapeBase, Loop, H, V, A> {
    fn clone(&self) -> (r: Self)
        ensures
            r == *self,
    {
        DoubleCoordShape { h: self.h, v: self.v, l: PhantomData, t: PhantomData, a: PhantomData }
    }
}

impl<ShapeBase, Loop, H, V, A> DoubleCoordShape<ShapeBase, Loop, H, V, A> {
    /// Create a new shape.
    pub fn new(h: H, v: V) -> (r: Self)
        ensures
            r.h() == h,
            r.v() == v,
    {
        Self { h, v, l: PhantomData, t: PhantomData, a: PhantomData }
    }

    /// The horizontal size.
    pub closed spec fn h(&self) -> H {
        self.h
    }

    /// The vertical size.
    pub closed spec fn v(&self) -> V {
        self.v
    }
}

/// Shape for double coordinates with const size. It takes no room.
pub type ConstDoubleCoordShape<T, L, const H: usize, const V: usize> = DoubleCoordShape<
    T,
    L,
    WrapUSIZE<H>,
    WrapUSIZE<V>,
>;

impl<T, L, const H: usize, const V: usize, A> Default for DoubleCoordShape<T, L, WrapUSIZE<H>, WrapUSIZE<V>, A> {
    fn default() -> (r: Self)
        ensures
            r.h().spec_size() == H,
            r.v().spec_size() == V,
    {
        Self::new(wrap_usize::<H>(), wrap_usize::<V>())
    }
}

/// The bound of the doubled horizontal coordinate on a lattice `h` nodes wide: `2 * h`, or
/// the largest `usize` where that does not fit.
pub open spec fn double_limit(h: nat) -> int {
    if 2 * h <= usize::MAX {
        (2 * h) as int
    } else {
        usize::MAX as int
    }
}

/// The offset of a double coordinate inside an `h` by `v` lattice.
pub open spec fn double_to_offset(h: nat, v: nat, coord: DoubleCoord) -> Option<Offset> {
    if coord.h / 2 < h && coord.v < v {
        Some(Offset { horizontal: (coord.h / 2) as usize, vertical: coord.v })
    } else {
        None
    }
}

/// The double coordinate stored at an offset.
pub open spec fn double_from_offset(o: Offset) -> DoubleCoord {
    double_coord(o.horizontal * 2 + o.vertical % 2, o.vertical as int)
}

impl<B, H, V> Shape for DoubleCoordShape<B, (), H, V, AxisR> where
    B: DoubleCoordShapeBase<Axis = AxisR>,
    H: LatticeSize,
    V: LatticeSize,
 {
    type Axis = AxisR;
    type Coordinate = DoubleCoord;
    type OffsetConvertError = ();
    type CoordinateMoveError = ();

    open spec fn spec_horizontal(&self) -> nat {
        self.h().spec_size()
    }

    open spec fn spec_vertical(&self) -> nat {
        self.v().spec_size()
    }

    open spec fn spec_to_offset(&self, coord: DoubleCoord) -> Option<Offset> {
        double_to_offset(self.spec_horizontal(), self.spec_vertical(), coord)
    }

    open spec fn spec_from_offset(&self, offset: Offset) -> DoubleCoord {
        double_from_offset(offset)
    }

    /// A step may reach a doubled horizontal coordinate below twice the node count of a row.
    open spec fn spec_move_coord(&self, coord: DoubleCoord, dir: AxisDR) -> Option<DoubleCoord> {
        B::spec_move_coord(
            coord,
            dir,
            double_limit(self.spec_horizontal()),
            self.spec_vertical() as int,
        )
    }

    /// Neighbors by distance: one row apart at most, and two steps in all.
    open spec fn spec_is_neighbor(&self, a: DoubleCoord, b: DoubleCoord) -> bool {
        let dif_v = if a.v >= b.v {
            a.v - b.v
        } else {
            b.v - a.v
        };
        let dif_h = if a.h >= b.h {
            a.h - b.h
        } else {
            b.h - a.h
        };
        dif_v <= 1 && dif_h + dif_v == 2
    }

    open spec fn spec_horizontal_edge_size(&self, axis: AxisR) -> int {
        self.spec_horizontal() as int
    }

    open spec fn spec_vertical_edge_size(&self, axis: AxisR) -> int {
        self.spec_vertical() as int
    }

    open spec fn spec_valid(&self) -> bool {
        self.spec_horizontal() * 2 <= usize::MAX
    }

    open spec fn spec_from_offset_ok(&self, offset: Offset) -> bool {
        offset.horizontal * 2 + 1 <= usize::MAX
    }

    proof fn lemma_valid_from_offset(&self, o: Offset) {
    }

    proof fn lemma_to_offset_in_range(&self, coord: DoubleCoord) {
    }

    proof fn lemma_from_offset_to_offset(&self, o: Offset) {
    }

    fn horizontal(&self) -> (r: usize) {
        self.h.size()
    }

    fn vertical(&self) -> (r: usize) {
        self.v.size()
    }

    fn to_offset(&self, coord: DoubleCoord) -> (r: Result<Offset, ()>) {
        let h: usize = coord.h / 2;
        let v: usize = coord.v;
        if h < self.horizontal() && v < self.vertical() {
            Ok(Offset::new(h, v))
        } else {
            Err(())
        }
    }

    fn to_offset_unchecked(&self, coord: DoubleCoord) -> (r: Offset) {
        let h: usize = coord.h / 2;
        let v: usize = coord.v;
        Offset::new(h, v)
    }

    fn from_offset(&self, offset: Offset) -> (r: DoubleCoord) {
        let v: usize = offset.vertical;
        let parity: usize = v % 2;
        let h: usize = offset.horizontal * 2 + parity;
        DoubleCoord::new(h, v)
    }

    fn horizontal_edge_size(&self, axis: AxisR) -> (r: usize) {
        self.horizontal()
    }

    fn vertical_edge_size(&self, axis: AxisR) -> (r: usize) {
        self.vertical()
    }

    fn move_coord(&self, coord: DoubleCoord, dir: AxisDR) -> (r: Result<DoubleCoord, ()>) {
        let h: usize = self.horizontal();
        let h_max: usize = if h <= usize::MAX / 2 {
            h * 2
        } else {
            usize::MAX
        };
        match B::move_coord(coord, dir, h_max, self.vertical()) {
            Some(c) => Ok(c),
            None => Err(()),
        }
    }

    fn is_neighbor(&self, a: DoubleCoord, b: DoubleCoord) -> (r: bool) {
        let dif_v: usize = if a.v >= b.v {
            a.v - b.v
        } else {
            b.v - a.v
        };
        if dif_v > 1 {
            return false;
        }
        let dif_h: usize = if a.h >= b.h {
            a.h - b.h
        } else {
            b.h - a.h
        };
        dif_h == 2 - dif_v
    }
}

/// A step and the opposite step cancel, from a coordinate below both limits.
proof fn lemma_double_shift_back(c: DoubleCoord, dh: int, dv: int, h_max: int, v_max: int)
    requires
        c.h < h_max <= usize::MAX,
        c.v < v_max <= usize::MAX,
        double_shift(c, dh, dv, h_max, v_max) is Some,
    ensures
        double_shift(double_shift(c, dh, dv, h_max, v_max)->0, -dh, -dv, h_max, v_max) == Some(c),
{
}

/// Moving one step from a coordinate in the graph, and then one step the reverse way, comes
/// back to it.
pub proof fn lemma_double_move_reversible<H: LatticeSize, V: LatticeSize>(
    s: DoubleCoordShape<OddR, (), H, V, AxisR>,
    c: DoubleCoord,
    d: AxisDR,
)
    requires
        s.spec_valid(),
        s.spec_to_offset(c) is Some,
        s.spec_move_coord(c, d) is Some,
    ensures
        s.spec_move_coord(s.spec_move_coord(c, d)->0, d.spec_backward()) == Some(c),
{
    s.h().lemma_size_fits();
    s.v().lemma_size_fits();
    let hm = double_limit(s.spec_horizontal());
    let vm = s.spec_vertical() as int;
    let step = double_step_r(d);
    assert(double_step_r(d.spec_backward()) == (-step.0, -step.1));
    lemma_double_shift_back(c, step.0, step.1, hm, vm);
}

/// Every step lands on a neighbor, and neighborhood is symmetric.
pub proof fn lemma_double_move_is_neighbor<H: LatticeSize, V: LatticeSize>(
    s: DoubleCoordShape<OddR, (), H, V, AxisR>,
    c: DoubleCoord,
    d: AxisDR,
)
    requires
        s.spec_move_coord(c, d) is Some,
    ensures
        s.spec_is_neighbor(c, s.spec_move_coord(c, d)->0),
        s.spec_is_neighbor(s.spec_move_coord(c, d)->0, c),
{
    s.h().lemma_size_fits();
    s.v().lemma_size_fits();
}

/// A point top step in double coordinates from a coordinate below both limits stays below
/// them, moves two in all and at most one row, and the reverse step comes back.
pub proof fn lemma_double_step_r(c: DoubleCoord, d: AxisDR, h_max: int, v_max: int)
    requires
        c.h < h_max <= usize::MAX,
        c.v < v_max <= usize::MAX,
        OddR::spec_move_coord(c, d, h_max, v_max) is Some,
    ensures
        ({
            let m = OddR::spec_move_coord(c, d, h_max, v_max)->0;
            &&& m.h < h_max && m.v < v_max
            &&& (if m.h >= c.h { m.h - c.h } else { c.h - m.h }) + (if m.v >= c.v { m.v - c.v } else { c.v - m.v }) == 2
            &&& (if m.v >= c.v { m.v - c.v } else { c.v - m.v }) <= 1
            &&& OddR::spec_move_coord(m, d.spec_backward(), h_max, v_max) == Some(c)
        }),
{
    let step = double_step_r(d);
    assert(double_step_r(d.spec_backward()) == (-step.0, -step.1));
    lemma_double_shift_back(c, step.0, step.1, h_max, v_max);
}

/// A flat top step in double coordinates from a coordinate below both limits stays below
/// them, and the reverse step comes back.
pub proof fn lemma_double_step_q(c: DoubleCoord, d: AxisDQ, h_max: int, v_max: int)
    requires
        c.h < h_max <= usize::MAX,
        c.v < v_max <= usize::MAX,
        OddQ::spec_move_coord(c, d, h_max, v_max) is Some,
    ensures
        ({
            let m = OddQ::spec_move_coord(c, d, h_max, v_max)->0;
            &&& m.h < h_max && m.v < v_max
            &&& OddQ::spec_move_coord(m, d.spec_backward(), h_max, v_max) == Some(c)
        }),
{
    let step = double_step_q(d);
    assert(double_step_q(d.spec_backward()) == (-step.0, -step.1));
    lemma_double_shift_back(c, step.0, step.1, h_max, v_max);
}

} // verus!
