//! Offset based coordinates for hex graph.
use crate::hex::shapes::{AxisDQ, AxisDR, AxisQ, AxisR, EvenQ, EvenR, OddQ, OddR, LEW};
use crate::lattice_abstract::shapes::{wrap_usize, Axis, Coordinate, LatticeSize, Offset, Shape};
use const_generic_wrap::WrapUSIZE;
use std::marker::PhantomData;
use vstd::prelude::*;

verus! {

/// Offset based coordinates for hex graph.
#[derive(Debug, Clone, Copy, PartialEq, Eq, PartialOrd, Ord, Hash, Structural)]
pub struct HexOffset(pub Offset);

impl Default for HexOffset {
    /// The coordinate `(0, 0)`.
    fn default() -> (r: Self)
        ensures
            r == HexOffset(Offset { horizontal: 0, vertical: 0 }),
    {
        HexOffset(Offset { horizontal: 0, vertical: 0 })
    }
}

impl HexOffset {
    /// Create a coordinate at horizontal `x` and vertical `y`.
    pub fn new(x: usize, y: usize) -> (r: Self)
        ensures
            r.0.horizontal == x,
            r.0.vertical == y,
    {
        Self(Offset { horizontal: x, vertical: y })
    }
}

impl Coordinate for HexOffset {
    fn is_same(&self, other: &Self) -> (r: bool) {
        *self == *other
    }
}

/// One step up, kept below `limit`.
pub open spec fn inc(x: usize, limit: usize) -> Option<usize> {
    if x + 1 < limit {
        Some((x + 1) as usize)
    } else {
        None
    }
}

/// One step down, kept at or above zero.
pub open spec fn dec(x: usize) -> Option<usize> {
    if x >= 1 {
        Some((x - 1) as usize)
    } else {
        None
    }
}

/// One step up with no limit but the machine's: the flat top step north-east from a
/// column of the other parity does not check the row.
pub open spec fn inc_free(x: usize) -> Option<usize> {
    if x + 1 <= usize::MAX {
        Some((x + 1) as usize)
    } else {
        None
    }
}

/// One step up, wrapping to zero at `limit`.
pub open spec fn inc_wrap(x: usize, limit: usize) -> Option<usize> {
    if x + 1 < limit {
        Some((x + 1) as usize)
    } else {
        Some(0)
    }
}

/// One step down, wrapping from zero to `limit - 1`; an empty line has no place to wrap to.
pub open spec fn dec_wrap(x: usize, limit: usize) -> Option<usize> {
    if x >= 1 {
        Some((x - 1) as usize)
    } else if limit >= 1 {
        Some((limit - 1) as usize)
    } else {
        None
    }
}

/// The coordinate made of two positions, when both exist.
pub open spec fn pair(x: Option<usize>, y: Option<usize>) -> Option<HexOffset> {
    match (x, y) {
        (Some(a), Some(b)) => Some(HexOffset(Offset { horizontal: a, vertical: b })),
        _ => None,
    }
}

fn inc_exec(x: usize, limit: usize) -> (r: Option<usize>)
    ensures
        r == inc(x, limit),
{
    if x < limit && x + 1 < limit {
        Some(x + 1)
    } else {
        None
    }
}

fn dec_exec(x: usize) -> (r: Option<usize>)
    ensures
        r == dec(x),
{
    x.checked_sub(1)
}

fn inc_free_exec(x: usize) -> (r: Option<usize>)
    ensures
        r == inc_free(x),
{
    x.checked_add(1)
}

fn inc_wrap_exec(x: usize, limit: usize) -> (r: Option<usize>)
    ensures
        r == inc_wrap(x, limit),
{
    match inc_exec(x, limit) {
        Some(n) => Some(n),
        None => Some(0),
    }
}

fn dec_wrap_exec(x: usize, limit: usize) -> (r: Option<usize>)
    ensures
        r == dec_wrap(x, limit),
{
    match x.checked_sub(1) {
        Some(n) => Some(n),
        None => limit.checked_sub(1),
    }
}

fn pair_exec(x: Option<usize>, y: Option<usize>) -> (r: Option<HexOffset>)
    ensures
        r == pair(x, y),
{
    match (x, y) {
        (Some(a), Some(b)) => Some(HexOffset::new(a, b)),
        _ => None,
    }
}

/// A point top move on an `h` by `v` lattice; `flag` is the parity of the unshifted rows.
pub open spec fn hex_offset_move_r(h: usize, v: usize, c: HexOffset, dir: AxisDR, flag: usize) -> Option<
    HexOffset,
> {
    let x = c.0.horizontal;
    let y = c.0.vertical;
    let even = y % 2 == flag;
    match dir {
        AxisDR::E => pair(inc(x, h), Some(y)),
        AxisDR::W => pair(dec(x), Some(y)),
        AxisDR::NE => if even {
            pair(Some(x), inc(y, v))
        } else {
            pair(inc(x, h), inc(y, v))
        },
        AxisDR::NW => if even {
            pair(dec(x), inc(y, v))
        } else {
            pair(Some(x), inc(y, v))
        },
        AxisDR::SE => if even {
            pair(Some(x), dec(y))
        } else {
            pair(inc(x, h), dec(y))
        },
        AxisDR::SW => if even {
            pair(dec(x), dec(y))
        } else {
            pair(Some(x), dec(y))
        },
    }
}

/// A point top move on an `h` by `v` lattice that loops east-west.
pub open spec fn hex_offset_move_r_lew(
    h: usize,
    v: usize,
    c: HexOffset,
    dir: AxisDR,
    flag: usize,
) -> Option<HexOffset> {
    let x = c.0.horizontal;
    let y = c.0.vertical;
    let even = y % 2 == flag;
    match dir {
        AxisDR::E => pair(inc_wrap(x, h), Some(y)),
        AxisDR::W => pair(dec_wrap(x, h), Some(y)),
        AxisDR::NE => if even {
            pair(Some(x), inc(y, v))
        } else {
            pair(inc_wrap(x, h), inc(y, v))
        },
        AxisDR::NW => if even {
            pair(dec_wrap(x, h), inc(y, v))
        } else {
            pair(Some(x), inc(y, v))
        },
        AxisDR::SE => if even {
            pair(Some(x), dec(y))
        } else {
            pair(inc_wrap(x, h), dec(y))
        },
        AxisDR::SW => if even {
            pair(dec_wrap(x, h), dec(y))
        } else {
            pair(Some(x), dec(y))
        },
    }
}

/// A flat top move on an `h` by `v` lattice; `flag` is the parity that the moves key on.
pub open spec fn hex_offset_move_q(h: usize, v: usize, c: HexOffset, dir: AxisDQ, flag: usize) -> Option<
    HexOffset,
> {
    let x = c.0.horizontal;
    let y = c.0.vertical;
    let cond = y % 2 != flag;
    match dir {
        AxisDQ::N => pair(Some(x), inc(y, v)),
        AxisDQ::S => pair(Some(x), dec(y)),
        AxisDQ::NE => if cond {
            pair(inc(x, h), Some(y))
        } else {
            pair(inc(x, h), inc_free(y))
        },
        AxisDQ::NW => if cond {
            pair(inc(x, h), dec(y))
        } else {
            pair(inc(x, h), Some(y))
        },
        AxisDQ::SE => if cond {
            pair(dec(x), Some(y))
        } else {
            pair(dec(x), inc(y, v))
        },
        AxisDQ::SW => if cond {
            pair(dec(x), dec(y))
        } else {
            pair(dec(x), Some(y))
        },
    }
}

/// A flat top move on an `h` by `v` lattice that loops east-west.
pub open spec fn hex_offset_move_q_lew(
    h: usize,
    v: usize,
    c: HexOffset,
    dir: AxisDQ,
    flag: usize,
) -> Option<HexOffset> {
    let x = c.0.horizontal;
    let y = c.0.vertical;
    let cond = y % 2 != flag;
    match dir {
        AxisDQ::N => pair(Some(x), inc(y, v)),
        AxisDQ::S => pair(Some(x), dec(y)),
        AxisDQ::NE => if cond {
            pair(inc_wrap(x, h), Some(y))
        } else {
            pair(inc_wrap(x, h), inc_free(y))
        },
        AxisDQ::NW => if cond {
            pair(inc_wrap(x, h), dec(y))
        } else {
            pair(inc_wrap(x, h), Some(y))
        },
        AxisDQ::SE => if cond {
            pair(dec_wrap(x, h), Some(y))
        } else {
            pair(dec_wrap(x, h), inc(y, v))
        },
        AxisDQ::SW => if cond {
            pair(dec_wrap(x, h), dec(y))
        } else {
            pair(dec_wrap(x, h), Some(y))
        },
    }
}

fn move_coord_r(horizontal: usize, vertical: usize, coord: HexOffset, dir: AxisDR, flag: usize) -> (r:
    Result<HexOffset, ()>)
    ensures
        r matches Ok(c) ==> hex_offset_move_r(horizontal, vertical, coord, dir, flag) == Some(c),
        r is Ok <==> hex_offset_move_r(horizontal, vertical, coord, dir, flag) is Some,
{
    let o = coord.0;
    let x: usize = o.horizontal;
    let y: usize = o.vertical;
    let even: bool = y % 2 == flag;
    let r = match dir {
        AxisDR::E => pair_exec(inc_exec(x, horizontal), Some(y)),
        AxisDR::W => pair_exec(dec_exec(x), Some(y)),
        AxisDR::NE => if even {
            pair_exec(Some(x), inc_exec(y, vertical))
        } else {
            pair_exec(inc_exec(x, horizontal), inc_exec(y, vertical))
        },
        AxisDR::NW => if even {
            pair_exec(dec_exec(x), inc_exec(y, vertical))
        } else {
            pair_exec(Some(x), inc_exec(y, vertical))
        },
        AxisDR::SE => if even {
            pair_exec(Some(x), dec_exec(y))
        } else {
            pair_exec(inc_exec(x, horizontal), dec_exec(y))
        },
        AxisDR::SW => if even {
            pair_exec(dec_exec(x), dec_exec(y))
        } else {
            pair_exec(Some(x), dec_exec(y))
        },
    };
    match r {
        Some(c) => Ok(c),
        None => Err(()),
    }
}

fn move_coord_r_lew(
    horizontal: usize,
    vertical: usize,
    coord: HexOffset,
    dir: AxisDR,
    flag: usize,
) -> (r: Result<HexOffset, ()>)
    ensures
        r matches Ok(c) ==> hex_offset_move_r_lew(horizontal, vertical, coord, dir, flag) == Some(c),
        r is Ok <==> hex_offset_move_r_lew(horizontal, vertical, coord, dir, flag) is Some,
{
    let o = coord.0;
    let x: usize = o.horizontal;
    let y: usize = o.vertical;
    let even: bool = y % 2 == flag;
    let r = match dir {
        AxisDR::E => pair_exec(inc_wrap_exec(x, horizontal), Some(y)),
        AxisDR::W => pair_exec(dec_wrap_exec(x, horizontal), Some(y)),
        AxisDR::NE => if even {
            pair_exec(Some(x), inc_exec(y, vertical))
        } else {
            pair_exec(inc_wrap_exec(x, horizontal), inc_exec(y, vertical))
        },
        AxisDR::NW => if even {
            pair_exec(dec_wrap_exec(x, horizontal), inc_exec(y, vertical))
        } else {
            pair_exec(Some(x), inc_exec(y, vertical))
        },
        AxisDR::SE => if even {
            pair_exec(Some(x), dec_exec(y))
        } else {
            pair_exec(inc_wrap_exec(x, horizontal), dec_exec(y))
        },
        AxisDR::SW => if even {
            pair_exec(dec_wrap_exec(x, horizontal), dec_exec(y))
        } else {
            pair_exec(Some(x), dec_exec(y))
        },
    };
    match r {
        Some(c) => Ok(c),
        None => Err(()),
    }
}

fn move_coord_q(horizontal: usize, vertical: usize, coord: HexOffset, dir: AxisDQ, flag: usize) -> (r:
    Result<HexOffset, ()>)
    ensures
        r matches Ok(c) ==> hex_offset_move_q(horizontal, vertical, coord, dir, flag) == Some(c),
        r is Ok <==> hex_offset_move_q(horizontal, vertical, coord, dir, flag) is Some,
{
    let o = coord.0;
    let x: usize = o.horizontal;
    let y: usize = o.vertical;
    let cond: bool = y % 2 != flag;
    let r = match dir {
        AxisDQ::N => pair_exec(Some(x), inc_exec(y, vertical)),
        AxisDQ::S => pair_exec(Some(x), dec_exec(y)),
        AxisDQ::NE => if cond {
            pair_exec(inc_exec(x, horizontal), Some(y))
        } else {
            pair_exec(inc_exec(x, horizontal), inc_free_exec(y))
        },
        AxisDQ::NW => if cond {
            pair_exec(inc_exec(x, horizontal), dec_exec(y))
        } else {
            pair_exec(inc_exec(x, horizontal), Some(y))
        },
        AxisDQ::SE => if cond {
            pair_exec(dec_exec(x), Some(y))
        } else {
            pair_exec(dec_exec(x), inc_exec(y, vertical))
        },
        AxisDQ::SW => if cond {
            pair_exec(dec_exec(x), dec_exec(y))
        } else {
            pair_exec(dec_exec(x), Some(y))
        },
    };
    match r {
        Some(c) => Ok(c),
        None => Err(()),
    }
}

fn move_coord_q_lew(
    horizontal: usize,
    vertical: usize,
    coord: HexOffset,
    dir: AxisDQ,
    flag: usize,
) -> (r: Result<HexOffset, ()>)
    ensures
        r matches Ok(c) ==> hex_offset_move_q_lew(horizontal, vertical, coord, dir, flag) == Some(c),
        r is Ok <==> hex_offset_move_q_lew(horizontal, vertical, coord, dir, flag) is Some,
{
    let o = coord.0;
    let x: usize = o.horizontal;
    let y: usize = o.vertical;
    let cond: bool = y % 2 != flag;
    let r = match dir {
        AxisDQ::N => pair_exec(Some(x), inc_exec(y, vertical)),
        AxisDQ::S => pair_exec(Some(x), dec_exec(y)),
        AxisDQ::NE => if cond {
            pair_exec(inc_wrap_exec(x, horizontal), Some(y))
        } else {
            pair_exec(inc_wrap_exec(x, horizontal), inc_free_exec(y))
        },
        AxisDQ::NW => if cond {
            pair_exec(inc_wrap_exec(x, horizontal), dec_exec(y))
        } else {
            pair_exec(inc_wrap_exec(x, horizontal), Some(y))
        },
        AxisDQ::SE => if cond {
            pair_exec(dec_wrap_exec(x, horizontal), Some(y))
        } else {
            pair_exec(dec_wrap_exec(x, horizontal), inc_exec(y, vertical))
        },
        AxisDQ::SW => if cond {
            pair_exec(dec_wrap_exec(x, horizontal), dec_exec(y))
        } else {
            pair_exec(dec_wrap_exec(x, horizontal), Some(y))
        },
    };
    match r {
        Some(c) => Ok(c),
        None => Err(()),
    }
}


/// Defines whether the hex graph is `flat-top` or `point-top` and is odd or even.
pub trait HexOffsetShapeBase {
    type Axis: Axis;

    /// The coordinate reached by one step on an `h` by `v` lattice.
    spec fn spec_move_coord(
        horizontal: usize,
        vertical: usize,
        coord: HexOffset,
        dir: <Self::Axis as Axis>::Direction,
    ) -> Option<HexOffset>;

    fn horizontal_edge_size(horizontal: usize, axis: Self::Axis) -> (r: usize)
        ensures
            r == horizontal,
    ;

    fn vertical_edge_size(vertical: usize, axis: Self::Axis) -> (r: usize)
        ensures
            r == vertical,
    ;

    fn move_coord(
        horizontal: usize,
        vertical: usize,
        coord: HexOffset,
        dir: <Self::Axis as Axis>::Direction,
    ) -> (r: Result<HexOffset, ()>)
        ensures
            r matches Ok(c) ==> Self::spec_move_coord(horizontal, vertical, coord, dir) == Some(c),
            r is Ok <==> Self::spec_move_coord(horizontal, vertical, coord, dir) is Some,
    ;
}

/// Defines whether the hex graph, which is looped in E-W direction, is `flat-top` or
/// `point-top` and is odd or even.
pub trait HexOffsetShapeBaseLEW: HexOffsetShapeBase {
    /// The coordinate reached by one step on an `h` by `v` lattice that loops east-west.
    spec fn spec_move_coord_lew(
        horizontal: usize,
        vertical: usize,
        coord: HexOffset,
        dir: <Self::Axis as Axis>::Direction,
    ) -> Option<HexOffset>;

    fn move_coord_lew(
        horizontal: usize,
        vertical: usize,
        coord: HexOffset,
        dir: <Self::Axis as Axis>::Direction,
    ) -> (r: Result<HexOffset, ()>)
        ensures
            r matches Ok(c) ==> Self::spec_move_coord_lew(horizontal, vertical, coord, dir) == Some(c),
            r is Ok <==> Self::spec_move_coord_lew(horizontal, vertical, coord, dir) is Some,
    ;
}

impl HexOffsetShapeBase for OddR {
    type Axis = AxisR;

    open spec fn spec_move_coord(horizontal: usize, vertical: usize, coord: HexOffset, dir: AxisDR) -> Option<HexOffset> {
        hex_offset_move_r(horizontal, vertical, coord, dir, 0)
    }

    fn horizontal_edge_size(horizontal: usize, axis: AxisR) -> (r: usize) {
        horizontal
    }

    fn vertical_edge_size(vertical: usize, axis: AxisR) -> (r: usize) {
        vertical
    }

    fn move_coord(horizontal: usize, vertical: usize, coord: HexOffset, dir: AxisDR) -> (r: Result<HexOffset, ()>) {
        move_coord_r(horizontal, vertical, coord, dir, 0)
    }
}

impl HexOffsetShapeBaseLEW for OddR {
    open spec fn spec_move_coord_lew(horizontal: usize, vertical: usize, coord: HexOffset, dir: AxisDR) -> Option<HexOffset> {
        hex_offset_move_r_lew(horizontal, vertical, coord, dir, 0)
    }

    fn move_coord_lew(horizontal: usize, vertical: usize, coord: HexOffset, dir: AxisDR) -> (r: Result<HexOffset, ()>) {
        move_coord_r_lew(horizontal, vertical, coord, dir, 0)
    }
}

impl HexOffsetShapeBase for EvenR {
    type Axis = AxisR;

    open spec fn spec_move_coord(horizontal: usize, vertical: usize, coord: HexOffset, dir: AxisDR) -> Option<HexOffset> {
        hex_offset_move_r(horizontal, vertical, coord, dir, 1)
    }

    fn horizontal_edge_size(horizontal: usize, axis: AxisR) -> (r: usize) {
        horizontal
    }

    fn vertical_edge_size(vertical: usize, axis: AxisR) -> (r: usize) {
        vertical
    }

    fn move_coord(horizontal: usize, vertical: usize, coord: HexOffset, dir: AxisDR) -> (r: Result<HexOffset, ()>) {
        move_coord_r(horizontal, vertical, coord, dir, 1)
    }
}

impl HexOffsetShapeBaseLEW for EvenR {
    open spec fn spec_move_coord_lew(horizontal: usize, vertical: usize, coord: HexOffset, dir: AxisDR) -> Option<HexOffset> {
        hex_offset_move_r_lew(horizontal, vertical, coord, dir, 1)
    }

    fn move_coord_lew(horizontal: usize, vertical: usize, coord: HexOffset, dir: AxisDR) -> (r: Result<HexOffset, ()>) {
        move_coord_r_lew(horizontal, vertical, coord, dir, 1)
    }
}

impl HexOffsetShapeBase for OddQ {
    type Axis = AxisQ;

    open spec fn spec_move_coord(horizontal: usize, vertical: usize, coord: HexOffset, dir: AxisDQ) -> Option<HexOffset> {
        hex_offset_move_q(horizontal, vertical, coord, dir, 0)
    }

    fn horizontal_edge_size(horizontal: usize, axis: AxisQ) -> (r: usize) {
        horizontal
    }

    fn vertical_edge_size(vertical: usize, axis: AxisQ) -> (r: usize) {
        vertical
    }

    fn move_coord(horizontal: usize, vertical: usize, coord: HexOffset, dir: AxisDQ) -> (r: Result<HexOffset, ()>) {
        move_coord_q(horizontal, vertical, coord, dir, 0)
    }
}

impl HexOffsetShapeBaseLEW for OddQ {
    open spec fn spec_move_coord_lew(horizontal: usize, vertical: usize, coord: HexOffset, dir: AxisDQ) -> Option<HexOffset> {
        hex_offset_move_q_lew(horizontal, vertical, coord, dir, 0)
    }

    fn move_coord_lew(horizontal: usize, vertical: usize, coord: HexOffset, dir: AxisDQ) -> (r: Result<HexOffset, ()>) {
        move_coord_q_lew(horizontal, vertical, coord, dir, 0)
    }
}

impl HexOffsetShapeBase for EvenQ {
    type Axis = AxisQ;

    open spec fn spec_move_coord(horizontal: usize, vertical: usize, coord: HexOffset, dir: AxisDQ) -> Option<HexOffset> {
        hex_offset_move_q(horizontal, vertical, coord, dir, 1)
    }

    fn horizontal_edge_size(horizontal: usize, axis: AxisQ) -> (r: usize) {
        horizontal
    }

    fn vertical_edge_size(vertical: usize, axis: AxisQ) -> (r: usize) {
        vertical
    }

    fn move_coord(horizontal: usize, vertical: usize, coord: HexOffset, dir: AxisDQ) -> (r: Result<HexOffset, ()>) {
        move_coord_q(horizontal, vertical, coord, dir, 1)
    }
}

impl HexOffsetShapeBaseLEW for EvenQ {
    open spec fn spec_move_coord_lew(horizontal: usize, vertical: usize, coord: HexOffset, dir: AxisDQ) -> Option<HexOffset> {
        hex_offset_move_q_lew(horizontal, vertical, coord, dir, 1)
    }

    fn move_coord_lew(horizontal: usize, vertical: usize, coord: HexOffset, dir: AxisDQ) -> (r: Result<HexOffset, ()>) {
        move_coord_q_lew(horizontal, vertical, coord, dir, 1)
    }
}

/// Shapes for hex graph with offset-based coordinate.
#[derive(Debug, Copy, PartialEq, Eq, PartialOrd, Ord, Hash)]
pub struct HexOffsetShape<ShapeBase, Loop, H = usize, V = usize> {
    h: H,
    v: V,
    l: PhantomData<Loop>,
    t: PhantomData<ShapeBase>,
}

impl<B, L, H: Copy, V: Copy> Clone for HexOffsetShape<B, L, H, V> {
    fn clone(&self) -> (r: Self)
        ensures
            r == *self,
    {
        HexOffsetShape { h: self.h, v: self.v, l: PhantomData, t: PhantomData }
    }
}

impl<B, L, H, V> HexOffsetShape<B, L, H, V> {
    /// Create a new shape.
    pub fn new(h: H, v: V) -> (r: Self)
        ensures
            r.h() == h,
            r.v() == v,
    {
        Self { h, v, l: PhantomData, t: PhantomData }
    }

    /// The horizontal size.
    pub closed spec fn h(&self) -> H {
        self.h
    }

    /// The vertical size.
    pub closed spec fn v(&self) -> V {
        self.v
    }
}

/// Shape for offset based coordinates with const size. It takes no room.
pub type ConstHexOffsetShape<T, L, const H: usize, const V: usize> = HexOffsetShape<
    T,
    L,
    WrapUSIZE<H>,
    WrapUSIZE<V>,
>;

impl<T, L, const H: usize, const V: usize> Default for HexOffsetShape<T, L, WrapUSIZE<H>, WrapUSIZE<V>> {
    fn default() -> (r: Self)
        ensures
            r.h().spec_size() == H,
            r.v().spec_size() == V,
    {
        Self::new(wrap_usize::<H>(), wrap_usize::<V>())
    }
}

impl<B, H, V> Shape for HexOffsetShape<B, (), H, V> where
    B: HexOffsetShapeBase,
    H: LatticeSize,
    V: LatticeSize,
 {
    type Axis = B::Axis;
    type Coordinate = HexOffset;
    type OffsetConvertError = ();
    type CoordinateMoveError = ();

    open spec fn spec_horizontal(&self) -> nat {
        self.h().spec_size()
    }

    open spec fn spec_vertical(&self) -> nat {
        self.v().spec_size()
    }

    open spec fn spec_to_offset(&self, coord: HexOffset) -> Option<Offset> {
        if coord.0.horizontal < self.spec_horizontal() && coord.0.vertical < self.spec_vertical() {
            Some(coord.0)
        } else {
            None
        }
    }

    open spec fn spec_from_offset(&self, offset: Offset) -> HexOffset {
        HexOffset(offset)
    }

    open spec fn spec_move_coord(&self, coord: HexOffset, dir: <B::Axis as Axis>::Direction) -> Option<HexOffset> {
        B::spec_move_coord(self.spec_horizontal() as usize, self.spec_vertical() as usize, coord, dir)
    }

    open spec fn spec_is_neighbor(&self, a: HexOffset, b: HexOffset) -> bool {
        exists|d: <B::Axis as Axis>::Direction| #[trigger] self.spec_move_coord(a, d) == Some(b)
    }

    open spec fn spec_horizontal_edge_size(&self, axis: B::Axis) -> int {
        self.spec_horizontal() as int
    }

    open spec fn spec_vertical_edge_size(&self, axis: B::Axis) -> int {
        self.spec_vertical() as int
    }

    open spec fn spec_valid(&self) -> bool {
        true
    }

    open spec fn spec_from_offset_ok(&self, offset: Offset) -> bool {
        true
    }

    proof fn lemma_valid_from_offset(&self, o: Offset) {
    }

    proof fn lemma_to_offset_in_range(&self, coord: HexOffset) {
    }

    proof fn lemma_from_offset_to_offset(&self, o: Offset) {
    }

    fn horizontal(&self) -> (r: usize) {
        self.h.size()
    }

    fn vertical(&self) -> (r: usize) {
        self.v.size()
    }

    fn to_offset(&self, coord: HexOffset) -> (r: Result<Offset, ()>) {
        let offset = coord.0;
        if offset.horizontal() < self.horizontal() && offset.vertical() < self.vertical() {
            Ok(offset)
        } else {
            Err(())
        }
    }

    fn to_offset_unchecked(&self, coord: HexOffset) -> (r: Offset) {
        coord.0
    }

    fn from_offset(&self, offset: Offset) -> (r: HexOffset) {
        HexOffset(offset)
    }

    fn horizontal_edge_size(&self, axis: B::Axis) -> (r: usize) {
        B::horizontal_edge_size(self.horizontal(), axis)
    }

    fn vertical_edge_size(&self, axis: B::Axis) -> (r: usize) {
        B::vertical_edge_size(self.vertical(), axis)
    }

    fn move_coord(&self, coord: HexOffset, dir: <B::Axis as Axis>::Direction) -> (r: Result<HexOffset, ()>) {
        B::move_coord(self.horizontal(), self.vertical(), coord, dir)
    }

    fn is_neighbor(&self, a: HexOffset, b: HexOffset) -> (r: bool) {
        self.get_direction(a, b).is_some()
    }
}

impl<B, H, V> Shape for HexOffsetShape<B, LEW, H, V> where
    B: HexOffsetShapeBaseLEW,
    H: LatticeSize,
    V: LatticeSize,
 {
    type Axis = B::Axis;
    type Coordinate = HexOffset;
    type OffsetConvertError = ();
    type CoordinateMoveError = ();

    open spec fn spec_horizontal(&self) -> nat {
        self.h().spec_size()
    }

    open spec fn spec_vertical(&self) -> nat {
        self.v().spec_size()
    }

    open spec fn spec_to_offset(&self, coord: HexOffset) -> Option<Offset> {
        if coord.0.horizontal < self.spec_horizontal() && coord.0.vertical < self.spec_vertical() {
            Some(coord.0)
        } else {
            None
        }
    }

    open spec fn spec_from_offset(&self, offset: Offset) -> HexOffset {
        HexOffset(offset)
    }

    open spec fn spec_move_coord(&self, coord: HexOffset, dir: <B::Axis as Axis>::Direction) -> Option<HexOffset> {
        B::spec_move_coord_lew(self.spec_horizontal() as usize, self.spec_vertical() as usize, coord, dir)
    }

    open spec fn spec_is_neighbor(&self, a: HexOffset, b: HexOffset) -> bool {
        exists|d: <B::Axis as Axis>::Direction| #[trigger] self.spec_move_coord(a, d) == Some(b)
    }

    open spec fn spec_horizontal_edge_size(&self, axis: B::Axis) -> int {
        self.spec_horizontal() as int
    }

    open spec fn spec_vertical_edge_size(&self, axis: B::Axis) -> int {
        self.spec_vertical() as int
    }

    open spec fn spec_valid(&self) -> bool {
        true
    }

    open spec fn spec_from_offset_ok(&self, offset: Offset) -> bool {
        true
    }

    proof fn lemma_valid_from_offset(&self, o: Offset) {
    }

    proof fn lemma_to_offset_in_range(&self, coord: HexOffset) {
    }

    proof fn lemma_from_offset_to_offset(&self, o: Offset) {
    }

    fn horizontal(&self) -> (r: usize) {
        self.h.size()
    }

    fn vertical(&self) -> (r: usize) {
        self.v.size()
    }

    fn to_offset(&self, coord: HexOffset) -> (r: Result<Offset, ()>) {
        let offset = coord.0;
        if offset.horizontal() < self.horizontal() && offset.vertical() < self.vertical() {
            Ok(offset)
        } else {
            Err(())
        }
    }

    fn to_offset_unchecked(&self, coord: HexOffset) -> (r: Offset) {
        coord.0
    }

    fn from_offset(&self, offset: Offset) -> (r: HexOffset) {
        HexOffset(offset)
    }

    fn horizontal_edge_size(&self, axis: B::Axis) -> (r: usize) {
        B::horizontal_edge_size(self.horizontal(), axis)
    }

    fn vertical_edge_size(&self, axis: B::Axis) -> (r: usize) {
        B::vertical_edge_size(self.vertical(), axis)
    }

    fn move_coord(&self, coord: HexOffset, dir: <B::Axis as Axis>::Direction) -> (r: Result<HexOffset, ()>) {
        B::move_coord_lew(self.horizontal(), self.vertical(), coord, dir)
    }

    fn is_neighbor(&self, a: HexOffset, b: HexOffset) -> (r: bool) {
        self.get_direction(a, b).is_some()
    }
}

/// On a point top lattice, one step from a coordinate in the lattice and one step the reverse
/// way comes back to it.
pub proof fn lemma_move_r_reversible(h: usize, v: usize, c: HexOffset, d: AxisDR, flag: usize)
    requires
        flag <= 1,
        c.0.horizontal < h,
        c.0.vertical < v,
        hex_offset_move_r(h, v, c, d, flag) is Some,
    ensures
        hex_offset_move_r(h, v, hex_offset_move_r(h, v, c, d, flag)->0, d.spec_backward(), flag) == Some(c),
{
    let y = c.0.vertical;
    assert((y + 1) % 2 != y % 2 && (y + 1) % 2 < 2 && y % 2 < 2);
    if y >= 1 {
        assert((y - 1) % 2 != y % 2 && (y - 1) % 2 < 2);
    }
}

/// On a point top lattice that loops east-west, one step from a coordinate in the lattice and
/// one step the reverse way comes back to it.
pub proof fn lemma_move_r_lew_reversible(h: usize, v: usize, c: HexOffset, d: AxisDR, flag: usize)
    requires
        flag <= 1,
        c.0.horizontal < h,
        c.0.vertical < v,
        hex_offset_move_r_lew(h, v, c, d, flag) is Some,
    ensures
        hex_offset_move_r_lew(h, v, hex_offset_move_r_lew(h, v, c, d, flag)->0, d.spec_backward(), flag)
            == Some(c),
{
    let y = c.0.vertical;
    assert((y + 1) % 2 != y % 2 && (y + 1) % 2 < 2 && y % 2 < 2);
    if y >= 1 {
        assert((y - 1) % 2 != y % 2 && (y - 1) % 2 < 2);
    }
}

/// Looping east-west changes only the moves that cross the east-west border: a point top
/// move that stays inside the lattice without the loop is the same with it.
pub proof fn lemma_move_r_lew_agrees(h: usize, v: usize, c: HexOffset, d: AxisDR, flag: usize)
    requires
        hex_offset_move_r(h, v, c, d, flag) is Some,
    ensures
        hex_offset_move_r_lew(h, v, c, d, flag) == hex_offset_move_r(h, v, c, d, flag),
{
}

/// Looping east-west changes only the moves that cross the east-west border: a flat top
/// move that stays inside the lattice without the loop is the same with it.
pub proof fn lemma_move_q_lew_agrees(h: usize, v: usize, c: HexOffset, d: AxisDQ, flag: usize)
    requires
        hex_offset_move_q(h, v, c, d, flag) is Some,
    ensures
        hex_offset_move_q_lew(h, v, c, d, flag) == hex_offset_move_q(h, v, c, d, flag),
{
}

/// The coordinate difference of a step, one place at most in each direction.
pub open spec fn adjacent(a: HexOffset, b: HexOffset) -> bool {
    let dx = b.0.horizontal - a.0.horizontal;
    let dy = b.0.vertical - a.0.vertical;
    -1 <= dx <= 1 && -1 <= dy <= 1 && (dx != 0 || dy != 0)
}

/// The six point top directions lead from a coordinate to six different coordinates, each
/// next to it.
pub proof fn lemma_move_r_distinct(h: usize, v: usize, c: HexOffset, d1: AxisDR, d2: AxisDR, flag: usize)
    requires
        flag <= 1,
        hex_offset_move_r(h, v, c, d1, flag) is Some,
        hex_offset_move_r(h, v, c, d2, flag) is Some,
    ensures
        adjacent(c, hex_offset_move_r(h, v, c, d1, flag)->0),
        d1 != d2 ==> hex_offset_move_r(h, v, c, d1, flag) != hex_offset_move_r(h, v, c, d2, flag),
{
}

/// The six flat top directions lead from a coordinate to six different coordinates, each
/// next to it.
pub proof fn lemma_move_q_distinct(h: usize, v: usize, c: HexOffset, d1: AxisDQ, d2: AxisDQ, flag: usize)
    requires
        flag <= 1,
        hex_offset_move_q(h, v, c, d1, flag) is Some,
        hex_offset_move_q(h, v, c, d2, flag) is Some,
    ensures
        adjacent(c, hex_offset_move_q(h, v, c, d1, flag)->0),
        d1 != d2 ==> hex_offset_move_q(h, v, c, d1, flag) != hex_offset_move_q(h, v, c, d2, flag),
{
}

/// On a lattice at least three wide that loops east-west, the six point top directions lead
/// from a coordinate of the lattice to six different coordinates.
pub proof fn lemma_move_r_lew_distinct(
    h: usize,
    v: usize,
    c: HexOffset,
    d1: AxisDR,
    d2: AxisDR,
    flag: usize,
)
    requires
        flag <= 1,
        h >= 3,
        c.0.horizontal < h,
        d1 != d2,
        hex_offset_move_r_lew(h, v, c, d1, flag) is Some,
        hex_offset_move_r_lew(h, v, c, d2, flag) is Some,
    ensures
        hex_offset_move_r_lew(h, v, c, d1, flag) != hex_offset_move_r_lew(h, v, c, d2, flag),
{
}

/// On a lattice at least three wide that loops east-west, the six flat top directions lead
/// from a coordinate of the lattice to six different coordinates.
pub proof fn lemma_move_q_lew_distinct(
    h: usize,
    v: usize,
    c: HexOffset,
    d1: AxisDQ,
    d2: AxisDQ,
    flag: usize,
)
    requires
        flag <= 1,
        h >= 3,
        c.0.horizontal < h,
        d1 != d2,
        hex_offset_move_q_lew(h, v, c, d1, flag) is Some,
        hex_offset_move_q_lew(h, v, c, d2, flag) is Some,
    ensures
        hex_offset_move_q_lew(h, v, c, d1, flag) != hex_offset_move_q_lew(h, v, c, d2, flag),
{
}

} // verus!
