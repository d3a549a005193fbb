//! Axial coordinates for hex graph and their shapes.
use crate::hex::shapes::{AxisDQ, AxisDR, AxisQ, AxisR, EvenQ, EvenR, OddQ, OddR, LEW, OE, RQ};
use crate::lattice_abstract::shapes::{
    offset, wrap_usize, Axis, AxisDirection, Coordinate, LatticeSize, Offset, Shape,
};
use const_generic_wrap::WrapUSIZE;
use std::marker::PhantomData;
use vstd::prelude::*;

verus! {

/// A coordinate made of an axial pair `(r, q)`.
pub trait AxialCoord: Coordinate {
    /// The `r` of this coordinate.
    spec fn spec_r(&self) -> int;

    /// The `q` of this coordinate.
    spec fn spec_q(&self) -> int;

    /// The coordinate of an axial pair.
    spec fn spec_new(r: int, q: int) -> Self;

    /// A coordinate holds an axial pair of `isize`, and is determined by it.
    proof fn lemma_axial(a: Self, r: int, q: int)
        ensures
            isize::MIN <= a.spec_r() <= isize::MAX,
            isize::MIN <= a.spec_q() <= isize::MAX,
            a == Self::spec_new(a.spec_r(), a.spec_q()),
            isize::MIN <= r <= isize::MAX && isize::MIN <= q <= isize::MAX ==> Self::spec_new(
                r,
                q,
            ).spec_r() == r && Self::spec_new(r, q).spec_q() == q,
    ;

    /// Creates a new coordinate.
    fn new(r: isize, q: isize) -> (c: Self)
        ensures
            c == Self::spec_new(r as int, q as int),
    ;

    /// Get the coordinate's r.
    fn r(&self) -> (r: isize)
        ensures
            r == self.spec_r(),
    ;

    /// Get the coordinate's q.
    fn q(&self) -> (q: isize)
        ensures
            q == self.spec_q(),
    ;
}

/// Axial based coordinates for hex graph.
#[derive(Debug, Clone, Copy, PartialEq, Eq, PartialOrd, Ord, Hash, Structural)]
pub struct HexAxial {
    pub r: isize,
    pub q: isize,
}

impl Default for HexAxial {
    /// The origin, `r = 0` and `q = 0`.
    fn default() -> (c: Self)
        ensures
            c == (HexAxial { r: 0, q: 0 }),
    {
        HexAxial { r: 0, q: 0 }
    }
}

impl HexAxial {
    /// Get the hex axial's r.
    pub fn r(&self) -> (r: isize)
        ensures
            r == self.r,
    {
        self.r
    }

    /// Get the hex axial's q.
    pub fn q(&self) -> (q: isize)
        ensures
            q == self.q,
    {
        self.q
    }

    /// Creates a new coordinate.
    pub fn new(r: isize, q: isize) -> (c: Self)
        ensures
            c.r == r,
            c.q == q,
    {
        Self { q, r }
    }
}

impl Coordinate for HexAxial {
    fn is_same(&self, other: &Self) -> (r: bool) {
        *self == *other
    }
}

impl AxialCoord for HexAxial {
    open spec fn spec_r(&self) -> int {
        self.r as int
    }

    open spec fn spec_q(&self) -> int {
        self.q as int
    }

    open spec fn spec_new(r: int, q: int) -> Self {
        HexAxial { r: r as isize, q: q as isize }
    }

    proof fn lemma_axial(a: Self, r: int, q: int) {
    }

    fn new(r: isize, q: isize) -> (c: Self) {
        HexAxial::new(r, q)
    }

    fn r(&self) -> (r: isize) {
        self.r
    }

    fn q(&self) -> (q: isize) {
        self.q
    }
}

/// The step `(dr, dq)` of a direction of index `i`, the same for both hex orientations.
pub open spec fn axial_step(i: nat) -> (int, int) {
    if i == 0 {
        (0, 1)
    } else if i == 1 {
        (1, 0)
    } else if i == 2 {
        (1, -1)
    } else if i == 3 {
        (0, -1)
    } else if i == 4 {
        (-1, 0)
    } else {
        (-1, 1)
    }
}

/// Whether a step from `(r, q)` stays inside `isize`.
pub open spec fn axial_step_fits(r: int, q: int, i: nat) -> bool {
    isize::MIN <= r + axial_step(i).0 <= isize::MAX && isize::MIN <= q + axial_step(i).1
        <= isize::MAX
}

/// Defines whether the hex graph is `flat-top` or `point-top` and is odd or even.
pub trait HexAxialShapeBase<HA: AxialCoord>: OE + RQ + Clone {
    type Axis: Axis;

    /// Move one step without a bound check; the result must fit in `isize`.
    fn move_coord_unchecked(coord: HA, dir: <Self::Axis as Axis>::Direction) -> (r: HA)
        requires
            axial_step_fits(coord.spec_r(), coord.spec_q(), dir.spec_dir_index()),
        ensures
            r == HA::spec_new(
                coord.spec_r() + axial_step(dir.spec_dir_index()).0,
                coord.spec_q() + axial_step(dir.spec_dir_index()).1,
            ),
    ;
}

/// A point top step.
fn move_coord_r<HA: AxialCoord>(coord: HA, dir: AxisDR) -> (r: HA)
    requires
        axial_step_fits(coord.spec_r(), coord.spec_q(), dir.spec_index()),
    ensures
        r == HA::spec_new(
            coord.spec_r() + axial_step(dir.spec_index()).0,
            coord.spec_q() + axial_step(dir.spec_index()).1,
        ),
{
    match dir {
        AxisDR::NE => HA::new(coord.r(), coord.q() + 1),
        AxisDR::E => HA::new(coord.r() + 1, coord.q()),
        AxisDR::SE => HA::new(coord.r() + 1, coord.q() - 1),
        AxisDR::SW => HA::new(coord.r(), coord.q() - 1),
        AxisDR::W => HA::new(coord.r() - 1, coord.q()),
        AxisDR::NW => HA::new(coord.r() - 1, coord.q() + 1),
    }
}

/// A flat top step.
fn move_coord_q<HA: AxialCoord>(coord: HA, dir: AxisDQ) -> (r: HA)
    requires
        axial_step_fits(coord.spec_r(), coord.spec_q(), dir.spec_index()),
    ensures
        r == HA::spec_new(
            coord.spec_r() + axial_step(dir.spec_index()).0,
            coord.spec_q() + axial_step(dir.spec_index()).1,
        ),
{
    match dir {
        AxisDQ::N => HA::new(coord.r(), coord.q() + 1),
        AxisDQ::NE => HA::new(coord.r() + 1, coord.q()),
        AxisDQ::SE => HA::new(coord.r() + 1, coord.q() - 1),
        AxisDQ::S => HA::new(coord.r(), coord.q() - 1),
        AxisDQ::SW => HA::new(coord.r() - 1, coord.q()),
        AxisDQ::NW => HA::new(coord.r() - 1, coord.q() + 1),
    }
}

impl<HA: AxialCoord> HexAxialShapeBase<HA> for OddR {
    type Axis = AxisR;

    fn move_coord_unchecked(coord: HA, dir: AxisDR) -> (r: HA) {
        move_coord_r(coord, dir)
    }
}

impl<HA: AxialCoord> HexAxialShapeBase<HA> for EvenR {
    type Axis = AxisR;

    fn move_coord_unchecked(coord: HA, dir: AxisDR) -> (r: HA) {
        move_coord_r(coord, dir)
    }
}

impl<HA: AxialCoord> HexAxialShapeBase<HA> for OddQ {
    type Axis = AxisQ;

    fn move_coord_unchecked(coord: HA, dir: AxisDQ) -> (r: HA) {
        move_coord_q(coord, dir)
    }
}

impl<HA: AxialCoord> HexAxialShapeBase<HA> for EvenQ {
    type Axis = AxisQ;

    fn move_coord_unchecked(coord: HA, dir: AxisDQ) -> (r: HA) {
        move_coord_q(coord, dir)
    }
}


/// The offset of `(r, q)` on an `h` by `v` lattice, or `None` when it is outside:
/// point top rows are shifted by `(q + conv) / 2`, flat top columns by `(r + conv) / 2`.
pub open spec fn axial_to_offset(flat: bool, conv: int, h: int, v: int, r: int, q: int) -> Option<
    Offset,
> {
    if flat {
        let y = q + (r + conv) / 2;
        if 0 <= r < h && 0 <= y < v {
            Some(offset(r, y))
        } else {
            None
        }
    } else {
        let x = r + (q + conv) / 2;
        if 0 <= q < v && 0 <= x < h {
            Some(offset(x, q))
        } else {
            None
        }
    }
}

/// The axial pair stored at an offset.
pub open spec fn axial_from_offset(flat: bool, conv: int, o: Offset) -> (int, int) {
    if flat {
        (o.horizontal as int, o.vertical - (o.horizontal + conv) / 2)
    } else {
        (o.horizontal - (o.vertical + conv) / 2, o.vertical as int)
    }
}

/// Whether a pair fits in `isize`.
pub open spec fn fits_isize(r: int, q: int) -> bool {
    isize::MIN <= r <= isize::MAX && isize::MIN <= q <= isize::MAX
}

fn to_offset_exec<B: OE + RQ, HA: AxialCoord>(h: usize, v: usize, coord: HA) -> (res: Result<
    Offset,
    (),
>)
    ensures
        res matches Ok(o) ==> axial_to_offset(
            B::spec_is_flat_top(),
            B::spec_convert_offset() as int,
            h as int,
            v as int,
            coord.spec_r(),
            coord.spec_q(),
        ) == Some(o),
        res is Ok <==> axial_to_offset(
            B::spec_is_flat_top(),
            B::spec_convert_offset() as int,
            h as int,
            v as int,
            coord.spec_r(),
            coord.spec_q(),
        ) is Some,
{
    let r: i128 = coord.r() as i128;
    let q: i128 = coord.q() as i128;
    let conv: i128 = B::convert_offset() as i128;
    let hh: i128 = h as i128;
    let vv: i128 = v as i128;
    if B::is_flat_top() {
        if 0 <= r && r < hh {
            let y: i128 = q + (r + conv) / 2;
            if 0 <= y && y < vv {
                return Ok(Offset::new(r as usize, y as usize));
            }
        }
    } else {
        if 0 <= q && q < vv {
            let x: i128 = r + (q + conv) / 2;
            if 0 <= x && x < hh {
                return Ok(Offset::new(x as usize, q as usize));
            }
        }
    }
    Err(())
}

fn from_offset_exec<B: OE + RQ, HA: AxialCoord>(o: Offset) -> (c: HA)
    requires
        fits_isize(
            axial_from_offset(B::spec_is_flat_top(), B::spec_convert_offset() as int, o).0,
            axial_from_offset(B::spec_is_flat_top(), B::spec_convert_offset() as int, o).1,
        ),
    ensures
        c == HA::spec_new(
            axial_from_offset(B::spec_is_flat_top(), B::spec_convert_offset() as int, o).0,
            axial_from_offset(B::spec_is_flat_top(), B::spec_convert_offset() as int, o).1,
        ),
{
    let x: i128 = o.horizontal as i128;
    let y: i128 = o.vertical as i128;
    let conv: i128 = B::convert_offset() as i128;
    if B::is_flat_top() {
        let q: i128 = y - (x + conv) / 2;
        HA::new(x as isize, q as isize)
    } else {
        let r: i128 = x - (y + conv) / 2;
        HA::new(r as isize, y as isize)
    }
}

fn axial_step_exec(i: usize) -> (r: (i128, i128))
    ensures
        r.0 == axial_step(i as nat).0,
        r.1 == axial_step(i as nat).1,
{
    if i == 0 {
        (0, 1)
    } else if i == 1 {
        (1, 0)
    } else if i == 2 {
        (1, -1)
    } else if i == 3 {
        (0, -1)
    } else if i == 4 {
        (-1, 0)
    } else {
        (-1, 1)
    }
}

/// Whether a step from `coord` in the direction of index `i` stays inside `isize`.
fn step_fits<HA: AxialCoord>(coord: &HA, i: usize) -> (r: bool)
    ensures
        r == axial_step_fits(coord.spec_r(), coord.spec_q(), i as nat),
{
    let (dr, dq) = axial_step_exec(i);
    let r: i128 = coord.r() as i128 + dr;
    let q: i128 = coord.q() as i128 + dq;
    (isize::MIN as i128) <= r && r <= (isize::MAX as i128) && (isize::MIN as i128) <= q && q <= (
    isize::MAX as i128)
}

/// Adds `h` until `r` reaches `min`.
pub open spec fn wrap_up(r: int, min: int, h: int) -> int
    decreases (if r < min {
        min - r
    } else {
        0
    }),
    when h > 0
{
    if r < min {
        wrap_up(r + h, min, h)
    } else {
        r
    }
}

/// Subtracts `h` until `r` is below `max`.
pub open spec fn wrap_down(r: int, max: int, h: int) -> int
    decreases (if r >= max {
        r - max + 1
    } else {
        0
    }),
    when h > 0
{
    if r >= max {
        wrap_down(r - h, max, h)
    } else {
        r
    }
}

/// The `r` of a point top coordinate in row `q` after wrapping east-west on a lattice
/// `h` wide: below `min = -((q + conv) / 2)` it is raised by `h`, at or above `min + h`
/// it is lowered by `h`, so that it lands in the row's `h` positions.
pub open spec fn lew_wrap(r: int, q: int, conv: int, h: int) -> int {
    let min = -((q + conv) / 2);
    if r < min {
        wrap_up(r, min, h)
    } else {
        wrap_down(r, min + h, h)
    }
}

/// Shape for axial based coordinates.
#[derive(Debug, Copy, PartialEq, Eq, PartialOrd, Ord, Hash)]
pub struct HexAxialShape<ShapeBase, Loop, H = usize, V = usize, HA = HexAxial> {
    h: H,
    v: V,
    l: PhantomData<Loop>,
    t: PhantomData<ShapeBase>,
    ha: PhantomData<HA>,
}

impl<ShapeBase, Loop, H: Copy, V: Copy, HA> Clone for HexAxialShape<ShapeBase, Loop, H, V, HA> {
    fn clone(&self) -> (r: Self)
        ensures
            r == *self,
    {
        HexAxialShape { h: self.h, v: self.v, l: PhantomData, t: PhantomData, ha: PhantomData }
    }
}

impl<ShapeBase, Loop, H, V, HA> HexAxialShape<ShapeBase, Loop, H, V, HA> {
    /// Create a new shape.
    pub fn new(h: H, v: V) -> (r: Self)
        ensures
            r.h() == h,
            r.v() == v,
    {
        Self { h, v, l: PhantomData, t: PhantomData, ha: PhantomData }
    }

    /// The horizontal size.
    pub closed spec fn h(&self) -> H {
        self.h
    }

    /// The vertical size.
    pub closed spec fn v(&self) -> V {
        self.v
    }

    /// The same shape with another loop marker.
    pub fn convert<L2>(&self) -> (r: HexAxialShape<ShapeBase, L2, H, V, HA>)
        where
            H: Copy,
            V: Copy,
        ensures
            r.h() == self.h(),
            r.v() == self.v(),
    {
        HexAxialShape { h: self.h, v: self.v, l: PhantomData, t: PhantomData, ha: PhantomData }
    }
}

/// Shape for axial based coordinates with const size. It takes no room.
pub type ConstHexAxialShape<T, L, const H: usize, const V: usize> = HexAxialShape<
    T,
    L,
    WrapUSIZE<H>,
    WrapUSIZE<V>,
>;

impl<T, L, const H: usize, const V: usize> Default for HexAxialShape<T, L, WrapUSIZE<H>, WrapUSIZE<V>> {
    fn default() -> (r: Self)
        ensures
            r.h().spec_size() == H,
            r.v().spec_size() == V,
    {
        Self::new(wrap_usize::<H>(), wrap_usize::<V>())
    }
}


impl<B, H, V, HA> Shape for HexAxialShape<B, (), H, V, HA> where
    HA: AxialCoord,
    B: HexAxialShapeBase<HA>,
    H: LatticeSize,
    V: LatticeSize,
 {
    type Axis = B::Axis;
    type Coordinate = HA;
    type OffsetConvertError = ();
    type CoordinateMoveError = ();

    open spec fn spec_horizontal(&self) -> nat {
        self.h().spec_size()
    }

    open spec fn spec_vertical(&self) -> nat {
        self.v().spec_size()
    }

    open spec fn spec_to_offset(&self, coord: HA) -> Option<Offset> {
        axial_to_offset(
            B::spec_is_flat_top(),
            B::spec_convert_offset() as int,
            self.spec_horizontal() as int,
            self.spec_vertical() as int,
            coord.spec_r(),
            coord.spec_q(),
        )
    }

    open spec fn spec_from_offset(&self, offset: Offset) -> HA {
        HA::spec_new(
            axial_from_offset(B::spec_is_flat_top(), B::spec_convert_offset() as int, offset).0,
            axial_from_offset(B::spec_is_flat_top(), B::spec_convert_offset() as int, offset).1,
        )
    }

    open spec fn spec_is_neighbor(&self, a: HA, b: HA) -> bool {
        exists|d: <B::Axis as Axis>::Direction| #[trigger] self.spec_move_coord(a, d) == Some(b)
    }

    open spec fn spec_horizontal_edge_size(&self, axis: B::Axis) -> int {
        self.spec_horizontal() as int
    }

    open spec fn spec_vertical_edge_size(&self, axis: B::Axis) -> int {
        self.spec_vertical() as int
    }

    open spec fn spec_valid(&self) -> bool {
        &&& self.spec_horizontal() <= isize::MAX
        &&& self.spec_vertical() <= isize::MAX
    }

    open spec fn spec_from_offset_ok(&self, offset: Offset) -> bool {
        fits_isize(
            axial_from_offset(B::spec_is_flat_top(), B::spec_convert_offset() as int, offset).0,
            axial_from_offset(B::spec_is_flat_top(), B::spec_convert_offset() as int, offset).1,
        )
    }

    proof fn lemma_valid_from_offset(&self, o: Offset) {
        B::lemma_convert_offset();
    }

    proof fn lemma_to_offset_in_range(&self, coord: HA) {
    }

    proof fn lemma_from_offset_to_offset(&self, o: Offset) {
        B::lemma_convert_offset();
        let p = axial_from_offset(B::spec_is_flat_top(), B::spec_convert_offset() as int, o);
        HA::lemma_axial(HA::spec_new(p.0, p.1), p.0, p.1);
    }

    fn horizontal(&self) -> (r: usize) {
        self.h.size()
    }

    fn vertical(&self) -> (r: usize) {
        self.v.size()
    }

    fn to_offset(&self, coord: HA) -> (r: Result<Offset, ()>) {
        to_offset_exec::<B, HA>(self.horizontal(), self.vertical(), coord)
    }

    fn from_offset(&self, offset: Offset) -> (r: HA) {
        from_offset_exec::<B, HA>(offset)
    }

    fn horizontal_edge_size(&self, axis: B::Axis) -> (r: usize) {
        self.horizontal()
    }

    fn vertical_edge_size(&self, axis: B::Axis) -> (r: usize) {
        self.vertical()
    }

    fn is_neighbor(&self, a: HA, b: HA) -> (r: bool) {
        self.get_direction(a, b).is_some()
    }

    open spec fn spec_move_coord(&self, coord: HA, dir: <B::Axis as Axis>::Direction) -> Option<HA> {
        let i = dir.spec_dir_index();
        let r = coord.spec_r() + axial_step(i).0;
        let q = coord.spec_q() + axial_step(i).1;
        if fits_isize(r, q) && axial_to_offset(
            B::spec_is_flat_top(),
            B::spec_convert_offset() as int,
            self.spec_horizontal() as int,
            self.spec_vertical() as int,
            r,
            q,
        ) is Some {
            Some(HA::spec_new(r, q))
        } else {
            None
        }
    }

    fn move_coord(&self, coord: HA, dir: <B::Axis as Axis>::Direction) -> (r: Result<HA, ()>) {
        let i: usize = dir.dir_to_index();
        if !step_fits(&coord, i) {
            return Err(());
        }
        let c = B::move_coord_unchecked(coord, dir);
        proof {
            HA::lemma_axial(
                c,
                coord.spec_r() + axial_step(i as nat).0,
                coord.spec_q() + axial_step(i as nat).1,
            );
        }
        match to_offset_exec::<B, HA>(self.horizontal(), self.vertical(), c) {
            Ok(_) => Ok(c),
            Err(_) => Err(()),
        }
    }

    fn move_coord_unchecked(&self, coord: HA, dir: <B::Axis as Axis>::Direction) -> (r: HA) {
        B::move_coord_unchecked(coord, dir)
    }
}

impl<B, H, V, HA> Shape for HexAxialShape<B, LEW, H, V, HA> where
    HA: AxialCoord,
    B: HexAxialShapeBase<HA>,
    H: LatticeSize,
    V: LatticeSize,
 {
    type Axis = B::Axis;
    type Coordinate = HA;
    type OffsetConvertError = ();
    type CoordinateMoveError = ();

    open spec fn spec_horizontal(&self) -> nat {
        self.h().spec_size()
    }

    open spec fn spec_vertical(&self) -> nat {
        self.v().spec_size()
    }

    open spec fn spec_to_offset(&self, coord: HA) -> Option<Offset> {
        axial_to_offset(
            B::spec_is_flat_top(),
            B::spec_convert_offset() as int,
            self.spec_horizontal() as int,
            self.spec_vertical() as int,
            coord.spec_r(),
            coord.spec_q(),
        )
    }

    open spec fn spec_from_offset(&self, offset: Offset) -> HA {
        HA::spec_new(
            axial_from_offset(B::spec_is_flat_top(), B::spec_convert_offset() as int, offset).0,
            axial_from_offset(B::spec_is_flat_top(), B::spec_convert_offset() as int, offset).1,
        )
    }

    open spec fn spec_is_neighbor(&self, a: HA, b: HA) -> bool {
        exists|d: <B::Axis as Axis>::Direction| #[trigger] self.spec_move_coord(a, d) == Some(b)
    }

    open spec fn spec_horizontal_edge_size(&self, axis: B::Axis) -> int {
        self.spec_horizontal() as int
    }

    open spec fn spec_vertical_edge_size(&self, axis: B::Axis) -> int {
        self.spec_vertical() as int
    }

    open spec fn spec_valid(&self) -> bool {
        &&& self.spec_horizontal() <= isize::MAX
        &&& self.spec_vertical() <= isize::MAX
    }

    open spec fn spec_from_offset_ok(&self, offset: Offset) -> bool {
        fits_isize(
            axial_from_offset(B::spec_is_flat_top(), B::spec_convert_offset() as int, offset).0,
            axial_from_offset(B::spec_is_flat_top(), B::spec_convert_offset() as int, offset).1,
        )
    }

    proof fn lemma_valid_from_offset(&self, o: Offset) {
        B::lemma_convert_offset();
    }

    proof fn lemma_to_offset_in_range(&self, coord: HA) {
    }

    proof fn lemma_from_offset_to_offset(&self, o: Offset) {
        B::lemma_convert_offset();
        let p = axial_from_offset(B::spec_is_flat_top(), B::spec_convert_offset() as int, o);
        HA::lemma_axial(HA::spec_new(p.0, p.1), p.0, p.1);
    }

    fn horizontal(&self) -> (r: usize) {
        self.h.size()
    }

    fn vertical(&self) -> (r: usize) {
        self.v.size()
    }

    fn to_offset(&self, coord: HA) -> (r: Result<Offset, ()>) {
        to_offset_exec::<B, HA>(self.horizontal(), self.vertical(), coord)
    }

    fn from_offset(&self, offset: Offset) -> (r: HA) {
        from_offset_exec::<B, HA>(offset)
    }

    fn horizontal_edge_size(&self, axis: B::Axis) -> (r: usize) {
        self.horizontal()
    }

    fn vertical_edge_size(&self, axis: B::Axis) -> (r: usize) {
        self.vertical()
    }

    fn is_neighbor(&self, a: HA, b: HA) -> (r: bool) {
        self.get_direction(a, b).is_some()
    }

    /// A step that leaves the rows fails; one that leaves east or west wraps around.
    open spec fn spec_move_coord(&self, coord: HA, dir: <B::Axis as Axis>::Direction) -> Option<HA> {
        let i = dir.spec_dir_index();
        let r = coord.spec_r() + axial_step(i).0;
        let q = coord.spec_q() + axial_step(i).1;
        let h = self.spec_horizontal() as int;
        let r2 = lew_wrap(r, q, B::spec_convert_offset() as int, h);
        if fits_isize(r, q) && 0 <= q < self.spec_vertical() && h > 0 && fits_isize(r2, q) {
            Some(HA::spec_new(r2, q))
        } else {
            None
        }
    }

    fn move_coord(&self, coord: HA, dir: <B::Axis as Axis>::Direction) -> (res: Result<HA, ()>) {
        let i: usize = dir.dir_to_index();
        if !step_fits(&coord, i) {
            return Err(());
        }
        let c = B::move_coord_unchecked(coord, dir);
        proof {
            HA::lemma_axial(
                c,
                coord.spec_r() + axial_step(i as nat).0,
                coord.spec_q() + axial_step(i as nat).1,
            );
        }
        let q: isize = c.q();
        let v: usize = self.vertical();
        if q < 0 || (q as usize) >= v {
            return Err(());
        }
        let h: usize = self.horizontal();
        if h == 0 {
            return Err(());
        }
        let conv: i128 = B::convert_offset() as i128;
        let min: i128 = -((q as i128 + conv) / 2);
        let hh: i128 = h as i128;
        let r0: i128 = c.r() as i128;
        let mut r: i128 = r0;
        let ghost target = lew_wrap(c.spec_r(), q as int, conv as int, hh as int);
        if r < min {
            while r < min
                invariant
                    hh > 0,
                    min <= 0,
                    r0 <= r,
                    isize::MIN <= r0,
                    hh <= usize::MAX,
                    wrap_up(r as int, min as int, hh as int) == target,
                decreases (if r < min {
                    min - r
                } else {
                    0
                }),
            {
                r = r + hh;
            }
        } else {
            let max: i128 = min + hh;
            while r >= max
                invariant
                    hh > 0,
                    r <= r0,
                    r0 <= isize::MAX,
                    max >= -(usize::MAX as i128),
                    hh <= usize::MAX as i128,
                    max <= usize::MAX as i128,
                    wrap_down(r as int, max as int, hh as int) == target,
                decreases (if r >= max {
                    r - max + 1
                } else {
                    0
                }),
            {
                r = r - hh;
            }
        }
        if (isize::MIN as i128) <= r && r <= (isize::MAX as i128) {
            Ok(HA::new(r as isize, q))
        } else {
            Err(())
        }
    }
}

/// Opposite directions, three apart round the six, take opposite steps.
proof fn lemma_axial_step_opposite(i: nat)
    requires
        i < 6,
    ensures
        axial_step((i + 3) % 6).0 == -axial_step(i).0,
        axial_step((i + 3) % 6).1 == -axial_step(i).1,
{
}

/// Moving one step from a coordinate in the graph and then one step in the opposite
/// direction, three further round the six, comes back to it.
pub proof fn lemma_axial_move_reversible<B, H, V, HA>(
    s: HexAxialShape<B, (), H, V, HA>,
    c: HA,
    d: <B::Axis as Axis>::Direction,
    e: <B::Axis as Axis>::Direction,
) where
    HA: AxialCoord,
    B: HexAxialShapeBase<HA>,
    H: LatticeSize,
    V: LatticeSize,

    requires
        s.spec_to_offset(c) is Some,
        s.spec_move_coord(c, d) is Some,
        d.spec_dir_index() < 6,
        e.spec_dir_index() == (d.spec_dir_index() + 3) % 6,
    ensures
        s.spec_move_coord(s.spec_move_coord(c, d)->0, e) == Some(c),
{
    let i = d.spec_dir_index();
    lemma_axial_step_opposite(i);
    let r = c.spec_r() + axial_step(i).0;
    let q = c.spec_q() + axial_step(i).1;
    HA::lemma_axial(c, r, q);
    let t = HA::spec_new(r, q);
    HA::lemma_axial(t, c.spec_r(), c.spec_q());
}

/// Raising by `h` until reaching `min` adds a whole number of `h`, and ends in
/// `[min, min + h)` when it had to raise at all.
proof fn lemma_wrap_up(r: int, min: int, h: int)
    requires
        h > 0,
    ensures
        exists|k: int| k >= 0 && #[trigger] (k * h) == wrap_up(r, min, h) - r,
        r < min ==> min <= wrap_up(r, min, h) < min + h,
        r >= min ==> wrap_up(r, min, h) == r,
    decreases (if r < min {
        min - r
    } else {
        0
    }),
{
    if r < min {
        lemma_wrap_up(r + h, min, h);
        let k = choose|k: int| k >= 0 && #[trigger] (k * h) == wrap_up(r + h, min, h) - (r + h);
        assert((k + 1) * h == k * h + h) by (nonlinear_arith);
        assert(k + 1 >= 0 && (k + 1) * h == wrap_up(r, min, h) - r);
    } else {
        assert(0 * h == 0) by (nonlinear_arith);
    }
}

/// Lowering by `h` until below `max` takes away a whole number of `h`, and ends in
/// `[max - h, max)` when it had to lower at all.
proof fn lemma_wrap_down(r: int, max: int, h: int)
    requires
        h > 0,
    ensures
        exists|k: int| k >= 0 && #[trigger] (k * h) == r - wrap_down(r, max, h),
        r >= max ==> max - h <= wrap_down(r, max, h) < max,
        r < max ==> wrap_down(r, max, h) == r,
    decreases (if r >= max {
        r - max + 1
    } else {
        0
    }),
{
    if r >= max {
        lemma_wrap_down(r - h, max, h);
        let k = choose|k: int| k >= 0 && #[trigger] (k * h) == (r - h) - wrap_down(r - h, max, h);
        assert((k + 1) * h == k * h + h) by (nonlinear_arith);
        assert(k + 1 >= 0 && (k + 1) * h == r - wrap_down(r, max, h));
    } else {
        assert(0 * h == 0) by (nonlinear_arith);
    }
}

/// Wrapping east-west moves `r` by a whole number of rows' widths, into the `h` positions
/// of row `q`.
proof fn lemma_lew_wrap(r: int, q: int, conv: int, h: int)
    requires
        h > 0,
    ensures
        exists|k: int| #[trigger] (k * h) == lew_wrap(r, q, conv, h) - r,
        -((q + conv) / 2) <= lew_wrap(r, q, conv, h) < -((q + conv) / 2) + h,
{
    let min = -((q + conv) / 2);
    if r < min {
        lemma_wrap_up(r, min, h);
    } else {
        lemma_wrap_down(r, min + h, h);
        let k = choose|k: int| k >= 0 && #[trigger] (k * h) == r - wrap_down(r, min + h, h);
        assert((-k) * h == -(k * h)) by (nonlinear_arith);
    }
}

/// Two positions of one row that differ by a whole number of rows' widths are the same.
proof fn lemma_same_position(a: int, b: int, k: int, min: int, h: int)
    requires
        h > 0,
        min <= a < min + h,
        min <= b < min + h,
        k * h == a - b,
    ensures
        a == b,
{
    if k > 0 {
        assert(k * h >= h) by (nonlinear_arith)
            requires
                k > 0,
                h > 0,
        ;
    } else if k < 0 {
        assert(k * h <= -h) by (nonlinear_arith)
            requires
                k < 0,
                h > 0,
        ;
    } else {
        assert(k * h == 0) by (nonlinear_arith)
            requires
                k == 0,
        ;
    }
}

/// On a lattice that loops east-west, moving one step from a coordinate whose row lies in
/// the lattice and whose `r` is the one the wrap picks, and then one step in the opposite
/// direction, comes back to it.
pub proof fn lemma_axial_lew_move_reversible<B, H, V, HA>(
    s: HexAxialShape<B, LEW, H, V, HA>,
    c: HA,
    d: <B::Axis as Axis>::Direction,
    e: <B::Axis as Axis>::Direction,
) where
    HA: AxialCoord,
    B: HexAxialShapeBase<HA>,
    H: LatticeSize,
    V: LatticeSize,

    requires
        s.spec_valid(),
        0 <= c.spec_q() < s.spec_vertical(),
        lew_wrap(c.spec_r(), c.spec_q(), B::spec_convert_offset() as int, s.spec_horizontal() as int)
            == c.spec_r(),
        s.spec_move_coord(c, d) is Some,
        d.spec_dir_index() < 6,
        e.spec_dir_index() == (d.spec_dir_index() + 3) % 6,
    ensures
        s.spec_move_coord(s.spec_move_coord(c, d)->0, e) == Some(c),
{
    let i = d.spec_dir_index();
    let j = e.spec_dir_index();
    lemma_axial_step_opposite(i);
    let h = s.spec_horizontal() as int;
    let conv = B::spec_convert_offset() as int;
    B::lemma_convert_offset();
    HA::lemma_axial(c, 0, 0);
    let r = c.spec_r();
    let q = c.spec_q();
    let r1 = r + axial_step(i).0;
    let q1 = q + axial_step(i).1;
    let r2 = lew_wrap(r1, q1, conv, h);
    lemma_lew_wrap(r1, q1, conv, h);
    let k1 = choose|k: int| #[trigger] (k * h) == lew_wrap(r1, q1, conv, h) - r1;
    HA::lemma_axial(c, r2, q1);
    let m = HA::spec_new(r2, q1);
    assert(s.spec_move_coord(c, d) == Some(m));
    assert(m.spec_r() == r2 && m.spec_q() == q1);
    let r3 = r2 + axial_step(j).0;
    let q3 = q1 + axial_step(j).1;
    assert(q3 == q);
    assert(r3 == r + k1 * h);
    assert(fits_isize(r3, q3));
    let r4 = lew_wrap(r3, q3, conv, h);
    lemma_lew_wrap(r3, q3, conv, h);
    let k2 = choose|k: int| #[trigger] (k * h) == lew_wrap(r3, q3, conv, h) - r3;
    lemma_lew_wrap(r, q, conv, h);
    assert((k1 + k2) * h == k1 * h + k2 * h) by (nonlinear_arith);
    lemma_same_position(r4, r, k1 + k2, -((q + conv) / 2), h);
    HA::lemma_axial(c, r4, q3);
}

/// On a point top lattice that loops east-west, moving one step from a coordinate in the
/// graph and then one step in the opposite direction comes back to it.
pub proof fn lemma_axial_lew_move_reversible_in_graph<B, H, V, HA>(
    s: HexAxialShape<B, LEW, H, V, HA>,
    c: HA,
    d: <B::Axis as Axis>::Direction,
    e: <B::Axis as Axis>::Direction,
) where
    HA: AxialCoord,
    B: HexAxialShapeBase<HA>,
    H: LatticeSize,
    V: LatticeSize,

    requires
        !B::spec_is_flat_top(),
        s.spec_valid(),
        s.spec_to_offset(c) is Some,
        s.spec_move_coord(c, d) is Some,
        d.spec_dir_index() < 6,
        e.spec_dir_index() == (d.spec_dir_index() + 3) % 6,
    ensures
        s.spec_move_coord(s.spec_move_coord(c, d)->0, e) == Some(c),
{
    let h = s.spec_horizontal() as int;
    let conv = B::spec_convert_offset() as int;
    lemma_wrap_down(c.spec_r(), -((c.spec_q() + conv) / 2) + h, h);
    lemma_axial_lew_move_reversible(s, c, d, e);
}

/// The axial origin is stored at the offset origin, and the offset of a coordinate stored
/// in the lattice gives the coordinate back.
pub proof fn lemma_axial_origin<B, H, V, HA>(s: HexAxialShape<B, (), H, V, HA>, c: HA)
    where
        HA: AxialCoord,
        B: HexAxialShapeBase<HA>,
        H: LatticeSize,
        V: LatticeSize,
    requires
        s.spec_horizontal() > 0,
        s.spec_vertical() > 0,
    ensures
        s.spec_to_offset(HA::spec_new(0, 0)) == Some(Offset { horizontal: 0, vertical: 0 }),
        s.spec_from_offset(Offset { horizontal: 0, vertical: 0 }) == HA::spec_new(0, 0),
        s.spec_to_offset(c) matches Some(o) ==> s.spec_from_offset(o) == c,
{
    B::lemma_convert_offset();
    HA::lemma_axial(HA::spec_new(0, 0), 0, 0);
    HA::lemma_axial(c, 0, 0);
}

/// How the stored offset follows the axial pair on a flat top lattice: one step in `q` is one
/// row up in the same column; one step in `r` is one column east, and one row up as well
/// when `r + CONVERT_OFFSET` is odd.
pub proof fn lemma_axial_flat_steps<B, H, V, HA>(s: HexAxialShape<B, (), H, V, HA>, r: int, q: int)
    where
        HA: AxialCoord,
        B: HexAxialShapeBase<HA>,
        H: LatticeSize,
        V: LatticeSize,
    requires
        B::spec_is_flat_top(),
        isize::MIN <= r < isize::MAX,
        isize::MIN <= q < isize::MAX,
    ensures
        s.spec_to_offset(HA::spec_new(r, q)) matches Some(a) ==> (s.spec_to_offset(HA::spec_new(r, q + 1))
            matches Some(b) ==> b.horizontal == a.horizontal && b.vertical == a.vertical + 1),
        s.spec_to_offset(HA::spec_new(r, q)) matches Some(a) ==> (s.spec_to_offset(HA::spec_new(r + 1, q))
            matches Some(b) ==> b.horizontal == a.horizontal + 1 && b.vertical == a.vertical + (r
            + B::spec_convert_offset()) % 2),
{
    B::lemma_convert_offset();
    HA::lemma_axial(HA::spec_new(r, q), r, q);
    HA::lemma_axial(HA::spec_new(r, q + 1), r, q + 1);
    HA::lemma_axial(HA::spec_new(r + 1, q), r + 1, q);
    let k = r + B::spec_convert_offset();
    assert((k + 1) / 2 - k / 2 == k % 2) by (nonlinear_arith);
}

/// How the stored offset follows the axial pair on a point top lattice: one step in `r` is one
/// column east in the same row; one step in `q` is one row up, and one column east as well
/// when `q + CONVERT_OFFSET` is odd.
pub proof fn lemma_axial_point_steps<B, H, V, HA>(s: HexAxialShape<B, (), H, V, HA>, r: int, q: int)
    where
        HA: AxialCoord,
        B: HexAxialShapeBase<HA>,
        H: LatticeSize,
        V: LatticeSize,
    requires
        !B::spec_is_flat_top(),
        isize::MIN <= r < isize::MAX,
        isize::MIN <= q < isize::MAX,
    ensures
        s.spec_to_offset(HA::spec_new(r, q)) matches Some(a) ==> (s.spec_to_offset(HA::spec_new(r + 1, q))
            matches Some(b) ==> b.horizontal == a.horizontal + 1 && b.vertical == a.vertical),
        s.spec_to_offset(HA::spec_new(r, q)) matches Some(a) ==> (s.spec_to_offset(HA::spec_new(r, q + 1))
            matches Some(b) ==> b.vertical == a.vertical + 1 && b.horizontal == a.horizontal + (q
            + B::spec_convert_offset()) % 2),
{
    B::lemma_convert_offset();
    HA::lemma_axial(HA::spec_new(r, q), r, q);
    HA::lemma_axial(HA::spec_new(r, q + 1), r, q + 1);
    HA::lemma_axial(HA::spec_new(r + 1, q), r + 1, q);
    let k = q + B::spec_convert_offset();
    assert((k + 1) / 2 - k / 2 == k % 2) by (nonlinear_arith);
}

} // verus!
