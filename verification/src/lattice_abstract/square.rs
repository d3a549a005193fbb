//! Square shapes for the abstract lattice graph: with and without diagonal edges,
//! directed and undirected.
use super::LatticeGraph;
use super::shapes::{
    offset_step, shift, Axis, AxisDirection, Coordinate, Offset, Shape,
};
use petgraph::{Directed, Undirected};
use std::marker::PhantomData;
use vstd::prelude::*;

verus! {

/// Undirected square graph.
pub type SquareGraphAbstract<N, E> = LatticeGraph<N, E, SquareShape>;

/// Directed square graph.
pub type DirectedSquareGraph<N, E> = LatticeGraph<N, E, SquareShape<Directed>>;

/// Undirected square graph with diagonal edges.
pub type DiagonalSquareGraph<N, E> = LatticeGraph<N, E, SquareDiagonalShape>;

/// Directed square graph with diagonal edges.
pub type DirectedDiagonalSquareGraph<N, E> = LatticeGraph<N, E, SquareDiagonalShape<Directed>>;

/// Marker for a directed graph, of `petgraph`.
#[verifier::external_type_specification]
#[verifier::external_body]
pub struct ExDirected(petgraph::Directed);

/// Marker for an undirected graph, of `petgraph`.
#[verifier::external_type_specification]
#[verifier::external_body]
pub struct ExUndirected(petgraph::Undirected);

/// Axis for square graph.
#[derive(Debug, Clone, Copy, PartialEq, Eq, PartialOrd, Ord, Hash, Structural)]
pub enum SquareAxis {
    X,
    Y,
}

impl Axis for SquareAxis {
    const COUNT: usize = 2;
    const DIRECTED: bool = false;
    const DIRECTED_COUNT: usize = 4;
    type Direction = DirectedSquareAxis;

    open spec fn spec_count() -> nat {
        2
    }

    open spec fn spec_directed() -> bool {
        false
    }

    open spec fn spec_directed_count() -> nat {
        4
    }

    proof fn lemma_consts() {
    }

    open spec fn spec_index(&self) -> nat {
        match self {
            SquareAxis::X => 0,
            SquareAxis::Y => 1,
        }
    }

    open spec fn spec_foward(self) -> DirectedSquareAxis {
        match self {
            SquareAxis::X => DirectedSquareAxis::X,
            SquareAxis::Y => DirectedSquareAxis::Y,
        }
    }

    open spec fn spec_backward(self) -> DirectedSquareAxis {
        match self {
            SquareAxis::X => DirectedSquareAxis::RX,
            SquareAxis::Y => DirectedSquareAxis::RY,
        }
    }

    open spec fn spec_from_direction(dir: DirectedSquareAxis) -> SquareAxis {
        match dir {
            DirectedSquareAxis::X | DirectedSquareAxis::RX => SquareAxis::X,
            DirectedSquareAxis::Y | DirectedSquareAxis::RY => SquareAxis::Y,
        }
    }

    proof fn lemma_counts() {
    }

    proof fn lemma_index_injective(a: Self, b: Self) {
    }

    proof fn lemma_index_bound(a: Self) {
    }

    proof fn lemma_axis_directions(a: Self) {
    }

    proof fn lemma_direction_of_axis(d: Self::Direction) {
    }

    fn to_index(&self) -> (r: usize) {
        match self {
            SquareAxis::X => 0,
            SquareAxis::Y => 1,
        }
    }

    fn from_index_unchecked(index: usize) -> (r: Self) {
        match index {
            0 => SquareAxis::X,
            _ => SquareAxis::Y,
        }
    }

    fn from_index(index: usize) -> (r: Option<Self>) {
        match index {
            0 => Some(SquareAxis::X),
            1 => Some(SquareAxis::Y),
            _ => None,
        }
    }

    fn foward(self) -> (r: DirectedSquareAxis) {
        DirectedSquareAxis::from_index_unchecked(self.to_index())
    }

    fn backward(self) -> (r: DirectedSquareAxis) {
        DirectedSquareAxis::from_index_unchecked(self.to_index() + 2)
    }

    fn is_forward_direction(dir: &Self::Direction) -> (r: bool) {
        Self::DIRECTED || dir.dir_to_index() == Self::from_direction(*dir).to_index()
    }

    fn from_direction(dir: DirectedSquareAxis) -> (r: Self) {
        let i: usize = dir.dir_to_index();
        Self::from_index_unchecked(
            if i >= 2 {
                i - 2
            } else {
                i
            },
        )
    }
}

/// Offset for square lattice graph.
#[derive(Debug, Clone, Copy, PartialEq, Eq, PartialOrd, Ord, Hash, Structural)]
pub struct SquareOffset(pub Offset);

impl Default for SquareOffset {
    /// The coordinate `(0, 0)`.
    fn default() -> (r: Self)
        ensures
            r == SquareOffset(Offset { horizontal: 0, vertical: 0 }),
    {
        SquareOffset(Offset { horizontal: 0, vertical: 0 })
    }
}

impl From<(usize, usize)> for SquareOffset {
    fn from(x: (usize, usize)) -> (r: Self) {
        SquareOffset(Offset { horizontal: x.0, vertical: x.1 })
    }
}

impl vstd::std_specs::convert::FromSpecImpl<(usize, usize)> for SquareOffset {
    open spec fn obeys_from_spec() -> bool {
        true
    }

    open spec fn from_spec(v: (usize, usize)) -> SquareOffset {
        SquareOffset(Offset { horizontal: v.0, vertical: v.1 })
    }
}

impl Coordinate for SquareOffset {
    fn is_same(&self, other: &Self) -> (r: bool) {
        *self == *other
    }
}

/// Shape for square graph.
#[derive(Debug, Copy, PartialEq, Eq, PartialOrd, Ord, Hash)]
pub struct SquareShape<E = Undirected> {
    h: usize,
    v: usize,
    e: PhantomData<E>,
}

impl<E> Default for SquareShape<E> {
    /// The empty shape, of no node.
    fn default() -> (r: Self)
        ensures
            r.h() == 0,
            r.v() == 0,
    {
        SquareShape { h: 0, v: 0, e: PhantomData }
    }
}

impl<E> Clone for SquareShape<E> {
    fn clone(&self) -> (r: Self)
        ensures
            r == *self,
    {
        SquareShape { h: self.h, v: self.v, e: PhantomData }
    }
}

impl<E> SquareShape<E> {
    /// Create a new shape of `h` by `v` nodes.
    pub fn new(h: usize, v: usize) -> (r: Self)
        ensures
            r.h() == h,
            r.v() == v,
    {
        Self { h, v, e: PhantomData }
    }

    /// Horizontal node count.
    pub closed spec fn h(&self) -> nat {
        self.h as nat
    }

    /// Vertical node count.
    pub closed spec fn v(&self) -> nat {
        self.v as nat
    }

}

/// The offset of a square coordinate when it lies inside an `h` by `v` lattice.
pub open spec fn square_range(h: nat, v: nat, coord: SquareOffset) -> Option<Offset> {
    if coord.0.horizontal < h && coord.0.vertical < v {
        Some(coord.0)
    } else {
        None
    }
}

/// The unit step of a directed square axis.
pub open spec fn square_step(dir: DirectedSquareAxis) -> (int, int) {
    match dir {
        DirectedSquareAxis::X => (1, 0),
        DirectedSquareAxis::Y => (0, 1),
        DirectedSquareAxis::RX => (-1, 0),
        DirectedSquareAxis::RY => (0, -1),
    }
}

/// A move on a square lattice of `h` by `v` nodes.
pub open spec fn square_move(h: nat, v: nat, coord: SquareOffset, dir: DirectedSquareAxis) -> Option<
    SquareOffset,
> {
    match shift(coord.0, square_step(dir).0, square_step(dir).1, h as int, v as int) {
        Some(o) => Some(SquareOffset(o)),
        None => None,
    }
}

fn range_check(h: usize, v: usize, coord: SquareOffset) -> (r: Result<Offset, ()>)
    ensures
        r matches Ok(o) ==> o == coord.0,
        r is Ok <==> square_range(h as nat, v as nat, coord) is Some,
{
    if coord.0.horizontal < h && coord.0.vertical < v {
        Ok(coord.0)
    } else {
        Err(())
    }
}

fn move_coord(h: usize, v: usize, coord: SquareOffset, dir: DirectedSquareAxis) -> (r: Result<
    SquareOffset,
    (),
>)
    ensures
        r matches Ok(c) ==> square_move(h as nat, v as nat, coord, dir) == Some(c),
        r is Ok <==> square_move(h as nat, v as nat, coord, dir) is Some,
{
    let o = match dir {
        DirectedSquareAxis::X => if coord.0.horizontal < h {
            coord.0.add_x(1).check_x(h)
        } else {
            None
        },
        DirectedSquareAxis::Y => if coord.0.vertical < v {
            coord.0.add_y(1).check_y(v)
        } else {
            None
        },
        DirectedSquareAxis::RX => coord.0.sub_x(1),
        DirectedSquareAxis::RY => coord.0.sub_y(1),
    };
    match o {
        Some(s) => Ok(SquareOffset(s)),
        None => Err(()),
    }
}

impl Shape for SquareShape<Undirected> {
    type Axis = SquareAxis;
    type Coordinate = SquareOffset;
    type OffsetConvertError = ();
    type CoordinateMoveError = ();

    open spec fn spec_horizontal(&self) -> nat {
        self.h()
    }

    open spec fn spec_vertical(&self) -> nat {
        self.v()
    }

    open spec fn spec_to_offset(&self, coord: SquareOffset) -> Option<Offset> {
        square_range(self.h(), self.v(), coord)
    }

    open spec fn spec_from_offset(&self, offset: Offset) -> SquareOffset {
        SquareOffset(offset)
    }

    open spec fn spec_move_coord(&self, coord: SquareOffset, dir: DirectedSquareAxis) -> Option<
        SquareOffset,
    > {
        square_move(self.h(), self.v(), coord, dir)
    }

    open spec fn spec_horizontal_edge_size(&self, axis: SquareAxis) -> int {
        match axis {
            SquareAxis::X => self.h() - 1,
            SquareAxis::Y => self.h() as int,
        }
    }

    open spec fn spec_vertical_edge_size(&self, axis: SquareAxis) -> int {
        match axis {
            SquareAxis::X => self.v() as int,
            SquareAxis::Y => self.v() - 1,
        }
    }

    open spec fn spec_is_neighbor(&self, a: SquareOffset, b: SquareOffset) -> bool {
        exists|d: DirectedSquareAxis| #[trigger] self.spec_move_coord(a, d) == Some(b)
    }

    open spec fn spec_valid(&self) -> bool {
        true
    }

    open spec fn spec_from_offset_ok(&self, offset: Offset) -> bool {
        true
    }

    proof fn lemma_valid_from_offset(&self, o: Offset) {
    }

    proof fn lemma_to_offset_in_range(&self, coord: SquareOffset) {
    }

    proof fn lemma_from_offset_to_offset(&self, o: Offset) {
    }

    fn horizontal(&self) -> (r: usize) {
        self.h
    }

    fn vertical(&self) -> (r: usize) {
        self.v
    }

    fn to_offset(&self, coord: SquareOffset) -> (r: Result<Offset, ()>) {
        range_check(self.h, self.v, coord)
    }

    fn to_offset_unchecked(&self, coord: SquareOffset) -> (r: Offset) {
        coord.0
    }

    fn from_offset(&self, offset: Offset) -> (r: SquareOffset) {
        SquareOffset(offset)
    }

    fn horizontal_edge_size(&self, axis: SquareAxis) -> (r: usize) {
        let h: usize = self.horizontal();
        match axis {
            SquareAxis::X => h - 1,
            SquareAxis::Y => h,
        }
    }

    fn vertical_edge_size(&self, axis: SquareAxis) -> (r: usize) {
        let v: usize = self.vertical();
        match axis {
            SquareAxis::X => v,
            SquareAxis::Y => v - 1,
        }
    }

    fn is_neighbor(&self, a: SquareOffset, b: SquareOffset) -> (r: bool) {
        self.get_direction(a, b).is_some()
    }

    fn move_coord(&self, coord: SquareOffset, dir: DirectedSquareAxis) -> (r: Result<
        SquareOffset,
        (),
    >) {
        move_coord(self.h, self.v, coord, dir)
    }
}

/// Axis for directed square graph.
#[derive(Debug, Clone, Copy, PartialEq, Eq, PartialOrd, Ord, Hash, Structural)]
pub enum DirectedSquareAxis {
    X,
    Y,
    RX,
    RY,
}

impl Axis for DirectedSquareAxis {
    const COUNT: usize = 4;
    const DIRECTED: bool = true;
    const DIRECTED_COUNT: usize = 4;
    type Direction = DirectedSquareAxis;

    open spec fn spec_count() -> nat {
        4
    }

    open spec fn spec_directed() -> bool {
        true
    }

    open spec fn spec_directed_count() -> nat {
        4
    }

    proof fn lemma_consts() {
    }

    open spec fn spec_index(&self) -> nat {
        match self {
            DirectedSquareAxis::X => 0,
            DirectedSquareAxis::Y => 1,
            DirectedSquareAxis::RX => 2,
            DirectedSquareAxis::RY => 3,
        }
    }

    open spec fn spec_foward(self) -> Self {
        self
    }

    /// The reverse direction.
    open spec fn spec_backward(self) -> Self {
        match self {
            DirectedSquareAxis::X => DirectedSquareAxis::RX,
            DirectedSquareAxis::Y => DirectedSquareAxis::RY,
            DirectedSquareAxis::RX => DirectedSquareAxis::X,
            DirectedSquareAxis::RY => DirectedSquareAxis::Y,
        }
    }

    open spec fn spec_from_direction(dir: Self) -> Self {
        dir
    }

    proof fn lemma_counts() {
    }

    proof fn lemma_index_injective(a: Self, b: Self) {
    }

    proof fn lemma_index_bound(a: Self) {
    }

    proof fn lemma_axis_directions(a: Self) {
    }

    proof fn lemma_direction_of_axis(d: Self::Direction) {
    }

    fn to_index(&self) -> (r: usize) {
        match self {
            DirectedSquareAxis::X => 0,
            DirectedSquareAxis::Y => 1,
            DirectedSquareAxis::RX => 2,
            DirectedSquareAxis::RY => 3,
        }
    }

    fn from_index_unchecked(index: usize) -> (r: Self) {
        match index {
            0 => DirectedSquareAxis::X,
            1 => DirectedSquareAxis::Y,
            2 => DirectedSquareAxis::RX,
            _ => DirectedSquareAxis::RY,
        }
    }

    fn from_index(index: usize) -> (r: Option<Self>) {
        match index {
            0 => Some(DirectedSquareAxis::X),
            1 => Some(DirectedSquareAxis::Y),
            2 => Some(DirectedSquareAxis::RX),
            3 => Some(DirectedSquareAxis::RY),
            _ => None,
        }
    }

    fn foward(self) -> (r: Self) {
        self
    }

    fn backward(self) -> (r: Self) {
        let x: usize = self.to_index();
        let x2: usize = if x >= 2 {
            x - 2
        } else {
            x + 2
        };
        Self::from_index_unchecked(x2)
    }

    fn is_forward_direction(dir: &Self::Direction) -> (r: bool) {
        true
    }

    fn from_direction(dir: Self) -> (r: Self) {
        dir
    }
}

impl AxisDirection for DirectedSquareAxis {
    open spec fn spec_dir_count() -> nat {
        4
    }

    open spec fn spec_dir_index(&self) -> nat {
        self.spec_index()
    }

    open spec fn spec_is_forward(&self) -> bool {
        true
    }

    proof fn lemma_dir_index_bound(d: Self) {
    }

    proof fn lemma_dir_index_injective(a: Self, b: Self) {
    }

    fn is_forward(&self) -> (r: bool) {
        true
    }

    fn dir_to_index(&self) -> (r: usize) {
        self.to_index()
    }

    fn dir_from_index_unchecked(index: usize) -> (r: Self) {
        Self::from_index_unchecked(index)
    }

    fn dir_from_index(index: usize) -> (r: Option<Self>) {
        Self::from_index(index)
    }
}

impl Shape for SquareShape<Directed> {
    type Axis = DirectedSquareAxis;
    type Coordinate = SquareOffset;
    type OffsetConvertError = ();
    type CoordinateMoveError = ();

    open spec fn spec_horizontal(&self) -> nat {
        self.h()
    }

    open spec fn spec_vertical(&self) -> nat {
        self.v()
    }

    open spec fn spec_to_offset(&self, coord: SquareOffset) -> Option<Offset> {
        square_range(self.h(), self.v(), coord)
    }

    open spec fn spec_from_offset(&self, offset: Offset) -> SquareOffset {
        SquareOffset(offset)
    }

    open spec fn spec_move_coord(&self, coord: SquareOffset, dir: DirectedSquareAxis) -> Option<
        SquareOffset,
    > {
        square_move(self.h(), self.v(), coord, dir)
    }

    open spec fn spec_horizontal_edge_size(&self, axis: DirectedSquareAxis) -> int {
        self.h() as int
    }

    open spec fn spec_vertical_edge_size(&self, axis: DirectedSquareAxis) -> int {
        self.v() as int
    }

    open spec fn spec_is_neighbor(&self, a: SquareOffset, b: SquareOffset) -> bool {
        exists|d: DirectedSquareAxis| #[trigger] self.spec_move_coord(a, d) == Some(b)
    }

    open spec fn spec_valid(&self) -> bool {
        true
    }

    open spec fn spec_from_offset_ok(&self, offset: Offset) -> bool {
        true
    }

    proof fn lemma_valid_from_offset(&self, o: Offset) {
    }

    proof fn lemma_to_offset_in_range(&self, coord: SquareOffset) {
    }

    proof fn lemma_from_offset_to_offset(&self, o: Offset) {
    }

    fn horizontal(&self) -> (r: usize) {
        self.h
    }

    fn vertical(&self) -> (r: usize) {
        self.v
    }

    fn to_offset(&self, coord: SquareOffset) -> (r: Result<Offset, ()>) {
        range_check(self.h, self.v, coord)
    }

    fn from_offset(&self, offset: Offset) -> (r: SquareOffset) {
        SquareOffset(offset)
    }

    fn horizontal_edge_size(&self, axis: DirectedSquareAxis) -> (r: usize) {
        self.horizontal()
    }

    fn vertical_edge_size(&self, axis: DirectedSquareAxis) -> (r: usize) {
        self.vertical()
    }

    fn is_neighbor(&self, a: SquareOffset, b: SquareOffset) -> (r: bool) {
        self.get_direction(a, b).is_some()
    }

    fn move_coord(&self, coord: SquareOffset, dir: DirectedSquareAxis) -> (r: Result<
        SquareOffset,
        (),
    >) {
        move_coord(self.h, self.v, coord, dir)
    }
}


/// Axis for lattice graph with square and diagonal edges.
#[derive(Debug, Clone, Copy, PartialEq, Eq, PartialOrd, Ord, Hash, Structural)]
pub enum SquareDiagonalAxis {
    N,
    NE,
    E,
    SE,
}

impl Axis for SquareDiagonalAxis {
    const COUNT: usize = 4;
    const DIRECTED: bool = false;
    const DIRECTED_COUNT: usize = 8;
    type Direction = DirectedSquareDiagonalAxis;

    open spec fn spec_count() -> nat {
        4
    }

    open spec fn spec_directed() -> bool {
        false
    }

    open spec fn spec_directed_count() -> nat {
        8
    }

    proof fn lemma_consts() {
    }

    open spec fn spec_index(&self) -> nat {
        match self {
            SquareDiagonalAxis::N => 0,
            SquareDiagonalAxis::NE => 1,
            SquareDiagonalAxis::E => 2,
            SquareDiagonalAxis::SE => 3,
        }
    }

    open spec fn spec_foward(self) -> DirectedSquareDiagonalAxis {
        match self {
            SquareDiagonalAxis::N => DirectedSquareDiagonalAxis::N,
            SquareDiagonalAxis::NE => DirectedSquareDiagonalAxis::NE,
            SquareDiagonalAxis::E => DirectedSquareDiagonalAxis::E,
            SquareDiagonalAxis::SE => DirectedSquareDiagonalAxis::SE,
        }
    }

    open spec fn spec_backward(self) -> DirectedSquareDiagonalAxis {
        match self {
            SquareDiagonalAxis::N => DirectedSquareDiagonalAxis::S,
            SquareDiagonalAxis::NE => DirectedSquareDiagonalAxis::SW,
            SquareDiagonalAxis::E => DirectedSquareDiagonalAxis::W,
            SquareDiagonalAxis::SE => DirectedSquareDiagonalAxis::NW,
        }
    }

    open spec fn spec_from_direction(dir: DirectedSquareDiagonalAxis) -> SquareDiagonalAxis {
        match dir {
            DirectedSquareDiagonalAxis::N | DirectedSquareDiagonalAxis::S => SquareDiagonalAxis::N,
            DirectedSquareDiagonalAxis::NE | DirectedSquareDiagonalAxis::SW => SquareDiagonalAxis::NE,
            DirectedSquareDiagonalAxis::E | DirectedSquareDiagonalAxis::W => SquareDiagonalAxis::E,
            DirectedSquareDiagonalAxis::SE | DirectedSquareDiagonalAxis::NW => SquareDiagonalAxis::SE,
        }
    }

    proof fn lemma_counts() {
    }

    proof fn lemma_index_injective(a: Self, b: Self) {
    }

    proof fn lemma_index_bound(a: Self) {
    }

    proof fn lemma_axis_directions(a: Self) {
    }

    proof fn lemma_direction_of_axis(d: Self::Direction) {
    }

    fn to_index(&self) -> (r: usize) {
        match self {
            SquareDiagonalAxis::N => 0,
            SquareDiagonalAxis::NE => 1,
            SquareDiagonalAxis::E => 2,
            SquareDiagonalAxis::SE => 3,
        }
    }

    fn from_index_unchecked(index: usize) -> (r: Self) {
        match index {
            0 => SquareDiagonalAxis::N,
            1 => SquareDiagonalAxis::NE,
            2 => SquareDiagonalAxis::E,
            _ => SquareDiagonalAxis::SE,
        }
    }

    fn from_index(index: usize) -> (r: Option<Self>) {
        match index {
            0 => Some(SquareDiagonalAxis::N),
            1 => Some(SquareDiagonalAxis::NE),
            2 => Some(SquareDiagonalAxis::E),
            3 => Some(SquareDiagonalAxis::SE),
            _ => None,
        }
    }

    fn foward(self) -> (r: DirectedSquareDiagonalAxis) {
        DirectedSquareDiagonalAxis::from_index_unchecked(self.to_index())
    }

    fn backward(self) -> (r: DirectedSquareDiagonalAxis) {
        DirectedSquareDiagonalAxis::from_index_unchecked(self.to_index() + 4)
    }

    fn is_forward_direction(dir: &Self::Direction) -> (r: bool) {
        Self::DIRECTED || dir.dir_to_index() == Self::from_direction(*dir).to_index()
    }

    fn from_direction(dir: DirectedSquareDiagonalAxis) -> (r: Self) {
        let i: usize = dir.dir_to_index();
        Self::from_index_unchecked(
            if i < 4 {
                i
            } else {
                i - 4
            },
        )
    }
}

/// Directed axis for lattice graph with square and diagonal edges.
#[derive(Debug, Clone, Copy, PartialEq, Eq, PartialOrd, Ord, Hash, Structural)]
pub enum DirectedSquareDiagonalAxis {
    N,
    NE,
    E,
    SE,
    S,
    SW,
    W,
    NW,
}

impl Axis for DirectedSquareDiagonalAxis {
    const COUNT: usize = 8;
    const DIRECTED: bool = true;
    const DIRECTED_COUNT: usize = 8;
    type Direction = DirectedSquareDiagonalAxis;

    open spec fn spec_count() -> nat {
        8
    }

    open spec fn spec_directed() -> bool {
        true
    }

    open spec fn spec_directed_count() -> nat {
        8
    }

    proof fn lemma_consts() {
    }

    open spec fn spec_index(&self) -> nat {
        match self {
            DirectedSquareDiagonalAxis::N => 0,
            DirectedSquareDiagonalAxis::NE => 1,
            DirectedSquareDiagonalAxis::E => 2,
            DirectedSquareDiagonalAxis::SE => 3,
            DirectedSquareDiagonalAxis::S => 4,
            DirectedSquareDiagonalAxis::SW => 5,
            DirectedSquareDiagonalAxis::W => 6,
            DirectedSquareDiagonalAxis::NW => 7,
        }
    }

    open spec fn spec_foward(self) -> Self {
        self
    }

    /// The reverse direction.
    open spec fn spec_backward(self) -> Self {
        match self {
            DirectedSquareDiagonalAxis::N => DirectedSquareDiagonalAxis::S,
            DirectedSquareDiagonalAxis::NE => DirectedSquareDiagonalAxis::SW,
            DirectedSquareDiagonalAxis::E => DirectedSquareDiagonalAxis::W,
            DirectedSquareDiagonalAxis::SE => DirectedSquareDiagonalAxis::NW,
            DirectedSquareDiagonalAxis::S => DirectedSquareDiagonalAxis::N,
            DirectedSquareDiagonalAxis::SW => DirectedSquareDiagonalAxis::NE,
            DirectedSquareDiagonalAxis::W => DirectedSquareDiagonalAxis::E,
            DirectedSquareDiagonalAxis::NW => DirectedSquareDiagonalAxis::SE,
        }
    }

    open spec fn spec_from_direction(dir: Self) -> Self {
        dir
    }

    proof fn lemma_counts() {
    }

    proof fn lemma_index_injective(a: Self, b: Self) {
    }

    proof fn lemma_index_bound(a: Self) {
    }

    proof fn lemma_axis_directions(a: Self) {
    }

    proof fn lemma_direction_of_axis(d: Self::Direction) {
    }

    fn to_index(&self) -> (r: usize) {
        match self {
            DirectedSquareDiagonalAxis::N => 0,
            DirectedSquareDiagonalAxis::NE => 1,
            DirectedSquareDiagonalAxis::E => 2,
            DirectedSquareDiagonalAxis::SE => 3,
            DirectedSquareDiagonalAxis::S => 4,
            DirectedSquareDiagonalAxis::SW => 5,
            DirectedSquareDiagonalAxis::W => 6,
            DirectedSquareDiagonalAxis::NW => 7,
        }
    }

    fn from_index_unchecked(index: usize) -> (r: Self) {
        match index {
            0 => DirectedSquareDiagonalAxis::N,
            1 => DirectedSquareDiagonalAxis::NE,
            2 => DirectedSquareDiagonalAxis::E,
            3 => DirectedSquareDiagonalAxis::SE,
            4 => DirectedSquareDiagonalAxis::S,
            5 => DirectedSquareDiagonalAxis::SW,
            6 => DirectedSquareDiagonalAxis::W,
            _ => DirectedSquareDiagonalAxis::NW,
        }
    }

    fn from_index(index: usize) -> (r: Option<Self>) {
        if index < 8 {
            Some(Self::from_index_unchecked(index))
        } else {
            None
        }
    }

    fn foward(self) -> (r: Self) {
        self
    }

    fn backward(self) -> (r: Self) {
        let i: usize = self.to_index();
        Self::from_index_unchecked(
            if i < 4 {
                i + 4
            } else {
                i - 4
            },
        )
    }

    fn is_forward_direction(dir: &Self::Direction) -> (r: bool) {
        true
    }

    fn from_direction(dir: Self) -> (r: Self) {
        dir
    }
}

impl AxisDirection for DirectedSquareDiagonalAxis {
    open spec fn spec_dir_count() -> nat {
        8
    }

    open spec fn spec_dir_index(&self) -> nat {
        self.spec_index()
    }

    open spec fn spec_is_forward(&self) -> bool {
        true
    }

    proof fn lemma_dir_index_bound(d: Self) {
    }

    proof fn lemma_dir_index_injective(a: Self, b: Self) {
    }

    fn is_forward(&self) -> (r: bool) {
        true
    }

    fn dir_to_index(&self) -> (r: usize) {
        self.to_index()
    }

    fn dir_from_index_unchecked(index: usize) -> (r: Self) {
        Self::from_index_unchecked(index)
    }

    fn dir_from_index(index: usize) -> (r: Option<Self>) {
        Self::from_index(index)
    }
}

/// The unit step of a directed diagonal axis.
pub open spec fn diagonal_step(dir: DirectedSquareDiagonalAxis) -> (int, int) {
    match dir {
        DirectedSquareDiagonalAxis::N => (0, 1),
        DirectedSquareDiagonalAxis::NE => (1, 1),
        DirectedSquareDiagonalAxis::E => (1, 0),
        DirectedSquareDiagonalAxis::SE => (1, -1),
        DirectedSquareDiagonalAxis::S => (0, -1),
        DirectedSquareDiagonalAxis::SW => (-1, -1),
        DirectedSquareDiagonalAxis::W => (-1, 0),
        DirectedSquareDiagonalAxis::NW => (-1, 1),
    }
}

/// A move on a square lattice with diagonal edges of `h` by `v` nodes.
pub open spec fn diagonal_move(
    h: nat,
    v: nat,
    coord: SquareOffset,
    dir: DirectedSquareDiagonalAxis,
) -> Option<SquareOffset> {
    match shift(coord.0, diagonal_step(dir).0, diagonal_step(dir).1, h as int, v as int) {
        Some(o) => Some(SquareOffset(o)),
        None => None,
    }
}

fn diagonal_move_coord(h: usize, v: usize, coord: SquareOffset, dir: DirectedSquareDiagonalAxis) -> (r: Result<SquareOffset, ()>)
    ensures
        r matches Ok(c) ==> diagonal_move(h as nat, v as nat, coord, dir) == Some(c),
        r is Ok <==> diagonal_move(h as nat, v as nat, coord, dir) is Some,
{
    let (dx, dy): (i8, i8) = match dir {
        DirectedSquareDiagonalAxis::N => (0, 1),
        DirectedSquareDiagonalAxis::NE => (1, 1),
        DirectedSquareDiagonalAxis::E => (1, 0),
        DirectedSquareDiagonalAxis::SE => (1, -1),
        DirectedSquareDiagonalAxis::S => (0, -1),
        DirectedSquareDiagonalAxis::SW => (-1, -1),
        DirectedSquareDiagonalAxis::W => (-1, 0),
        DirectedSquareDiagonalAxis::NW => (-1, 1),
    };
    match offset_step(coord.0, dx, dy, h, v) {
        Some(o) => Ok(SquareOffset(o)),
        None => Err(()),
    }
}

/// Shape for lattice graph with square and diagonal edges.
#[derive(Debug, Copy, PartialEq, Eq, Hash)]
pub struct SquareDiagonalShape<E = Undirected> {
    h: usize,
    v: usize,
    e: PhantomData<E>,
}

impl<E> Clone for SquareDiagonalShape<E> {
    fn clone(&self) -> (r: Self)
        ensures
            r == *self,
    {
        SquareDiagonalShape { h: self.h, v: self.v, e: PhantomData }
    }
}

impl<E> SquareDiagonalShape<E> {
    /// Create a new shape of `h` by `v` nodes.
    pub fn new(h: usize, v: usize) -> (r: Self)
        ensures
            r.h() == h,
            r.v() == v,
    {
        Self { h, v, e: PhantomData }
    }

    /// Horizontal node count.
    pub closed spec fn h(&self) -> nat {
        self.h as nat
    }

    /// Vertical node count.
    pub closed spec fn v(&self) -> nat {
        self.v as nat
    }
}

impl Shape for SquareDiagonalShape<Undirected> {
    type Axis = SquareDiagonalAxis;
    type Coordinate = SquareOffset;
    type OffsetConvertError = ();
    type CoordinateMoveError = ();

    open spec fn spec_horizontal(&self) -> nat {
        self.h()
    }

    open spec fn spec_vertical(&self) -> nat {
        self.v()
    }

    open spec fn spec_to_offset(&self, coord: SquareOffset) -> Option<Offset> {
        square_range(self.h(), self.v(), coord)
    }

    open spec fn spec_from_offset(&self, offset: Offset) -> SquareOffset {
        SquareOffset(offset)
    }

    open spec fn spec_move_coord(&self, coord: SquareOffset, dir: DirectedSquareDiagonalAxis) -> Option<SquareOffset> {
        diagonal_move(self.h(), self.v(), coord, dir)
    }

    open spec fn spec_horizontal_edge_size(&self, axis: SquareDiagonalAxis) -> int {
        self.h() as int
    }

    open spec fn spec_vertical_edge_size(&self, axis: SquareDiagonalAxis) -> int {
        self.v() as int
    }

    open spec fn spec_is_neighbor(&self, a: SquareOffset, b: SquareOffset) -> bool {
        exists|d: DirectedSquareDiagonalAxis| #[trigger] self.spec_move_coord(a, d) == Some(b)
    }

    open spec fn spec_valid(&self) -> bool {
        true
    }

    open spec fn spec_from_offset_ok(&self, offset: Offset) -> bool {
        true
    }

    proof fn lemma_valid_from_offset(&self, o: Offset) {
    }

    proof fn lemma_to_offset_in_range(&self, coord: SquareOffset) {
    }

    proof fn lemma_from_offset_to_offset(&self, o: Offset) {
    }

    fn horizontal(&self) -> (r: usize) {
        self.h
    }

    fn vertical(&self) -> (r: usize) {
        self.v
    }

    fn to_offset(&self, coord: SquareOffset) -> (r: Result<Offset, ()>) {
        if coord.0.horizontal < self.horizontal() && coord.0.vertical < self.vertical() {
            Ok(coord.0)
        } else {
            Err(())
        }
    }

    fn to_offset_unchecked(&self, coord: SquareOffset) -> (r: Offset) {
        coord.0
    }

    fn from_offset(&self, offset: Offset) -> (r: SquareOffset) {
        SquareOffset(offset)
    }

    fn horizontal_edge_size(&self, axis: SquareDiagonalAxis) -> (r: usize) {
        self.horizontal()
    }

    fn vertical_edge_size(&self, axis: SquareDiagonalAxis) -> (r: usize) {
        self.vertical()
    }

    fn is_neighbor(&self, a: SquareOffset, b: SquareOffset) -> (r: bool) {
        self.get_direction(a, b).is_some()
    }

    fn move_coord(&self, coord: SquareOffset, dir: DirectedSquareDiagonalAxis) -> (r: Result<SquareOffset, ()>) {
        diagonal_move_coord(self.h, self.v, coord, dir)
    }
}

impl Shape for SquareDiagonalShape<Directed> {
    type Axis = DirectedSquareDiagonalAxis;
    type Coordinate = SquareOffset;
    type OffsetConvertError = ();
    type CoordinateMoveError = ();

    open spec fn spec_horizontal(&self) -> nat {
        self.h()
    }

    open spec fn spec_vertical(&self) -> nat {
        self.v()
    }

    open spec fn spec_to_offset(&self, coord: SquareOffset) -> Option<Offset> {
        square_range(self.h(), self.v(), coord)
    }

    open spec fn spec_from_offset(&self, offset: Offset) -> SquareOffset {
        SquareOffset(offset)
    }

    open spec fn spec_move_coord(&self, coord: SquareOffset, dir: DirectedSquareDiagonalAxis) -> Option<SquareOffset> {
        diagonal_move(self.h(), self.v(), coord, dir)
    }

    open spec fn spec_horizontal_edge_size(&self, axis: DirectedSquareDiagonalAxis) -> int {
        self.h() as int
    }

    open spec fn spec_vertical_edge_size(&self, axis: DirectedSquareDiagonalAxis) -> int {
        self.v() as int
    }

    open spec fn spec_is_neighbor(&self, a: SquareOffset, b: SquareOffset) -> bool {
        exists|d: DirectedSquareDiagonalAxis| #[trigger] self.spec_move_coord(a, d) == Some(b)
    }

    open spec fn spec_valid(&self) -> bool {
        true
    }

    open spec fn spec_from_offset_ok(&self, offset: Offset) -> bool {
        true
    }

    proof fn lemma_valid_from_offset(&self, o: Offset) {
    }

    proof fn lemma_to_offset_in_range(&self, coord: SquareOffset) {
    }

    proof fn lemma_from_offset_to_offset(&self, o: Offset) {
    }

    fn horizontal(&self) -> (r: usize) {
        self.h
    }

    fn vertical(&self) -> (r: usize) {
        self.v
    }

    fn to_offset(&self, coord: SquareOffset) -> (r: Result<Offset, ()>) {
        if coord.0.horizontal < self.horizontal() && coord.0.vertical < self.vertical() {
            Ok(coord.0)
        } else {
            Err(())
        }
    }

    fn to_offset_unchecked(&self, coord: SquareOffset) -> (r: Offset) {
        coord.0
    }

    fn from_offset(&self, offset: Offset) -> (r: SquareOffset) {
        SquareOffset(offset)
    }

    fn horizontal_edge_size(&self, axis: DirectedSquareDiagonalAxis) -> (r: usize) {
        self.horizontal()
    }

    fn vertical_edge_size(&self, axis: DirectedSquareDiagonalAxis) -> (r: usize) {
        self.vertical()
    }

    fn is_neighbor(&self, a: SquareOffset, b: SquareOffset) -> (r: bool) {
        self.get_direction(a, b).is_some()
    }

    fn move_coord(&self, coord: SquareOffset, dir: DirectedSquareDiagonalAxis) -> (r: Result<SquareOffset, ()>) {
        diagonal_move_coord(self.h, self.v, coord, dir)
    }
}

/// Moving one step from a coordinate in the graph and then one step the reverse way comes
/// back to it.
pub proof fn lemma_square_move_reversible(s: SquareShape<Undirected>, c: SquareOffset, d: DirectedSquareAxis)
    requires
        s.spec_to_offset(c) is Some,
        s.spec_move_coord(c, d) is Some,
    ensures
        s.spec_move_coord(s.spec_move_coord(c, d)->0, d.spec_backward()) == Some(c),
{
}

/// Moving one step from a coordinate in the graph and then one step the reverse way comes
/// back to it.
pub proof fn lemma_directed_square_move_reversible(
    s: SquareShape<Directed>,
    c: SquareOffset,
    d: DirectedSquareAxis,
)
    requires
        s.spec_to_offset(c) is Some,
        s.spec_move_coord(c, d) is Some,
    ensures
        s.spec_move_coord(s.spec_move_coord(c, d)->0, d.spec_backward()) == Some(c),
{
}

/// Moving one step from a coordinate in the graph and then one step the reverse way comes
/// back to it.
pub proof fn lemma_diagonal_move_reversible(
    s: SquareDiagonalShape<Undirected>,
    c: SquareOffset,
    d: DirectedSquareDiagonalAxis,
)
    requires
        s.spec_to_offset(c) is Some,
        s.spec_move_coord(c, d) is Some,
    ensures
        s.spec_move_coord(s.spec_move_coord(c, d)->0, d.spec_backward()) == Some(c),
{
}

/// Moving one step from a coordinate in the graph and then one step the reverse way comes
/// back to it.
pub proof fn lemma_directed_diagonal_move_reversible(
    s: SquareDiagonalShape<Directed>,
    c: SquareOffset,
    d: DirectedSquareDiagonalAxis,
)
    requires
        s.spec_to_offset(c) is Some,
        s.spec_move_coord(c, d) is Some,
    ensures
        s.spec_move_coord(s.spec_move_coord(c, d)->0, d.spec_backward()) == Some(c),
{
}

/// On a square lattice with diagonal edges, the four straight steps are those of the
/// plain square lattice of the same size, and each diagonal step is its east or west step
/// followed by its north or south step.
pub proof fn lemma_diagonal_steps_compose(s: SquareDiagonalShape<Undirected>, c: SquareOffset)
    ensures
        s.spec_move_coord(c, DirectedSquareDiagonalAxis::N) == square_move(s.h(), s.v(), c, DirectedSquareAxis::Y),
        s.spec_move_coord(c, DirectedSquareDiagonalAxis::E) == square_move(s.h(), s.v(), c, DirectedSquareAxis::X),
        s.spec_move_coord(c, DirectedSquareDiagonalAxis::S) == square_move(s.h(), s.v(), c, DirectedSquareAxis::RY),
        s.spec_move_coord(c, DirectedSquareDiagonalAxis::W) == square_move(s.h(), s.v(), c, DirectedSquareAxis::RX),
        s.spec_move_coord(c, DirectedSquareDiagonalAxis::NE) == (match s.spec_move_coord(c, DirectedSquareDiagonalAxis::E) {
            Some(m) => s.spec_move_coord(m, DirectedSquareDiagonalAxis::N),
            None => None,
        }),
        s.spec_move_coord(c, DirectedSquareDiagonalAxis::SE) == (match s.spec_move_coord(c, DirectedSquareDiagonalAxis::E) {
            Some(m) => s.spec_move_coord(m, DirectedSquareDiagonalAxis::S),
            None => None,
        }),
        s.spec_move_coord(c, DirectedSquareDiagonalAxis::SW) == (match s.spec_move_coord(c, DirectedSquareDiagonalAxis::W) {
            Some(m) => s.spec_move_coord(m, DirectedSquareDiagonalAxis::S),
            None => None,
        }),
        s.spec_move_coord(c, DirectedSquareDiagonalAxis::NW) == (match s.spec_move_coord(c, DirectedSquareDiagonalAxis::W) {
            Some(m) => s.spec_move_coord(m, DirectedSquareDiagonalAxis::N),
            None => None,
        }),
{
}

/// On a square lattice with diagonal edges and directed edges, the four straight steps are those of the
/// plain square lattice of the same size, and each diagonal step is its east or west step
/// followed by its north or south step.
pub proof fn lemma_directed_diagonal_steps_compose(s: SquareDiagonalShape<Directed>, c: SquareOffset)
    ensures
        s.spec_move_coord(c, DirectedSquareDiagonalAxis::N) == square_move(s.h(), s.v(), c, DirectedSquareAxis::Y),
        s.spec_move_coord(c, DirectedSquareDiagonalAxis::E) == square_move(s.h(), s.v(), c, DirectedSquareAxis::X),
        s.spec_move_coord(c, DirectedSquareDiagonalAxis::S) == square_move(s.h(), s.v(), c, DirectedSquareAxis::RY),
        s.spec_move_coord(c, DirectedSquareDiagonalAxis::W) == square_move(s.h(), s.v(), c, DirectedSquareAxis::RX),
        s.spec_move_coord(c, DirectedSquareDiagonalAxis::NE) == (match s.spec_move_coord(c, DirectedSquareDiagonalAxis::E) {
            Some(m) => s.spec_move_coord(m, DirectedSquareDiagonalAxis::N),
            None => None,
        }),
        s.spec_move_coord(c, DirectedSquareDiagonalAxis::SE) == (match s.spec_move_coord(c, DirectedSquareDiagonalAxis::E) {
            Some(m) => s.spec_move_coord(m, DirectedSquareDiagonalAxis::S),
            None => None,
        }),
        s.spec_move_coord(c, DirectedSquareDiagonalAxis::SW) == (match s.spec_move_coord(c, DirectedSquareDiagonalAxis::W) {
            Some(m) => s.spec_move_coord(m, DirectedSquareDiagonalAxis::S),
            None => None,
        }),
        s.spec_move_coord(c, DirectedSquareDiagonalAxis::NW) == (match s.spec_move_coord(c, DirectedSquareDiagonalAxis::W) {
            Some(m) => s.spec_move_coord(m, DirectedSquareDiagonalAxis::N),
            None => None,
        }),
{
}

} // verus!
