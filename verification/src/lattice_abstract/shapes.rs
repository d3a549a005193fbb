//! Shapes to define the behavior of the [`LatticeGraph`](`crate::lattice_abstract::LatticeGraph`).
//!
//! A shape decides how a coordinate is laid out in the storage (an [`Offset`]),
//! and how a coordinate moves along a direction.
use const_generic_wrap::WrapUSIZE;
use vstd::prelude::*;

verus! {

/// Actual position in the storage: `horizontal` is the row, `vertical` the column.
#[derive(Debug, Clone, Copy, PartialEq, Eq, PartialOrd, Ord, Hash, Structural)]
pub struct Offset {
    pub horizontal: usize,
    pub vertical: usize,
}

impl Default for Offset {
    /// The offset `(0, 0)`.
    fn default() -> (r: Self)
        ensures
            r == (Offset { horizontal: 0, vertical: 0 }),
    {
        Offset { horizontal: 0, vertical: 0 }
    }
}

/// The offset `(h, v)` as a value.
pub open spec fn offset(h: int, v: int) -> Offset {
    Offset { horizontal: h as usize, vertical: v as usize }
}

/// One step of `(dx, dy)` from `o`: a coordinate that grows is checked against the size,
/// one that shrinks against zero, one that stays is not checked.
pub open spec fn shift(o: Offset, dx: int, dy: int, h: int, v: int) -> Option<Offset> {
    let x = o.horizontal + dx;
    let y = o.vertical + dy;
    if (dx > 0 ==> x < h) && (dx < 0 ==> x >= 0) && (dy > 0 ==> y < v) && (dy < 0 ==> y >= 0) {
        Some(offset(x, y))
    } else {
        None
    }
}

/// One unit step of `(dx, dy)` from `o` inside an `h` by `v` lattice, as [`shift`] states it.
pub(crate) fn offset_step(o: Offset, dx: i8, dy: i8, h: usize, v: usize) -> (r: Option<Offset>)
    requires
        -1 <= dx <= 1,
        -1 <= dy <= 1,
    ensures
        r == shift(o, dx as int, dy as int, h as int, v as int),
{
    let x: usize = if dx > 0 {
        if o.horizontal < h && o.horizontal + 1 < h {
            o.horizontal + 1
        } else {
            return None;
        }
    } else if dx < 0 {
        if o.horizontal >= 1 {
            o.horizontal - 1
        } else {
            return None;
        }
    } else {
        o.horizontal
    };
    let y: usize = if dy > 0 {
        if o.vertical < v && o.vertical + 1 < v {
            o.vertical + 1
        } else {
            return None;
        }
    } else if dy < 0 {
        if o.vertical >= 1 {
            o.vertical - 1
        } else {
            return None;
        }
    } else {
        o.vertical
    };
    Some(Offset::new(x, y))
}

impl Offset {
    pub fn new(h: usize, v: usize) -> (r: Self)
        ensures
            r.horizontal == h,
            r.vertical == v,
    {
        Offset { horizontal: h, vertical: v }
    }

    pub fn horizontal(&self) -> (r: usize)
        ensures
            r == self.horizontal,
    {
        self.horizontal
    }

    pub fn vertical(&self) -> (r: usize)
        ensures
            r == self.vertical,
    {
        self.vertical
    }

    pub fn add_x(&self, x: usize) -> (r: Self)
        requires
            self.horizontal + x <= usize::MAX,
        ensures
            r.horizontal == self.horizontal + x,
            r.vertical == self.vertical,
    {
        Offset::new(self.horizontal + x, self.vertical)
    }

    pub fn add_y(&self, y: usize) -> (r: Self)
        requires
            self.vertical + y <= usize::MAX,
        ensures
            r.horizontal == self.horizontal,
            r.vertical == self.vertical + y,
    {
        Offset::new(self.horizontal, self.vertical + y)
    }

    pub fn set_x(&self, x: usize) -> (r: Self)
        ensures
            r.horizontal == x,
            r.vertical == self.vertical,
    {
        Offset::new(x, self.vertical)
    }

    pub fn set_y(&self, y: usize) -> (r: Self)
        ensures
            r.horizontal == self.horizontal,
            r.vertical == y,
    {
        Offset::new(self.horizontal, y)
    }

    /// Subtracts `x` from the horizontal position; `None` when it would go below zero.
    pub fn sub_x(&self, x: usize) -> (r: Option<Self>)
        ensures
            r == (if x <= self.horizontal {
                Some(offset(self.horizontal - x, self.vertical as int))
            } else {
                None
            }),
    {
        match self.horizontal.checked_sub(x) {
            Some(h) => Some(Offset::new(h, self.vertical)),
            None => None,
        }
    }

    /// Subtracts `y` from the vertical position; `None` when it would go below zero.
    pub fn sub_y(&self, y: usize) -> (r: Option<Self>)
        ensures
            r == (if y <= self.vertical {
                Some(offset(self.horizontal as int, self.vertical - y))
            } else {
                None
            }),
    {
        match self.vertical.checked_sub(y) {
            Some(v) => Some(Offset::new(self.horizontal, v)),
            None => None,
        }
    }

    pub fn sub_x_unchecked(&self, x: usize) -> (r: Self)
        requires
            x <= self.horizontal,
        ensures
            r == offset(self.horizontal - x, self.vertical as int),
    {
        Offset::new(self.horizontal - x, self.vertical)
    }

    pub fn sub_y_unchecked(&self, y: usize) -> (r: Self)
        requires
            y <= self.vertical,
        ensures
            r == offset(self.horizontal as int, self.vertical - y),
    {
        Offset::new(self.horizontal, self.vertical - y)
    }

    /// Keeps the offset when its horizontal position is below `x_max`.
    pub fn check_x(&self, x_max: usize) -> (r: Option<Self>)
        ensures
            r == (if self.horizontal < x_max {
                Some(*self)
            } else {
                None
            }),
    {
        if self.horizontal < x_max {
            Some(*self)
        } else {
            None
        }
    }

    /// Keeps the offset when its vertical position is below `y_max`.
    pub fn check_y(&self, y_max: usize) -> (r: Option<Self>)
        ensures
            r == (if self.vertical < y_max {
                Some(*self)
            } else {
                None
            }),
    {
        if self.vertical < y_max {
            Some(*self)
        } else {
            None
        }
    }
}

impl From<(usize, usize)> for Offset {
    fn from(offset: (usize, usize)) -> (r: Self) {
        Offset { horizontal: offset.0, vertical: offset.1 }
    }
}

impl vstd::std_specs::convert::FromSpecImpl<(usize, usize)> for Offset {
    open spec fn obeys_from_spec() -> bool {
        true
    }

    open spec fn from_spec(v: (usize, usize)) -> Offset {
        Offset { horizontal: v.0, vertical: v.1 }
    }
}

/// Axis of the graph. It holds what direction of edge which node has.
pub trait Axis: Copy + PartialEq + Sized {
    /// Number of axis.
    const COUNT: usize;
    /// Whether it is directed or not.
    const DIRECTED: bool;
    /// If this axis is not directed, it is doubled, otherwise same as `COUNT`.
    const DIRECTED_COUNT: usize;
    /// The direction type. For a directed axis it is the axis itself.
    type Direction: AxisDirection;

    /// [`COUNT`](`Axis::COUNT`), as the contracts read it.
    spec fn spec_count() -> nat;

    /// [`DIRECTED`](`Axis::DIRECTED`), as the contracts read it.
    spec fn spec_directed() -> bool;

    /// [`DIRECTED_COUNT`](`Axis::DIRECTED_COUNT`), as the contracts read it.
    spec fn spec_directed_count() -> nat;

    /// The constants of the axis are the values of its spec functions.
    proof fn lemma_consts()
        ensures
            Self::COUNT as nat == Self::spec_count(),
            Self::DIRECTED == Self::spec_directed(),
            Self::DIRECTED_COUNT as nat == Self::spec_directed_count(),
    ;

    /// The index of this axis.
    spec fn spec_index(&self) -> nat;

    /// The forward direction of this axis.
    spec fn spec_foward(self) -> Self::Direction;

    /// The backward direction of this axis.
    spec fn spec_backward(self) -> Self::Direction;

    /// The axis a direction runs along.
    spec fn spec_from_direction(dir: Self::Direction) -> Self;

    /// The counts are consistent: the directions are twice the axes when undirected,
    /// the same when directed, and every direction index lies below `DIRECTED_COUNT`.
    proof fn lemma_counts()
        ensures
            Self::DIRECTED_COUNT == (if Self::DIRECTED {
                Self::COUNT as int
            } else {
                2 * Self::COUNT
            }),
            Self::DIRECTED_COUNT as nat == <Self::Direction as AxisDirection>::spec_dir_count(),
            2 * Self::COUNT <= usize::MAX,
    ;

    /// Two axes with the same index are the same axis.
    proof fn lemma_index_injective(a: Self, b: Self)
        requires
            a.spec_index() == b.spec_index(),
        ensures
            a == b,
    ;

    /// Every axis index lies below `COUNT`.
    proof fn lemma_index_bound(a: Self)
        ensures
            a.spec_index() < Self::COUNT,
    ;

    /// The forward direction of an axis runs along it, with the axis's index where the axis
    /// is undirected. The backward
    /// direction of an undirected axis runs along the same axis the other way; that of a
    /// directed axis is another axis, whose backward direction is the first axis again.
    proof fn lemma_axis_directions(a: Self)
        ensures
            Self::spec_from_direction(a.spec_foward()) == a,
            !Self::DIRECTED ==> a.spec_foward().spec_dir_index() == a.spec_index(),
            !Self::DIRECTED ==> Self::spec_from_direction(a.spec_backward()) == a
                && a.spec_backward().spec_dir_index() != a.spec_index(),
            Self::DIRECTED ==> Self::spec_from_direction(a.spec_backward()) != a
                && Self::spec_from_direction(Self::spec_from_direction(a.spec_backward()).spec_backward()) == a,
    ;

    /// Every direction is the forward or the backward direction of its axis.
    proof fn lemma_direction_of_axis(d: Self::Direction)
        ensures
            d == (if Self::DIRECTED || d.spec_dir_index() == Self::spec_from_direction(d).spec_index() {
                Self::spec_from_direction(d).spec_foward()
            } else {
                Self::spec_from_direction(d).spec_backward()
            }),
    ;

    /// Convert to index.
    fn to_index(&self) -> (r: usize)
        ensures
            r == self.spec_index(),
    ;

    /// Convert from index. The index must be below `COUNT`.
    fn from_index_unchecked(index: usize) -> (r: Self)
        requires
            index < Self::COUNT,
        ensures
            r.spec_index() == index,
    ;

    /// Convert from index.
    fn from_index(index: usize) -> (r: Option<Self>)
        ensures
            r is Some <==> index < Self::COUNT,
            r matches Some(a) ==> a.spec_index() == index,
    ;

    /// To forward direction. It is a no-op when the axis is `DIRECTED`.
    fn foward(self) -> (r: Self::Direction)
        ensures
            r == self.spec_foward(),
    ;

    /// To backward direction. It reverses when the axis is `DIRECTED`.
    fn backward(self) -> (r: Self::Direction)
        ensures
            r == self.spec_backward(),
    ;

    /// Check the direction is forward for this axis.
    /// Returns true if the axis is `DIRECTED`, or the index of the axis and direction matches.
    fn is_forward_direction(dir: &Self::Direction) -> (r: bool)
        ensures
            r == (Self::DIRECTED || dir.spec_dir_index() == Self::spec_from_direction(
                *dir,
            ).spec_index()),
    ;

    /// Convert from direction.
    fn from_direction(dir: Self::Direction) -> (r: Self)
        ensures
            r == Self::spec_from_direction(dir),
    ;
}

/// Direction of axis. It tells which direction is connected to node.
pub trait AxisDirection: Copy + Sized {
    /// The number of directions.
    spec fn spec_dir_count() -> nat;

    /// The index of this direction.
    spec fn spec_dir_index(&self) -> nat;

    /// Whether this direction matches its axis.
    spec fn spec_is_forward(&self) -> bool;

    /// Every direction index lies below the direction count.
    proof fn lemma_dir_index_bound(d: Self)
        ensures
            d.spec_dir_index() < Self::spec_dir_count(),
    ;

    /// Two directions with the same index are the same direction.
    proof fn lemma_dir_index_injective(a: Self, b: Self)
        requires
            a.spec_dir_index() == b.spec_dir_index(),
        ensures
            a == b,
    ;

    /// Check this matches with [`Axis`]. It always returns true when the axis is directed.
    fn is_forward(&self) -> (r: bool)
        ensures
            r == self.spec_is_forward(),
    ;

    /// Check this does not match with [`Axis`]. It always returns false when the axis is directed.
    fn is_backward(&self) -> (r: bool)
        ensures
            r == !self.spec_is_forward(),
    {
        !self.is_forward()
    }

    /// Convert to index.
    fn dir_to_index(&self) -> (r: usize)
        ensures
            r == self.spec_dir_index(),
    ;

    /// Convert from index. The index must be below the direction count.
    fn dir_from_index_unchecked(index: usize) -> (r: Self)
        requires
            index < Self::spec_dir_count(),
        ensures
            r.spec_dir_index() == index,
    ;

    /// Convert from index.
    fn dir_from_index(index: usize) -> (r: Option<Self>)
        ensures
            r is Some <==> index < Self::spec_dir_count(),
            r matches Some(d) ==> d.spec_dir_index() == index,
    ;
}

/// Default implementation of [`AxisDirection`] when [`Axis::DIRECTED`] is false.
#[derive(Debug, Clone, Copy, Hash, PartialEq, Eq, PartialOrd, Ord)]
pub enum Direction<T> {
    Foward(T),
    Backward(T),
}

impl<T: Axis> AxisDirection for Direction<T> {
    open spec fn spec_dir_count() -> nat {
        2 * (T::COUNT as nat)
    }

    open spec fn spec_dir_index(&self) -> nat {
        match self {
            Direction::Foward(x) => x.spec_index(),
            Direction::Backward(x) => x.spec_index() + (T::COUNT as nat),
        }
    }

    open spec fn spec_is_forward(&self) -> bool {
        self is Foward
    }

    proof fn lemma_dir_index_bound(d: Self) {
        match d {
            Direction::Foward(x) => T::lemma_index_bound(x),
            Direction::Backward(x) => T::lemma_index_bound(x),
        }
    }

    proof fn lemma_dir_index_injective(a: Self, b: Self) {
        match (a, b) {
            (Direction::Foward(x), Direction::Foward(y)) => T::lemma_index_injective(x, y),
            (Direction::Backward(x), Direction::Backward(y)) => T::lemma_index_injective(x, y),
            (Direction::Foward(x), Direction::Backward(y)) => T::lemma_index_bound(x),
            (Direction::Backward(x), Direction::Foward(y)) => T::lemma_index_bound(y),
        }
    }

    fn is_forward(&self) -> (r: bool) {
        match self {
            Direction::Foward(_) => true,
            Direction::Backward(_) => false,
        }
    }

    fn dir_to_index(&self) -> (r: usize) {
        match self {
            Direction::Foward(x) => x.to_index(),
            Direction::Backward(x) => {
                proof {
                    T::lemma_index_bound(*x);
                    T::lemma_counts();
                }
                x.to_index() + T::COUNT
            },
        }
    }

    fn dir_from_index_unchecked(index: usize) -> (r: Self) {
        if index < T::COUNT {
            Direction::Foward(T::from_index_unchecked(index))
        } else {
            Direction::Backward(T::from_index_unchecked(index - T::COUNT))
        }
    }

    fn dir_from_index(index: usize) -> (r: Option<Self>) {
        if index < T::COUNT {
            Some(Direction::Foward(T::from_index_unchecked(index)))
        } else {
            match T::from_index(index - T::COUNT) {
                Some(x) => Some(Direction::Backward(x)),
                None => None,
            }
        }
    }
}

/// Representation of where the node is in the graph.
pub trait Coordinate: Copy + PartialEq + Sized {
    /// Whether two coordinates are the same.
    fn is_same(&self, other: &Self) -> (r: bool)
        ensures
            r == (*self == *other),
    ;
}

/// Shape of the 2d lattice. It decides the behavior of the coordinate.
pub trait Shape: Sized {
    /// Axis of the lattice.
    type Axis: Axis;
    /// Coordinate of the lattice graph.
    type Coordinate: Coordinate;
    /// Error to return when [`to_offset`](`Shape::to_offset`) fails.
    type OffsetConvertError;
    /// Error to return when [`move_coord`](`Shape::move_coord`) fails.
    type CoordinateMoveError;

    /// Horizontal node count.
    spec fn spec_horizontal(&self) -> nat;

    /// Vertical node count.
    spec fn spec_vertical(&self) -> nat;

    /// Where a coordinate is stored, or `None` when it is not in the graph.
    spec fn spec_to_offset(&self, coord: Self::Coordinate) -> Option<Offset>;

    /// The coordinate stored at an offset.
    spec fn spec_from_offset(&self, offset: Offset) -> Self::Coordinate;

    /// The coordinate reached by moving one step in a direction, or `None` when it leaves the graph.
    spec fn spec_move_coord(
        &self,
        coord: Self::Coordinate,
        dir: <Self::Axis as Axis>::Direction,
    ) -> Option<Self::Coordinate>;

    /// Whether two coordinates are neighbors.
    spec fn spec_is_neighbor(&self, a: Self::Coordinate, b: Self::Coordinate) -> bool;

    /// Edge count of horizontal for an axis.
    spec fn spec_horizontal_edge_size(&self, axis: Self::Axis) -> int;

    /// Edge count of vertical for an axis.
    spec fn spec_vertical_edge_size(&self, axis: Self::Axis) -> int;

    /// Whether the sizes are small enough for the arithmetic of this shape's coordinates.
    spec fn spec_valid(&self) -> bool;

    /// Whether [`from_offset`](`Shape::from_offset`) computes the coordinate of `offset`
    /// without overflow.
    spec fn spec_from_offset_ok(&self, offset: Offset) -> bool;

    /// A valid shape converts every offset inside the lattice, and the first offset of each
    /// row.
    proof fn lemma_valid_from_offset(&self, o: Offset)
        requires
            self.spec_valid(),
            o.horizontal < self.spec_horizontal(),
            o.vertical < self.spec_vertical() || o.vertical == 0,
        ensures
            self.spec_from_offset_ok(o),
    ;

    /// Every offset that a coordinate converts to lies inside the lattice.
    proof fn lemma_to_offset_in_range(&self, coord: Self::Coordinate)
        ensures
            self.spec_to_offset(coord) matches Some(o) ==> o.horizontal < self.spec_horizontal()
                && o.vertical < self.spec_vertical(),
    ;

    /// The coordinate stored at an offset inside the lattice converts back to that offset.
    proof fn lemma_from_offset_to_offset(&self, o: Offset)
        requires
            self.spec_valid(),
            o.horizontal < self.spec_horizontal(),
            o.vertical < self.spec_vertical(),
        ensures
            self.spec_to_offset(self.spec_from_offset(o)) == Some(o),
    ;

    /// Horizontal node count.
    fn horizontal(&self) -> (r: usize)
        ensures
            r == self.spec_horizontal(),
    ;

    /// Vertical node count.
    fn vertical(&self) -> (r: usize)
        ensures
            r == self.spec_vertical(),
    ;

    /// Node count.
    fn node_count(&self) -> (r: usize)
        requires
            self.spec_horizontal() * self.spec_vertical() <= usize::MAX,
        ensures
            r == self.spec_horizontal() * self.spec_vertical(),
    {
        self.horizontal() * self.vertical()
    }

    /// Convert coordinate to `Offset`.
    fn to_offset(&self, coord: Self::Coordinate) -> (r: Result<Offset, Self::OffsetConvertError>)
        ensures
            r is Ok <==> self.spec_to_offset(coord) is Some,
            r matches Ok(o) ==> self.spec_to_offset(coord) == Some(o),
    ;

    /// Convert coordinate to `Offset`; the coordinate must be in the graph.
    fn to_offset_unchecked(&self, coord: Self::Coordinate) -> (r: Offset)
        requires
            self.spec_to_offset(coord) is Some,
        ensures
            self.spec_to_offset(coord) == Some(r),
    {
        match self.to_offset(coord) {
            Ok(o) => o,
            Err(_) => {
                proof {
                    assert(false);
                }
                Offset::new(0, 0)
            },
        }
    }

    /// Convert coordinate from `Offset`.
    fn from_offset(&self, offset: Offset) -> (r: Self::Coordinate)
        requires
            self.spec_from_offset_ok(offset),
        ensures
            r == self.spec_from_offset(offset),
    ;

    /// Convert coordinate from index.
    fn from_index(&self, index: usize) -> (r: Self::Coordinate)
        requires
            self.spec_vertical() > 0,
            self.spec_from_offset_ok(index_to_offset_spec(index as int, self.spec_vertical() as int)),
        ensures
            r == self.spec_from_offset(index_to_offset_spec(index as int, self.spec_vertical() as int)),
    {
        self.from_offset(self.index_to_offset(index))
    }

    /// Convert coordinate to index.
    fn to_index(&self, coord: Self::Coordinate) -> (r: Option<usize>)
        requires
            self.spec_horizontal() * self.spec_vertical() <= usize::MAX,
        ensures
            r == (match self.spec_to_offset(coord) {
                Some(o) => Some(offset_to_index_spec(o, self.spec_vertical() as int) as usize),
                None => None,
            }),
    {
        match self.to_offset(coord) {
            Ok(o) => {
                proof {
                    self.lemma_to_offset_in_range(coord);
                    lemma_offset_index_bound(o, self.spec_horizontal() as int, self.spec_vertical() as int);
                }
                Some(self.offset_to_index(o))
            },
            Err(_) => None,
        }
    }

    /// Convert index to offset.
    fn index_to_offset(&self, index: usize) -> (r: Offset)
        requires
            self.spec_vertical() > 0,
        ensures
            r == index_to_offset_spec(index as int, self.spec_vertical() as int),
    {
        let v: usize = self.vertical();
        let vi: usize = index % v;
        let h: usize = index / v;
        Offset::new(h, vi)
    }

    /// Convert offset to index.
    fn offset_to_index(&self, o: Offset) -> (r: usize)
        requires
            offset_to_index_spec(o, self.spec_vertical() as int) <= usize::MAX,
        ensures
            r == offset_to_index_spec(o, self.spec_vertical() as int),
    {
        let v: usize = self.vertical();
        proof {
            assert(o.horizontal * v <= o.horizontal * v + o.vertical);
        }
        o.horizontal * v + o.vertical
    }

    /// Edge count of horizontal. May differ by the axis info.
    fn horizontal_edge_size(&self, axis: Self::Axis) -> (r: usize)
        requires
            0 <= self.spec_horizontal_edge_size(axis) <= usize::MAX,
        ensures
            r == self.spec_horizontal_edge_size(axis),
    ;

    /// Edge count of vertical. May differ by the axis info.
    fn vertical_edge_size(&self, axis: Self::Axis) -> (r: usize)
        requires
            0 <= self.spec_vertical_edge_size(axis) <= usize::MAX,
        ensures
            r == self.spec_vertical_edge_size(axis),
    ;

    /// Move coordinate to direction.
    fn move_coord(
        &self,
        coord: Self::Coordinate,
        dir: <Self::Axis as Axis>::Direction,
    ) -> (r: Result<Self::Coordinate, Self::CoordinateMoveError>)
        ensures
            r is Ok <==> self.spec_move_coord(coord, dir) is Some,
            r matches Ok(c) ==> self.spec_move_coord(coord, dir) == Some(c),
    ;

    /// Move coordinate to direction; the move must stay in the graph.
    fn move_coord_unchecked(
        &self,
        coord: Self::Coordinate,
        dir: <Self::Axis as Axis>::Direction,
    ) -> (r: Self::Coordinate)
        requires
            self.spec_move_coord(coord, dir) is Some,
        ensures
            self.spec_move_coord(coord, dir) == Some(r),
    {
        match self.move_coord(coord, dir) {
            Ok(c) => c,
            Err(_) => {
                proof {
                    assert(false);
                }
                coord
            },
        }
    }

    /// Check whether two coordinates are neighbors.
    fn is_neighbor(&self, a: Self::Coordinate, b: Self::Coordinate) -> (r: bool)
        ensures
            r == self.spec_is_neighbor(a, b),
    ;

    /// Get the first direction (by index) that leads from `source` to `target`, if they are neighbors.
    fn get_direction(&self, source: Self::Coordinate, target: Self::Coordinate) -> (r: Option<
        <Self::Axis as Axis>::Direction,
    >)
        ensures
            r matches Some(d) ==> self.spec_move_coord(source, d) == Some(target) && forall|
                d2: <Self::Axis as Axis>::Direction,
            | #[trigger] d2.spec_dir_index() < d.spec_dir_index() ==> self.spec_move_coord(
                source,
                d2,
            ) != Some(target),
            r is None ==> forall|d: <Self::Axis as Axis>::Direction| #[trigger]
                self.spec_move_coord(source, d) != Some(target),
    {
        proof {
            <Self::Axis as Axis>::lemma_counts();
        }
        let n: usize = <Self::Axis as Axis>::DIRECTED_COUNT;
        let mut i: usize = 0;
        while i < n
            invariant
                i <= n,
                n == <<Self::Axis as Axis>::Direction as AxisDirection>::spec_dir_count(),
                forall|d2: <Self::Axis as Axis>::Direction| #[trigger]
                    d2.spec_dir_index() < i ==> self.spec_move_coord(source, d2) != Some(target),
            decreases n - i,
        {
            let d = <<Self::Axis as Axis>::Direction as AxisDirection>::dir_from_index_unchecked(i);
            match self.move_coord(source, d) {
                Ok(c) => {
                    if c.is_same(&target) {
                        return Some(d);
                    }
                },
                Err(_) => {},
            }
            proof {
                assert forall|d2: <Self::Axis as Axis>::Direction| #[trigger]
                    d2.spec_dir_index() < i + 1 implies self.spec_move_coord(source, d2) != Some(
                    target,
                ) by {
                    if d2.spec_dir_index() == i {
                        <<Self::Axis as Axis>::Direction as AxisDirection>::lemma_dir_index_injective(d, d2);
                    }
                }
            }
            i = i + 1;
        }
        proof {
            assert forall|d: <Self::Axis as Axis>::Direction| #[trigger]
                self.spec_move_coord(source, d) != Some(target) by {
                <<Self::Axis as Axis>::Direction as AxisDirection>::lemma_dir_index_bound(d);
            }
        }
        None
    }
}

/// Whether some direction leads from `a` to `b`.
pub open spec fn some_direction_leads<S: Shape>(s: &S, a: S::Coordinate, b: S::Coordinate) -> bool {
    exists|d: <S::Axis as Axis>::Direction| #[trigger] s.spec_move_coord(a, d) == Some(b)
}

/// The offset at a storage index, row-major with `v` columns.
pub open spec fn index_to_offset_spec(index: int, v: int) -> Offset {
    offset(index / v, index % v)
}

/// The storage index of an offset, row-major with `v` columns.
pub open spec fn offset_to_index_spec(o: Offset, v: int) -> int {
    o.horizontal * v + o.vertical
}

/// An offset inside an `h` by `v` lattice has a storage index below `h * v`.
pub proof fn lemma_offset_index_bound(o: Offset, h: int, v: int)
    requires
        o.horizontal < h,
        o.vertical < v,
    ensures
        0 <= offset_to_index_spec(o, v) < h * v,
{
    assert(o.horizontal * v + o.vertical < h * v) by (nonlinear_arith)
        requires
            0 <= o.horizontal < h,
            0 <= o.vertical < v,
    ;
}

/// A size of a lattice: a plain `usize`, or a size fixed by a const generic
/// ([`WrapUSIZE`]), which takes no room.
pub trait LatticeSize: Copy {
    /// The size.
    spec fn spec_size(&self) -> nat;

    /// A size is a `usize`.
    proof fn lemma_size_fits(&self)
        ensures
            self.spec_size() <= usize::MAX,
    ;

    /// The size.
    fn size(&self) -> (r: usize)
        ensures
            r == self.spec_size(),
    ;
}

impl LatticeSize for usize {
    open spec fn spec_size(&self) -> nat {
        *self as nat
    }

    proof fn lemma_size_fits(&self) {
    }

    fn size(&self) -> (r: usize) {
        *self
    }
}

/// A `usize` fixed by a const generic, of `const_generic_wrap`.
#[verifier::external_type_specification]
#[verifier::external_body]
pub struct ExWrapUSIZE<const N: usize>(WrapUSIZE<N>);

/// The value of a [`WrapUSIZE`], through its `From` conversion into `usize`
/// (`const_generic_wrap`), which returns the const generic `N`.
#[verifier::external_body]
fn wrap_usize_value<const N: usize>(w: WrapUSIZE<N>) -> (r: usize)
    ensures
        r == N,
{
    w.into()
}

/// A [`WrapUSIZE`] made by its derived `Default` (`const_generic_wrap`); it has no data.
#[verifier::external_body]
pub(crate) fn wrap_usize<const N: usize>() -> WrapUSIZE<N> {
    WrapUSIZE::<N>::default()
}

impl<const N: usize> LatticeSize for WrapUSIZE<N> {
    open spec fn spec_size(&self) -> nat {
        N as nat
    }

    proof fn lemma_size_fits(&self) {
    }

    fn size(&self) -> (r: usize) {
        wrap_usize_value(*self)
    }
}

} // verus!
