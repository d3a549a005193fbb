//! Indices of [`SquareGraph`](`super::SquareGraph`): axes, directions, nodes and edges.
use vstd::prelude::*;

verus! {

/// Integer type of the node indices, as `petgraph`'s `IndexType` is implemented for
/// unsigned integers: `new` converts from `usize` with `as`, `index` converts back.
pub trait IndexType: Copy + Sized {
    /// The index as a number.
    spec fn spec_index(&self) -> nat;

    /// The index converted from a `usize`.
    spec fn spec_new(x: usize) -> Self;

    /// Converting the number of an index gives it back; a number that fits converts to
    /// itself, and every index fits in `usize` and lies at or below the largest index.
    proof fn lemma_index(a: Self, x: usize)
        ensures
            Self::spec_new(a.spec_index() as usize) == a,
            a.spec_index() <= usize::MAX,
            a.spec_index() <= Self::spec_max(),
            Self::spec_max() <= usize::MAX,
            x <= Self::spec_max() ==> Self::spec_new(x).spec_index() == x,
    ;

    /// The largest index.
    spec fn spec_max() -> nat;

    /// Converts from `usize`.
    fn new(x: usize) -> (r: Self)
        ensures
            r == Self::spec_new(x),
    ;

    /// Converts to `usize`.
    fn index(&self) -> (r: usize)
        ensures
            r == self.spec_index(),
    ;
}

impl IndexType for usize {
    open spec fn spec_index(&self) -> nat {
        *self as nat
    }

    open spec fn spec_new(x: usize) -> Self {
        x
    }

    proof fn lemma_index(a: Self, x: usize) {
    }

    open spec fn spec_max() -> nat {
        usize::MAX as nat
    }

    fn new(x: usize) -> (r: Self) {
        x
    }

    fn index(&self) -> (r: usize) {
        *self
    }
}

impl IndexType for u32 {
    open spec fn spec_index(&self) -> nat {
        *self as nat
    }

    open spec fn spec_new(x: usize) -> Self {
        x as u32
    }

    proof fn lemma_index(a: Self, x: usize) {
        assert((a as usize) as u32 == a) by (bit_vector);
        assert(x <= u32::MAX ==> (x as u32) as usize == x) by (bit_vector);
    }

    open spec fn spec_max() -> nat {
        u32::MAX as nat
    }

    fn new(x: usize) -> (r: Self) {
        x as u32
    }

    fn index(&self) -> (r: usize) {
        *self as usize
    }
}

impl IndexType for u16 {
    open spec fn spec_index(&self) -> nat {
        *self as nat
    }

    open spec fn spec_new(x: usize) -> Self {
        x as u16
    }

    proof fn lemma_index(a: Self, x: usize) {
        assert((a as usize) as u16 == a) by (bit_vector);
        assert(x <= u16::MAX ==> (x as u16) as usize == x) by (bit_vector);
    }

    open spec fn spec_max() -> nat {
        u16::MAX as nat
    }

    fn new(x: usize) -> (r: Self) {
        x as u16
    }

    fn index(&self) -> (r: usize) {
        *self as usize
    }
}

impl IndexType for u8 {
    open spec fn spec_index(&self) -> nat {
        *self as nat
    }

    open spec fn spec_new(x: usize) -> Self {
        x as u8
    }

    proof fn lemma_index(a: Self, x: usize) {
        assert((a as usize) as u8 == a) by (bit_vector);
        assert(x <= u8::MAX ==> (x as u8) as usize == x) by (bit_vector);
    }

    open spec fn spec_max() -> nat {
        u8::MAX as nat
    }

    fn new(x: usize) -> (r: Self) {
        x as u8
    }

    fn index(&self) -> (r: usize) {
        *self as usize
    }
}

/// Axis of the square grid.
#[derive(Debug, Clone, Copy, PartialEq, Eq, Hash, PartialOrd, Ord, Structural)]
pub enum Axis {
    Horizontal,
    Vertical,
}

impl Axis {
    /// Check whether axis is horizontal.
    pub fn is_horizontal(&self) -> (r: bool)
        ensures
            r == (*self == Axis::Horizontal),
    {
        match self {
            Axis::Horizontal => true,
            Axis::Vertical => false,
        }
    }

    /// Check whether axis is vertical.
    pub fn is_vertical(&self) -> (r: bool)
        ensures
            r == (*self == Axis::Vertical),
    {
        match self {
            Axis::Horizontal => false,
            Axis::Vertical => true,
        }
    }
}

/// Direction along an axis of the square grid: forward (right, up) or backward (left, down).
#[derive(Debug, Clone, Copy, PartialEq, Eq, Hash, PartialOrd, Ord, Structural)]
pub enum SquareDirection {
    Foward(Axis),
    Backward(Axis),
}

impl SquareDirection {
    /// Foward vertical.
    pub fn up() -> (r: Self)
        ensures
            r == SquareDirection::Foward(Axis::Vertical),
    {
        SquareDirection::Foward(Axis::Vertical)
    }

    /// Backward vertical.
    pub fn down() -> (r: Self)
        ensures
            r == SquareDirection::Backward(Axis::Vertical),
    {
        SquareDirection::Backward(Axis::Vertical)
    }

    /// Backward horizontal.
    pub fn left() -> (r: Self)
        ensures
            r == SquareDirection::Backward(Axis::Horizontal),
    {
        SquareDirection::Backward(Axis::Horizontal)
    }

    /// Foward horizontal.
    pub fn right() -> (r: Self)
        ensures
            r == SquareDirection::Foward(Axis::Horizontal),
    {
        SquareDirection::Foward(Axis::Horizontal)
    }

    /// The axis of this direction.
    pub open spec fn spec_axis(&self) -> Axis {
        match self {
            SquareDirection::Foward(x) => *x,
            SquareDirection::Backward(x) => *x,
        }
    }

    /// Whether the direction is along the horizontal axis.
    pub fn is_horizontal(&self) -> (r: bool)
        ensures
            r == (self.spec_axis() == Axis::Horizontal),
    {
        match self {
            SquareDirection::Foward(x) => x.is_horizontal(),
            SquareDirection::Backward(x) => x.is_horizontal(),
        }
    }

    /// Whether the direction is along the vertical axis.
    pub fn is_vertical(&self) -> (r: bool)
        ensures
            r == (self.spec_axis() == Axis::Vertical),
    {
        match self {
            SquareDirection::Foward(x) => x.is_vertical(),
            SquareDirection::Backward(x) => x.is_vertical(),
        }
    }
}

impl From<(Axis, bool)> for SquareDirection {
    fn from(value: (Axis, bool)) -> (r: Self) {
        if value.1 {
            SquareDirection::Foward(value.0)
        } else {
            SquareDirection::Backward(value.0)
        }
    }
}

impl vstd::std_specs::convert::FromSpecImpl<(Axis, bool)> for SquareDirection {
    open spec fn obeys_from_spec() -> bool {
        true
    }

    open spec fn from_spec(v: (Axis, bool)) -> SquareDirection {
        if v.1 {
            SquareDirection::Foward(v.0)
        } else {
            SquareDirection::Backward(v.0)
        }
    }
}

impl From<SquareDirection> for (Axis, bool) {
    fn from(dir: SquareDirection) -> (r: Self) {
        match dir {
            SquareDirection::Backward(x) => (x, false),
            SquareDirection::Foward(x) => (x, true),
        }
    }
}

impl vstd::std_specs::convert::FromSpecImpl<SquareDirection> for (Axis, bool) {
    open spec fn obeys_from_spec() -> bool {
        true
    }

    open spec fn from_spec(dir: SquareDirection) -> (Axis, bool) {
        match dir {
            SquareDirection::Backward(x) => (x, false),
            SquareDirection::Foward(x) => (x, true),
        }
    }
}

/// Node index for [`SquareGraph`](`super::SquareGraph`).
#[derive(Clone, Copy, Debug, Default, PartialEq, Eq, PartialOrd, Ord, Hash)]
pub struct NodeIndex<Ix> {
    pub horizontal: Ix,
    pub vertical: Ix,
}

/// The node index of the position `(h, v)`.
pub open spec fn node_at<Ix: IndexType>(h: int, v: int) -> NodeIndex<Ix> {
    NodeIndex { horizontal: Ix::spec_new(h as usize), vertical: Ix::spec_new(v as usize) }
}

impl<Ix: IndexType> NodeIndex<Ix> {
    /// The horizontal position.
    pub open spec fn spec_h(&self) -> nat {
        self.horizontal.spec_index()
    }

    /// The vertical position.
    pub open spec fn spec_v(&self) -> nat {
        self.vertical.spec_index()
    }

    /// Create an index from horizontal and vertical.
    pub fn new(horizontal: Ix, vertical: Ix) -> (r: Self)
        ensures
            r.horizontal == horizontal,
            r.vertical == vertical,
    {
        NodeIndex { horizontal, vertical }
    }

    /// Returns the manhattan distance to a position.
    pub fn distance(&self, target: (usize, usize)) -> (r: usize)
        requires
            (if self.spec_h() >= target.0 {
                self.spec_h() - target.0
            } else {
                target.0 - self.spec_h()
            }) + (if self.spec_v() >= target.1 {
                self.spec_v() - target.1
            } else {
                target.1 - self.spec_v()
            }) <= usize::MAX,
        ensures
            r == (if self.spec_h() >= target.0 {
                self.spec_h() - target.0
            } else {
                target.0 - self.spec_h()
            }) + (if self.spec_v() >= target.1 {
                self.spec_v() - target.1
            } else {
                target.1 - self.spec_v()
            }),
    {
        let h: usize = self.horizontal.index();
        let v: usize = self.vertical.index();
        let dh: usize = if h >= target.0 {
            h - target.0
        } else {
            target.0 - h
        };
        let dv: usize = if v >= target.1 {
            v - target.1
        } else {
            target.1 - v
        };
        dh + dv
    }

    /// The edge from this node in a direction: the edge of this node along the axis when
    /// forward, that of the node before it when backward. The node before must exist.
    pub fn get_edge_id_unchecked(&self, dir: SquareDirection) -> (r: EdgeIndex<Ix>)
        requires
            dir == SquareDirection::Backward(Axis::Vertical) ==> self.spec_v() >= 1,
            dir == SquareDirection::Backward(Axis::Horizontal) ==> self.spec_h() >= 1,
        ensures
            r == edge_id_unchecked(*self, dir),
    {
        match dir {
            SquareDirection::Foward(x) => EdgeIndex { node: *self, axis: x },
            SquareDirection::Backward(Axis::Vertical) => EdgeIndex {
                node: Self::new(self.horizontal, Ix::new(self.vertical.index() - 1)),
                axis: Axis::Vertical,
            },
            SquareDirection::Backward(Axis::Horizontal) => EdgeIndex {
                node: Self::new(Ix::new(self.horizontal.index() - 1), self.vertical),
                axis: Axis::Horizontal,
            },
        }
    }

    /// The node above: the vertical position plus one, which must fit in `usize`.
    pub fn up(self) -> (r: Self)
        requires
            self.spec_v() + 1 <= usize::MAX,
        ensures
            r == (NodeIndex { vertical: Ix::spec_new((self.spec_v() + 1) as usize), ..self }),
    {
        NodeIndex { vertical: Ix::new(self.vertical.index() + 1), ..self }
    }

    /// The node below: the vertical position minus one, which must not be below 0.
    pub fn down(self) -> (r: Self)
        requires
            self.spec_v() >= 1,
        ensures
            r == (NodeIndex { vertical: Ix::spec_new((self.spec_v() - 1) as usize), ..self }),
    {
        NodeIndex { vertical: Ix::new(self.vertical.index() - 1), ..self }
    }

    /// The node to the right: the horizontal position plus one, which must fit in `usize`.
    pub fn right(self) -> (r: Self)
        requires
            self.spec_h() + 1 <= usize::MAX,
        ensures
            r == (NodeIndex { horizontal: Ix::spec_new((self.spec_h() + 1) as usize), ..self }),
    {
        NodeIndex { horizontal: Ix::new(self.horizontal.index() + 1), ..self }
    }

    /// The node to the left: the horizontal position minus one, which must not be below 0.
    pub fn left(self) -> (r: Self)
        requires
            self.spec_h() >= 1,
        ensures
            r == (NodeIndex { horizontal: Ix::spec_new((self.spec_h() - 1) as usize), ..self }),
    {
        NodeIndex { horizontal: Ix::new(self.horizontal.index() - 1), ..self }
    }
}

/// The edge from a node in a direction, as
/// [`get_edge_id_unchecked`](`NodeIndex::get_edge_id_unchecked`) computes it.
pub open spec fn edge_id_unchecked<Ix: IndexType>(n: NodeIndex<Ix>, dir: SquareDirection) -> EdgeIndex<Ix> {
    match dir {
        SquareDirection::Foward(x) => EdgeIndex { node: n, axis: x },
        SquareDirection::Backward(Axis::Vertical) => EdgeIndex {
            node: NodeIndex { horizontal: n.horizontal, vertical: Ix::spec_new((n.spec_v() - 1) as usize) },
            axis: Axis::Vertical,
        },
        SquareDirection::Backward(Axis::Horizontal) => EdgeIndex {
            node: NodeIndex { horizontal: Ix::spec_new((n.spec_h() - 1) as usize), vertical: n.vertical },
            axis: Axis::Horizontal,
        },
    }
}

impl<Ix: IndexType> PartialEq<(usize, usize)> for NodeIndex<Ix> {
    fn eq(&self, value: &(usize, usize)) -> (r: bool) {
        self.horizontal.index() == value.0 && self.vertical.index() == value.1
    }
}

impl<Ix: IndexType> vstd::std_specs::cmp::PartialEqSpecImpl<(usize, usize)> for NodeIndex<Ix> {
    open spec fn obeys_eq_spec() -> bool {
        true
    }

    open spec fn eq_spec(&self, value: &(usize, usize)) -> bool {
        self.spec_h() == value.0 && self.spec_v() == value.1
    }
}

impl<Ix: IndexType> From<(usize, usize)> for NodeIndex<Ix> {
    fn from(value: (usize, usize)) -> (r: Self) {
        NodeIndex::new(Ix::new(value.0), Ix::new(value.1))
    }
}

impl<Ix: IndexType> vstd::std_specs::convert::FromSpecImpl<(usize, usize)> for NodeIndex<Ix> {
    open spec fn obeys_from_spec() -> bool {
        true
    }

    open spec fn from_spec(value: (usize, usize)) -> NodeIndex<Ix> {
        node_at(value.0 as int, value.1 as int)
    }
}

impl<Ix: IndexType> From<NodeIndex<Ix>> for (usize, usize) {
    fn from(value: NodeIndex<Ix>) -> (r: Self) {
        (value.horizontal.index(), value.vertical.index())
    }
}

impl<Ix: IndexType> vstd::std_specs::convert::FromSpecImpl<NodeIndex<Ix>> for (usize, usize) {
    open spec fn obeys_from_spec() -> bool {
        true
    }

    open spec fn from_spec(value: NodeIndex<Ix>) -> (usize, usize) {
        (value.spec_h() as usize, value.spec_v() as usize)
    }
}

/// Edge index of [`SquareGraph`](`super::SquareGraph`): the node the edge leaves forward,
/// and the axis.
#[derive(Clone, Copy, Debug, PartialEq, Eq, PartialOrd, Ord, Hash)]
pub struct EdgeIndex<Ix> {
    pub node: NodeIndex<Ix>,
    pub axis: Axis,
}

impl<Ix: IndexType> From<(NodeIndex<Ix>, Axis)> for EdgeIndex<Ix> {
    fn from(value: (NodeIndex<Ix>, Axis)) -> (r: Self) {
        EdgeIndex { node: value.0, axis: value.1 }
    }
}

impl<Ix: IndexType> vstd::std_specs::convert::FromSpecImpl<(NodeIndex<Ix>, Axis)> for EdgeIndex<Ix> {
    open spec fn obeys_from_spec() -> bool {
        true
    }

    open spec fn from_spec(value: (NodeIndex<Ix>, Axis)) -> EdgeIndex<Ix> {
        EdgeIndex { node: value.0, axis: value.1 }
    }
}

} // verus!
