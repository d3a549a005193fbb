//! Square 2d lattice graph. It does not use [`lattice_abstract`](`crate::lattice_abstract`):
//! the nodes, the horizontal edges and the vertical edges are held in three 2d arrays.
use crate::array2::Array2;
use crate::bitset::{bitset_bits, bitset_clear, bitset_contains, bitset_len, bitset_put, bitset_with_capacity};
use crate::fixedvec2d::{index_2d, lemma_index_2d, lemma_index_2d_others};
use fixedbitset::FixedBitSet;
use std::marker::PhantomData;
use vstd::prelude::*;

pub mod edges;
pub mod index;
pub mod neighbors;
pub mod nodes;

pub use edges::{EdgeReference, EdgeReferences, Edges};
pub use index::{Axis, EdgeIndex, IndexType, NodeIndex, SquareDirection};
pub use neighbors::Neighbors;
pub use nodes::{NodeIndices, NodeReferences};

verus! {

/// It holds the size of the graph where it loops. It is used in
/// [`EdgeReference`](`edges::EdgeReference`) to find the node an edge leads to.
pub trait SizeInfo: Sized {
    /// The horizontal size, if held.
    spec fn spec_horizontal_size(&self) -> Option<nat>;

    /// The vertical size, if held.
    spec fn spec_vertical_size(&self) -> Option<nat>;

    /// The horizontal size; it must be held.
    fn horizontal_size(&self) -> (r: usize)
        requires
            self.spec_horizontal_size() is Some,
        ensures
            self.spec_horizontal_size() == Some(r as nat),
    ;

    /// The vertical size; it must be held.
    fn vertical_size(&self) -> (r: usize)
        requires
            self.spec_vertical_size() is Some,
        ensures
            self.spec_vertical_size() == Some(r as nat),
    ;

    /// A copy of this size info.
    fn duplicate(&self) -> (r: Self)
        ensures
            r == *self,
    ;
}

impl SizeInfo for () {
    open spec fn spec_horizontal_size(&self) -> Option<nat> {
        None
    }

    open spec fn spec_vertical_size(&self) -> Option<nat> {
        None
    }

    fn horizontal_size(&self) -> (r: usize) {
        0
    }

    fn vertical_size(&self) -> (r: usize) {
        0
    }

    fn duplicate(&self) -> (r: Self) {
        *self
    }
}

impl SizeInfo for (usize, ()) {
    open spec fn spec_horizontal_size(&self) -> Option<nat> {
        Some(self.0 as nat)
    }

    open spec fn spec_vertical_size(&self) -> Option<nat> {
        None
    }

    fn horizontal_size(&self) -> (r: usize) {
        self.0
    }

    fn vertical_size(&self) -> (r: usize) {
        0
    }

    fn duplicate(&self) -> (r: Self) {
        *self
    }
}

impl SizeInfo for ((), usize) {
    open spec fn spec_horizontal_size(&self) -> Option<nat> {
        None
    }

    open spec fn spec_vertical_size(&self) -> Option<nat> {
        Some(self.1 as nat)
    }

    fn horizontal_size(&self) -> (r: usize) {
        0
    }

    fn vertical_size(&self) -> (r: usize) {
        self.1
    }

    fn duplicate(&self) -> (r: Self) {
        *self
    }
}

impl SizeInfo for (usize, usize) {
    open spec fn spec_horizontal_size(&self) -> Option<nat> {
        Some(self.0 as nat)
    }

    open spec fn spec_vertical_size(&self) -> Option<nat> {
        Some(self.1 as nat)
    }

    fn horizontal_size(&self) -> (r: usize) {
        self.0
    }

    fn vertical_size(&self) -> (r: usize) {
        self.1
    }

    fn duplicate(&self) -> (r: Self) {
        *self
    }
}

/// Shape of the [`SquareGraph`]: whether it loops in each axis.
pub trait Shape: Copy {
    /// The size info, needed where the graph loops.
    type SizeInfo: SizeInfo;
    /// Whether the graph loops in the horizontal axis.
    const LOOP_HORIZONTAL: bool;
    /// Whether the graph loops in the vertical axis.
    const LOOP_VERTICAL: bool;

    /// Whether the graph loops in the horizontal axis, as the contracts read it.
    spec fn spec_loop_horizontal() -> bool;

    /// Whether the graph loops in the vertical axis, as the contracts read it.
    spec fn spec_loop_vertical() -> bool;

    /// [`LOOP_HORIZONTAL`](`Shape::LOOP_HORIZONTAL`).
    fn loop_horizontal() -> (r: bool)
        ensures
            r == Self::spec_loop_horizontal(),
    ;

    /// [`LOOP_VERTICAL`](`Shape::LOOP_VERTICAL`).
    fn loop_vertical() -> (r: bool)
        ensures
            r == Self::spec_loop_vertical(),
    ;

    /// The size info of a graph of `h` by `v` nodes; it holds each size along which the
    /// graph loops.
    fn get_sizeinfo(h: usize, v: usize) -> (r: Self::SizeInfo)
        ensures
            Self::spec_loop_horizontal() ==> r.spec_horizontal_size() == Some(h as nat),
            Self::spec_loop_vertical() ==> r.spec_vertical_size() == Some(v as nat),
    ;
}

/// Marker that the graph does not loop.
#[derive(Clone, Copy, Debug, PartialEq, Eq, PartialOrd, Ord, Hash)]
pub struct DefaultShape;

impl Shape for DefaultShape {
    type SizeInfo = ();
    const LOOP_HORIZONTAL: bool = false;
    const LOOP_VERTICAL: bool = false;

    open spec fn spec_loop_horizontal() -> bool {
        false
    }

    open spec fn spec_loop_vertical() -> bool {
        false
    }

    fn loop_horizontal() -> (r: bool) {
        Self::LOOP_HORIZONTAL
    }

    fn loop_vertical() -> (r: bool) {
        Self::LOOP_VERTICAL
    }

    fn get_sizeinfo(h: usize, v: usize) -> (r: ()) {
    }
}

/// Marker that the graph loops in the horizontal axis.
#[derive(Clone, Copy, Debug, PartialEq, Eq, PartialOrd, Ord, Hash)]
pub struct HorizontalLoop;

impl Shape for HorizontalLoop {
    type SizeInfo = (usize, ());
    const LOOP_HORIZONTAL: bool = true;
    const LOOP_VERTICAL: bool = false;

    open spec fn spec_loop_horizontal() -> bool {
        true
    }

    open spec fn spec_loop_vertical() -> bool {
        false
    }

    fn loop_horizontal() -> (r: bool) {
        Self::LOOP_HORIZONTAL
    }

    fn loop_vertical() -> (r: bool) {
        Self::LOOP_VERTICAL
    }

    fn get_sizeinfo(h: usize, v: usize) -> (r: (usize, ())) {
        (h, ())
    }
}

/// Marker that the graph loops in the vertical axis.
#[derive(Clone, Copy, Debug, PartialEq, Eq, PartialOrd, Ord, Hash)]
pub struct VerticalLoop;

impl Shape for VerticalLoop {
    type SizeInfo = ((), usize);
    const LOOP_HORIZONTAL: bool = false;
    const LOOP_VERTICAL: bool = true;

    open spec fn spec_loop_horizontal() -> bool {
        false
    }

    open spec fn spec_loop_vertical() -> bool {
        true
    }

    fn loop_horizontal() -> (r: bool) {
        Self::LOOP_HORIZONTAL
    }

    fn loop_vertical() -> (r: bool) {
        Self::LOOP_VERTICAL
    }

    fn get_sizeinfo(h: usize, v: usize) -> (r: ((), usize)) {
        ((), v)
    }
}

/// Marker that the graph loops in the horizontal and vertical axes.
#[derive(Clone, Copy, Debug, PartialEq, Eq, PartialOrd, Ord, Hash)]
pub struct HVLoop;

impl Shape for HVLoop {
    type SizeInfo = (usize, usize);
    const LOOP_HORIZONTAL: bool = true;
    const LOOP_VERTICAL: bool = true;

    open spec fn spec_loop_horizontal() -> bool {
        true
    }

    open spec fn spec_loop_vertical() -> bool {
        true
    }

    fn loop_horizontal() -> (r: bool) {
        Self::LOOP_HORIZONTAL
    }

    fn loop_vertical() -> (r: bool) {
        Self::LOOP_VERTICAL
    }

    fn get_sizeinfo(h: usize, v: usize) -> (r: (usize, usize)) {
        (h, v)
    }
}

/// Number of horizontal edges in a row of positions for `h` nodes: one less unless it loops.
pub open spec fn edge_rows(h: nat, lp: bool) -> nat {
    if lp {
        h
    } else {
        (h - 1) as nat
    }
}

/// The edge leaving `node` in the direction `dir` on a graph of `h` by `v` nodes that loops
/// horizontally when `lh` and vertically when `lv`, and whether the direction is forward.
pub open spec fn spec_edge_id<Ix: IndexType>(
    h: nat,
    v: nat,
    lh: bool,
    lv: bool,
    node: NodeIndex<Ix>,
    dir: SquareDirection,
) -> Option<(EdgeIndex<Ix>, bool)> {
    let nh = node.spec_h();
    let nv = node.spec_v();
    match dir {
        SquareDirection::Foward(Axis::Vertical) => if nv + 1 < v || (lv && nv + 1 == v) {
            Some((EdgeIndex { node, axis: Axis::Vertical }, true))
        } else {
            None
        },
        SquareDirection::Foward(Axis::Horizontal) => if nh + 1 < h || (lh && nh + 1 == h) {
            Some((EdgeIndex { node, axis: Axis::Horizontal }, true))
        } else {
            None
        },
        SquareDirection::Backward(Axis::Vertical) => if nv != 0 {
            Some(
                (
                    EdgeIndex {
                        node: NodeIndex { horizontal: node.horizontal, vertical: Ix::spec_new((nv - 1) as usize) },
                        axis: Axis::Vertical,
                    },
                    false,
                ),
            )
        } else if lv {
            Some(
                (
                    EdgeIndex {
                        node: NodeIndex { horizontal: node.horizontal, vertical: Ix::spec_new((v - 1) as usize) },
                        axis: Axis::Vertical,
                    },
                    false,
                ),
            )
        } else {
            None
        },
        SquareDirection::Backward(Axis::Horizontal) => if nh != 0 {
            Some(
                (
                    EdgeIndex {
                        node: NodeIndex { horizontal: Ix::spec_new((nh - 1) as usize), vertical: node.vertical },
                        axis: Axis::Horizontal,
                    },
                    false,
                ),
            )
        } else if lh {
            Some(
                (
                    EdgeIndex {
                        node: NodeIndex { horizontal: Ix::spec_new((h - 1) as usize), vertical: node.vertical },
                        axis: Axis::Horizontal,
                    },
                    false,
                ),
            )
        } else {
            None
        },
    }
}

/// The sizes of the node and edge weight arrays match: `h` by `v` nodes with `h` not 0,
/// nor `v` unless the graph loops vertically; one horizontal edge less in each row unless
/// it loops horizontally, one vertical edge less in each column unless it loops vertically.
pub open spec fn arrays_match<N, E, S: Shape>(nodes: Array2<N>, horizontal: Array2<E>, vertical: Array2<E>) -> bool {
    &&& nodes.wf()
    &&& horizontal.wf()
    &&& vertical.wf()
    &&& nodes.spec_h() > 0
    &&& (!S::spec_loop_vertical() ==> nodes.spec_v() > 0)
    &&& horizontal.spec_h() == edge_rows(nodes.spec_h(), S::spec_loop_horizontal())
    &&& horizontal.spec_v() == nodes.spec_v()
    &&& vertical.spec_h() == nodes.spec_h()
    &&& vertical.spec_v() == edge_rows(nodes.spec_v(), S::spec_loop_vertical())
}

/// Undirected square grid graph, of rectangle shape.
/// ```text
/// Node(i,j+1) - Edge(i,j+1,Horizontal) - Node(i+1,j+1)
///   |                                     |
/// Edge(i,j,Vertical)                     Edge(i+1,j,Vertical)
///   |                                     |
/// Node(i,j)   - Edge(i,j,Horizontal)   - Node(i+1,j)
/// ```
#[derive(Debug)]
pub struct SquareGraph<N, E, Ix = usize, S = DefaultShape> {
    /// `[horizontal][vertical]`
    nodes: Array2<N>,
    horizontal: Array2<E>,
    vertical: Array2<E>,
    s: PhantomData<S>,
    pd: PhantomData<Ix>,
}

impl<N: Clone, E: Clone, Ix: IndexType, S: Shape> Clone for SquareGraph<N, E, Ix, S> {
    /// A copy with the same sizes, each weight cloned.
    fn clone(&self) -> (r: Self)
        ensures
            r.spec_h() == self.spec_h(),
            r.spec_v() == self.spec_v(),
            self.wf() ==> r.wf(),
            self.wf() ==> forall|i: int, j: int|
                0 <= i < self.spec_h() && 0 <= j < self.spec_v() ==> cloned::<N>(
                    self.spec_node_at(i, j),
                    #[trigger] r.spec_node_at(i, j),
                ),
            self.wf() ==> forall|i: int, j: int|
                0 <= i < self.spec_h_edges() && 0 <= j < self.spec_v() ==> cloned::<E>(
                    self.spec_horizontal_at(i, j),
                    #[trigger] r.spec_horizontal_at(i, j),
                ),
            self.wf() ==> forall|i: int, j: int|
                0 <= i < self.spec_h() && 0 <= j < self.spec_v_edges() ==> cloned::<E>(
                    self.spec_vertical_at(i, j),
                    #[trigger] r.spec_vertical_at(i, j),
                ),
    {
        let r = SquareGraph {
            nodes: self.nodes.clone(),
            horizontal: self.horizontal.clone(),
            vertical: self.vertical.clone(),
            s: PhantomData,
            pd: PhantomData,
        };
        proof {
            if self.wf() {
                assert forall|i: int, j: int|
                    0 <= i < self.spec_h() && 0 <= j < self.spec_v() implies cloned::<N>(
                    self.spec_node_at(i, j),
                    #[trigger] r.spec_node_at(i, j),
                ) by {
                    lemma_index_2d(i, j, self.spec_h() as int, self.spec_v() as int);
                    self.nodes.lemma_wf();
                }
                assert forall|i: int, j: int|
                    0 <= i < self.spec_h_edges() && 0 <= j < self.spec_v() implies cloned::<E>(
                    self.spec_horizontal_at(i, j),
                    #[trigger] r.spec_horizontal_at(i, j),
                ) by {
                    lemma_index_2d(i, j, self.spec_h_edges() as int, self.spec_v() as int);
                    self.horizontal.lemma_wf();
                }
                assert forall|i: int, j: int|
                    0 <= i < self.spec_h() && 0 <= j < self.spec_v_edges() implies cloned::<E>(
                    self.spec_vertical_at(i, j),
                    #[trigger] r.spec_vertical_at(i, j),
                ) by {
                    lemma_index_2d(i, j, self.spec_h() as int, self.spec_v_edges() as int);
                    self.vertical.lemma_wf();
                }
            }
        }
        r
    }
}

impl<N, E, Ix: IndexType, S: Shape> SquareGraph<N, E, Ix, S> {
    /// The number of nodes along the horizontal axis.
    pub closed spec fn spec_h(&self) -> nat {
        self.nodes.spec_h()
    }

    /// The number of nodes along the vertical axis.
    pub closed spec fn spec_v(&self) -> nat {
        self.nodes.spec_v()
    }

    /// The weight of the node at `(i, j)`.
    pub closed spec fn spec_node_at(&self, i: int, j: int) -> N {
        self.nodes.spec_at(i, j)
    }

    /// The weight of the horizontal edge from `(i, j)` to the node to its right.
    pub closed spec fn spec_horizontal_at(&self, i: int, j: int) -> E {
        self.horizontal.spec_at(i, j)
    }

    /// The weight of the vertical edge from `(i, j)` to the node above it.
    pub closed spec fn spec_vertical_at(&self, i: int, j: int) -> E {
        self.vertical.spec_at(i, j)
    }

    /// The sizes of the three arrays match: `h` by `v` nodes, one horizontal edge less in
    /// each row unless it loops horizontally, one vertical edge less in each column unless
    /// it loops vertically.
    pub open spec fn wf(&self) -> bool {
        arrays_match::<N, E, S>(self.spec_nodes(), self.spec_horizontals(), self.spec_verticals())
    }

    /// The edge arrays have one row less than the nodes along each axis where the graph
    /// does not loop, and as many where it does.
    pub closed spec fn spec_sizes_match(&self) -> bool {
        let hx: int = if S::spec_loop_horizontal() { 0 } else { 1 };
        let vx: int = if S::spec_loop_vertical() { 0 } else { 1 };
        &&& self.nodes.spec_h() == self.horizontal.spec_h() + hx
        &&& self.nodes.spec_v() == self.horizontal.spec_v()
        &&& self.nodes.spec_h() == self.vertical.spec_h()
        &&& self.nodes.spec_v() == self.vertical.spec_v() + vx
    }

    /// The array of node weights.
    pub closed spec fn spec_nodes(&self) -> Array2<N> {
        self.nodes
    }

    /// The array of horizontal edge weights.
    pub closed spec fn spec_horizontals(&self) -> Array2<E> {
        self.horizontal
    }

    /// The array of vertical edge weights.
    pub closed spec fn spec_verticals(&self) -> Array2<E> {
        self.vertical
    }

    /// The number of horizontal edges in each row.
    pub open spec fn spec_h_edges(&self) -> nat {
        edge_rows(self.spec_h(), S::spec_loop_horizontal())
    }

    /// The number of vertical edges in each column.
    pub open spec fn spec_v_edges(&self) -> nat {
        edge_rows(self.spec_v(), S::spec_loop_vertical())
    }

    /// The weight of a node, or `None` outside the graph.
    pub open spec fn spec_node(&self, id: NodeIndex<Ix>) -> Option<N> {
        if id.spec_h() < self.spec_h() && id.spec_v() < self.spec_v() {
            Some(self.spec_node_at(id.spec_h() as int, id.spec_v() as int))
        } else {
            None
        }
    }

    /// The weight of an edge, or `None` when there is no such edge.
    pub open spec fn spec_edge(&self, id: EdgeIndex<Ix>) -> Option<E> {
        let i = id.node.spec_h();
        let j = id.node.spec_v();
        match id.axis {
            Axis::Horizontal => if i < self.spec_h_edges() && j < self.spec_v() {
                Some(self.spec_horizontal_at(i as int, j as int))
            } else {
                None
            },
            Axis::Vertical => if i < self.spec_h() && j < self.spec_v_edges() {
                Some(self.spec_vertical_at(i as int, j as int))
            } else {
                None
            },
        }
    }

    /// Facts of a well-formed graph.
    pub proof fn lemma_wf(&self)
        requires
            self.wf(),
        ensures
            self.spec_h() > 0,
            !S::spec_loop_vertical() ==> self.spec_v() > 0,
            self.spec_h() * self.spec_v() <= usize::MAX,
            self.spec_h_edges() <= self.spec_h(),
            self.spec_v_edges() <= self.spec_v(),
            self.spec_sizes_match(),
    {
        self.nodes.lemma_wf();
    }

    /// Creates a graph from the node weights and the horizontal and vertical edge weights.
    /// Their sizes must match as [`wf`](`SquareGraph::wf`) states.
    pub fn new_raw(nodes: Array2<N>, horizontal: Array2<E>, vertical: Array2<E>) -> (r: Self)
        requires
            arrays_match::<N, E, S>(nodes, horizontal, vertical),
        ensures
            r.wf(),
            r.spec_h() == nodes.spec_h(),
            r.spec_v() == nodes.spec_v(),
            forall|i: int, j: int| #[trigger] r.spec_node_at(i, j) == nodes.spec_at(i, j),
            forall|i: int, j: int| #[trigger] r.spec_horizontal_at(i, j) == horizontal.spec_at(i, j),
            forall|i: int, j: int| #[trigger] r.spec_vertical_at(i, j) == vertical.spec_at(i, j),
    {
        SquareGraph { nodes, horizontal, vertical, s: PhantomData, pd: PhantomData }
    }

    /// Creates a graph whose node weights are `fnode(h, v)` and whose edge weights are
    /// `fedge(h, v, axis)` for the edge leaving `(h, v)` forward along the axis.
    /// `h` must not be 0, nor `v` unless the graph loops vertically.
    pub fn new_with<FN, FE>(h: usize, v: usize, fnode: FN, fedge: FE) -> (r: Self)
        where
            FN: Fn(usize, usize) -> N,
            FE: Fn(usize, usize, Axis) -> E,
        requires
            h > 0,
            !S::spec_loop_vertical() ==> v > 0,
            h * v <= usize::MAX,
            forall|i: usize, j: usize| i < h && j < v ==> call_requires(fnode, (i, j)),
            forall|i: usize, j: usize|
                i < edge_rows(h as nat, S::spec_loop_horizontal()) && j < v ==> call_requires(
                    fedge,
                    (i, j, Axis::Horizontal),
                ),
            forall|i: usize, j: usize|
                i < h && j < edge_rows(v as nat, S::spec_loop_vertical()) ==> call_requires(
                    fedge,
                    (i, j, Axis::Vertical),
                ),
        ensures
            r.wf(),
            r.spec_h() == h,
            r.spec_v() == v,
            forall|i: usize, j: usize|
                i < h && j < v ==> call_ensures(fnode, (i, j), #[trigger] r.spec_node_at(i as int, j as int)),
            forall|i: usize, j: usize|
                i < r.spec_h_edges() && j < v ==> call_ensures(
                    fedge,
                    (i, j, Axis::Horizontal),
                    #[trigger] r.spec_horizontal_at(i as int, j as int),
                ),
            forall|i: usize, j: usize|
                i < h && j < r.spec_v_edges() ==> call_ensures(
                    fedge,
                    (i, j, Axis::Vertical),
                    #[trigger] r.spec_vertical_at(i as int, j as int),
                ),
    {
        let nodes = Array2::new(h, v, fnode);
        let mh: usize = if S::loop_horizontal() {
            h
        } else {
            h - 1
        };
        let fr = &fedge;
        let hf = |i: usize, j: usize| -> (x: E)
            requires
                i < mh,
                j < v,
                forall|i: usize, j: usize| i < mh && j < v ==> call_requires(*fr, (i, j, Axis::Horizontal)),
            ensures
                call_ensures(*fr, (i, j, Axis::Horizontal), x),
            { fr(i, j, Axis::Horizontal) };
        proof {
            assert(mh * v <= h * v) by (nonlinear_arith)
                requires
                    mh <= h,
            ;
        }
        let horizontal = Array2::new(mh, v, hf);
        let mv: usize = if S::loop_vertical() {
            v
        } else {
            v - 1
        };
        let vf = |i: usize, j: usize| -> (x: E)
            requires
                i < h,
                j < mv,
                forall|i: usize, j: usize| i < h && j < mv ==> call_requires(*fr, (i, j, Axis::Vertical)),
            ensures
                call_ensures(*fr, (i, j, Axis::Vertical), x),
            { fr(i, j, Axis::Vertical) };
        proof {
            assert(h * mv <= h * v) by (nonlinear_arith)
                requires
                    mv <= v,
            ;
        }
        let vertical = Array2::new(h, mv, vf);
        let r = SquareGraph { nodes, horizontal, vertical, s: PhantomData, pd: PhantomData };
        proof {
            assert forall|i: usize, j: usize| i < r.spec_h_edges() && j < v implies call_ensures(
                fedge,
                (i, j, Axis::Horizontal),
                #[trigger] r.spec_horizontal_at(i as int, j as int),
            ) by {
                assert(call_ensures(hf, (i, j), horizontal.spec_at(i as int, j as int)));
            }
            assert forall|i: usize, j: usize| i < h && j < r.spec_v_edges() implies call_ensures(
                fedge,
                (i, j, Axis::Vertical),
                #[trigger] r.spec_vertical_at(i as int, j as int),
            ) by {
                assert(call_ensures(vf, (i, j), vertical.spec_at(i as int, j as int)));
            }
        }
        r
    }

    /// Creates a graph with the node and edge weights set to [`default`](`Default::default`).
    /// `h` must not be 0, nor `v` unless the graph loops vertically.
    pub fn new(h: usize, v: usize) -> (r: Self)
        where
            N: Default,
            E: Default,
        requires
            h > 0,
            !S::spec_loop_vertical() ==> v > 0,
            h * v <= usize::MAX,
        ensures
            r.wf(),
            r.spec_h() == h,
            r.spec_v() == v,
    {
        Self::new_with(h, v, |_i: usize, _j: usize| N::default(), |_i: usize, _j: usize, _a: Axis| E::default())
    }

    /// Whether the sizes of the arrays match; see [`wf`](`SquareGraph::wf`).
    fn check_gen(&self) -> (r: bool)
        ensures
            r == self.spec_sizes_match(),
    {
        let hx: usize = if S::loop_horizontal() {
            0
        } else {
            1
        };
        let vx: usize = if S::loop_vertical() {
            0
        } else {
            1
        };
        let nh: usize = self.nodes.h_size();
        let nv: usize = self.nodes.v_size();
        nh >= hx && nh - hx == self.horizontal.h_size() && nv == self.horizontal.v_size()
            && nh == self.vertical.h_size() && nv >= vx && nv - vx == self.vertical.v_size()
    }

    /// Returns the node count in the horizontal direction.
    pub fn horizontal_node_count(&self) -> (r: usize)
        ensures
            r == self.spec_h(),
    {
        self.nodes.h_size()
    }

    /// Returns the node count in the vertical direction.
    pub fn vertical_node_count(&self) -> (r: usize)
        ensures
            r == self.spec_v(),
    {
        self.nodes.v_size()
    }

    /// Get a reference to the node weights. `[horizontal][vertical]`
    pub fn nodes(&self) -> (r: &Array2<N>)
        ensures
            self.wf() ==> r.wf(),
            r.spec_h() == self.spec_h(),
            r.spec_v() == self.spec_v(),
            forall|i: int, j: int| #[trigger] r.spec_at(i, j) == self.spec_node_at(i, j),
    {
        &self.nodes
    }

    /// Get a reference to the horizontal edge weights. `[horizontal][vertical]`
    pub fn horizontal(&self) -> (r: &Array2<E>)
        ensures
            self.wf() ==> r.wf() && r.spec_h() == self.spec_h_edges() && r.spec_v() == self.spec_v(),
            forall|i: int, j: int| #[trigger] r.spec_at(i, j) == self.spec_horizontal_at(i, j),
    {
        &self.horizontal
    }

    /// Get a reference to the vertical edge weights. `[horizontal][vertical]`
    pub fn vertical(&self) -> (r: &Array2<E>)
        ensures
            self.wf() ==> r.wf() && r.spec_h() == self.spec_h() && r.spec_v() == self.spec_v_edges(),
            forall|i: int, j: int| #[trigger] r.spec_at(i, j) == self.spec_vertical_at(i, j),
    {
        &self.vertical
    }

    /// Get a mutable reference to the node weights. `[horizontal][vertical]`
    /// The graph stays well formed as long as the sizes of the array do not change.
    pub fn nodes_mut(&mut self) -> (r: &mut Array2<N>)
        ensures
            *r == old(self).spec_nodes(),
            final(self).spec_nodes() == *final(r),
            final(self).spec_horizontals() == old(self).spec_horizontals(),
            final(self).spec_verticals() == old(self).spec_verticals(),
    {
        &mut self.nodes
    }

    /// Get a mutable reference to the horizontal edge weights. `[horizontal][vertical]`
    /// The graph stays well formed as long as the sizes of the array do not change.
    pub fn horizontal_mut(&mut self) -> (r: &mut Array2<E>)
        ensures
            *r == old(self).spec_horizontals(),
            final(self).spec_horizontals() == *final(r),
            final(self).spec_nodes() == old(self).spec_nodes(),
            final(self).spec_verticals() == old(self).spec_verticals(),
    {
        &mut self.horizontal
    }

    /// Get a mutable reference to the vertical edge weights. `[horizontal][vertical]`
    /// The graph stays well formed as long as the sizes of the array do not change.
    pub fn vertical_mut(&mut self) -> (r: &mut Array2<E>)
        ensures
            *r == old(self).spec_verticals(),
            final(self).spec_verticals() == *final(r),
            final(self).spec_nodes() == old(self).spec_nodes(),
            final(self).spec_horizontals() == old(self).spec_horizontals(),
    {
        &mut self.vertical
    }

    /// The edge leaving `node` in the direction `dir`, and whether the direction is forward
    /// along the edge. `None` when the move leaves the graph.
    pub fn get_edge_id(&self, node: NodeIndex<Ix>, dir: SquareDirection) -> (r: Option<(EdgeIndex<Ix>, bool)>)
        requires
            self.wf(),
            dir == SquareDirection::Backward(Axis::Vertical) && node.spec_v() == 0 && S::spec_loop_vertical()
                ==> self.spec_v() > 0,
        ensures
            r == spec_edge_id::<Ix>(self.spec_h(), self.spec_v(), S::spec_loop_horizontal(), S::spec_loop_vertical(), node, dir),
    {
        let hc: usize = self.horizontal_node_count();
        let vc: usize = self.vertical_node_count();
        let nh: usize = node.horizontal.index();
        let nv: usize = node.vertical.index();
        proof {
            Ix::lemma_index(node.horizontal, 0);
            Ix::lemma_index(node.vertical, 0);
        }
        match dir {
            SquareDirection::Foward(Axis::Vertical) => {
                if nv < vc && nv + 1 < vc {
                    Some((EdgeIndex { node, axis: Axis::Vertical }, true))
                } else if S::loop_vertical() && nv < vc && nv + 1 == vc {
                    Some((EdgeIndex { node, axis: Axis::Vertical }, true))
                } else {
                    None
                }
            },
            SquareDirection::Foward(Axis::Horizontal) => {
                if nh < hc && nh + 1 < hc {
                    Some((EdgeIndex { node, axis: Axis::Horizontal }, true))
                } else if S::loop_horizontal() && nh < hc && nh + 1 == hc {
                    Some((EdgeIndex { node, axis: Axis::Horizontal }, true))
                } else {
                    None
                }
            },
            SquareDirection::Backward(Axis::Vertical) => {
                if nv != 0 {
                    Some((EdgeIndex { node: node.down(), axis: Axis::Vertical }, false))
                } else if S::loop_vertical() {
                    Some((EdgeIndex { node: NodeIndex { horizontal: node.horizontal, vertical: Ix::new(vc - 1) }, axis: Axis::Vertical }, false))
                } else {
                    None
                }
            },
            SquareDirection::Backward(Axis::Horizontal) => {
                if nh != 0 {
                    Some((EdgeIndex { node: node.left(), axis: Axis::Horizontal }, false))
                } else if S::loop_horizontal() {
                    Some((EdgeIndex { node: NodeIndex { horizontal: Ix::new(hc - 1), vertical: node.vertical }, axis: Axis::Horizontal }, false))
                } else {
                    None
                }
            },
        }
    }

    /// The weight of a node, or `None` outside the graph.
    pub fn node_weight(&self, id: NodeIndex<Ix>) -> (r: Option<&N>)
        requires
            self.wf(),
        ensures
            r is Some <==> self.spec_node(id) is Some,
            r matches Some(x) ==> self.spec_node(id) == Some(*x),
    {
        self.nodes.get((id.horizontal.index(), id.vertical.index()))
    }

    /// The weight of an edge, or `None` when there is no such edge.
    pub fn edge_weight(&self, id: EdgeIndex<Ix>) -> (r: Option<&E>)
        requires
            self.wf(),
        ensures
            r is Some <==> self.spec_edge(id) is Some,
            r matches Some(x) ==> self.spec_edge(id) == Some(*x),
    {
        let arr = match id.axis {
            Axis::Horizontal => &self.horizontal,
            Axis::Vertical => &self.vertical,
        };
        arr.get((id.node.horizontal.index(), id.node.vertical.index()))
    }
}


impl<N, E, Ix: IndexType, S: Shape> SquareGraph<N, E, Ix, S> {
    /// The weight of a node to change, or `None` outside the graph. Only that weight can
    /// change.
    pub fn node_weight_mut(&mut self, id: NodeIndex<Ix>) -> (r: Option<&mut N>)
        requires
            old(self).wf(),
        ensures
            final(self).wf(),
            final(self).spec_h() == old(self).spec_h(),
            final(self).spec_v() == old(self).spec_v(),
            r is Some <==> old(self).spec_node(id) is Some,
            r matches Some(x) ==> old(self).spec_node(id) == Some(*x) && final(self).spec_node(id) == Some(*final(x)),
            forall|i: int, j: int|
                0 <= i < old(self).spec_h() && 0 <= j < old(self).spec_v() && (i != id.spec_h() || j != id.spec_v())
                    ==> #[trigger] final(self).spec_node_at(i, j) == old(self).spec_node_at(i, j),
            forall|i: int, j: int| #[trigger] final(self).spec_horizontal_at(i, j) == old(self).spec_horizontal_at(i, j),
            forall|i: int, j: int| #[trigger] final(self).spec_vertical_at(i, j) == old(self).spec_vertical_at(i, j),
    {
        let i: usize = id.horizontal.index();
        let j: usize = id.vertical.index();
        proof {
            self.nodes.lemma_wf();
            if i < self.nodes.spec_h() && j < self.nodes.spec_v() {
                lemma_index_2d(i as int, j as int, self.nodes.spec_h() as int, self.nodes.spec_v() as int);
                lemma_index_2d_others(i as int, j as int, self.nodes.spec_h() as int, self.nodes.spec_v() as int);
            }
        }
        self.nodes.get_mut((i, j))
    }

    /// The weight of an edge to change, or `None` when there is no such edge. Only that weight
    /// can change.
    pub fn edge_weight_mut(&mut self, id: EdgeIndex<Ix>) -> (r: Option<&mut E>)
        requires
            old(self).wf(),
        ensures
            final(self).wf(),
            final(self).spec_h() == old(self).spec_h(),
            final(self).spec_v() == old(self).spec_v(),
            r is Some <==> old(self).spec_edge(id) is Some,
            r matches Some(x) ==> old(self).spec_edge(id) == Some(*x) && final(self).spec_edge(id) == Some(*final(x)),
            forall|i: int, j: int| #[trigger] final(self).spec_node_at(i, j) == old(self).spec_node_at(i, j),
            forall|i: int, j: int|
                0 <= i < old(self).spec_h_edges() && 0 <= j < old(self).spec_v() && (id.axis != Axis::Horizontal
                    || i != id.node.spec_h() || j != id.node.spec_v())
                    ==> #[trigger] final(self).spec_horizontal_at(i, j) == old(self).spec_horizontal_at(i, j),
            forall|i: int, j: int|
                0 <= i < old(self).spec_h() && 0 <= j < old(self).spec_v_edges() && (id.axis != Axis::Vertical
                    || i != id.node.spec_h() || j != id.node.spec_v())
                    ==> #[trigger] final(self).spec_vertical_at(i, j) == old(self).spec_vertical_at(i, j),
    {
        let i: usize = id.node.horizontal.index();
        let j: usize = id.node.vertical.index();
        proof {
            self.horizontal.lemma_wf();
            self.vertical.lemma_wf();
            if i < self.horizontal.spec_h() && j < self.horizontal.spec_v() {
                lemma_index_2d(i as int, j as int, self.horizontal.spec_h() as int, self.horizontal.spec_v() as int);
                lemma_index_2d_others(i as int, j as int, self.horizontal.spec_h() as int, self.horizontal.spec_v() as int);
            }
            if i < self.vertical.spec_h() && j < self.vertical.spec_v() {
                lemma_index_2d(i as int, j as int, self.vertical.spec_h() as int, self.vertical.spec_v() as int);
                lemma_index_2d_others(i as int, j as int, self.vertical.spec_h() as int, self.vertical.spec_v() as int);
            }
        }
        match id.axis {
            Axis::Horizontal => self.horizontal.get_mut((i, j)),
            Axis::Vertical => self.vertical.get_mut((i, j)),
        }
    }
}

impl<E, Ix: IndexType, S: Shape> SquareGraph<(), E, Ix, S> {
    /// Creates a graph with no node weights and the edge weights `fedge(h, v, axis)`.
    pub fn new_edge_graph<FE>(h: usize, v: usize, fedge: FE) -> (r: Self)
        where
            FE: Fn(usize, usize, Axis) -> E,
        requires
            h > 0,
            !S::spec_loop_vertical() ==> v > 0,
            h * v <= usize::MAX,
            forall|i: usize, j: usize|
                i < edge_rows(h as nat, S::spec_loop_horizontal()) && j < v ==> call_requires(
                    fedge,
                    (i, j, Axis::Horizontal),
                ),
            forall|i: usize, j: usize|
                i < h && j < edge_rows(v as nat, S::spec_loop_vertical()) ==> call_requires(
                    fedge,
                    (i, j, Axis::Vertical),
                ),
        ensures
            r.wf(),
            r.spec_h() == h,
            r.spec_v() == v,
            forall|i: usize, j: usize|
                i < r.spec_h_edges() && j < v ==> call_ensures(
                    fedge,
                    (i, j, Axis::Horizontal),
                    #[trigger] r.spec_horizontal_at(i as int, j as int),
                ),
            forall|i: usize, j: usize|
                i < h && j < r.spec_v_edges() ==> call_ensures(
                    fedge,
                    (i, j, Axis::Vertical),
                    #[trigger] r.spec_vertical_at(i as int, j as int),
                ),
    {
        Self::new_with(h, v, |_i: usize, _j: usize| (), fedge)
    }
}

/// The edge that [`get_edge_id`](`SquareGraph::get_edge_id`) finds from a node of the graph
/// has a weight, where the sizes along which the graph loops fit the index type.
pub proof fn lemma_edge_id_has_weight<N, E, Ix: IndexType, S: Shape>(
    g: &SquareGraph<N, E, Ix, S>,
    node: NodeIndex<Ix>,
    dir: SquareDirection,
)
    requires
        g.wf(),
        node.spec_h() < g.spec_h(),
        node.spec_v() < g.spec_v(),
        S::spec_loop_horizontal() ==> g.spec_h() <= Ix::spec_max() + 1,
        S::spec_loop_vertical() ==> g.spec_v() <= Ix::spec_max() + 1,
    ensures
        spec_edge_id::<Ix>(g.spec_h(), g.spec_v(), S::spec_loop_horizontal(), S::spec_loop_vertical(), node, dir)
            matches Some((e, _)) ==> g.spec_edge(e) is Some,
{
    g.lemma_wf();
    Ix::lemma_index(node.horizontal, 0);
    Ix::lemma_index(node.vertical, 0);
    Ix::lemma_index(Ix::spec_new((g.spec_h() - 1) as usize), (g.spec_h() - 1) as usize);
    Ix::lemma_index(Ix::spec_new((node.spec_h() - 1) as usize), (node.spec_h() - 1) as usize);
    if g.spec_v() > 0 {
        Ix::lemma_index(Ix::spec_new((g.spec_v() - 1) as usize), (g.spec_v() - 1) as usize);
    }
    Ix::lemma_index(Ix::spec_new((node.spec_v() - 1) as usize), (node.spec_v() - 1) as usize);
}

/// Map of the visited nodes of a [`SquareGraph`]: one bit set for each horizontal position.
#[derive(Debug, Clone, Hash, PartialEq, Eq)]
pub struct VisMap {
    v: Vec<FixedBitSet>,
}

impl VisMap {
    /// The number of horizontal positions.
    pub closed spec fn spec_h(&self) -> nat {
        self.v@.len()
    }

    /// The number of vertical positions at the horizontal position `i`.
    pub closed spec fn spec_row_len(&self, i: nat) -> nat {
        bitset_len(self.v@[i as int])
    }

    /// Whether the position `(i, j)` was visited.
    pub closed spec fn spec_visited(&self, i: nat, j: nat) -> bool {
        i < self.v@.len() && bitset_bits(self.v@[i as int]).contains(j)
    }

    /// A map of `h` by `v` positions with none visited.
    pub fn new(h: usize, v: usize) -> (r: Self)
        ensures
            r.spec_h() == h,
            forall|i: nat| i < h ==> #[trigger] r.spec_row_len(i) == v,
            forall|i: nat, j: nat| !r.spec_visited(i, j),
    {
        let mut vec: Vec<FixedBitSet> = Vec::new();
        let mut i: usize = 0;
        while i < h
            invariant
                i <= h,
                vec@.len() == i,
                forall|k: int| 0 <= k < i ==> bitset_len(#[trigger] vec@[k]) == v,
                forall|k: int| 0 <= k < i ==> bitset_bits(#[trigger] vec@[k]) == Set::<nat>::empty(),
            decreases h - i,
        {
            vec.push(bitset_with_capacity(v));
            i = i + 1;
        }
        let r = VisMap { v: vec };
        proof {
            assert forall|i: nat, j: nat| !r.spec_visited(i, j) by {
                if i < vec@.len() {
                    assert(bitset_bits(vec@[i as int]) == Set::<nat>::empty());
                }
            }
            assert forall|i: nat| i < h implies #[trigger] r.spec_row_len(i) == v by {
                assert(bitset_len(vec@[i as int]) == v);
            }
        }
        r
    }

    /// Marks a node as visited and returns `true` if it was not visited before. The node
    /// must be inside the map.
    pub fn visit<Ix: IndexType>(&mut self, a: NodeIndex<Ix>) -> (r: bool)
        requires
            a.spec_h() < old(self).spec_h(),
            a.spec_v() < old(self).spec_row_len(a.spec_h()),
        ensures
            final(self).spec_h() == old(self).spec_h(),
            forall|i: nat| i < old(self).spec_h() ==> #[trigger] final(self).spec_row_len(i) == old(self).spec_row_len(i),
            r == !old(self).spec_visited(a.spec_h(), a.spec_v()),
            forall|i: nat, j: nat|
                #[trigger] final(self).spec_visited(i, j) == (old(self).spec_visited(i, j) || (i == a.spec_h()
                    && j == a.spec_v())),
    {
        let i: usize = a.horizontal.index();
        let j: usize = a.vertical.index();
        let ghost old_v = self.v@;
        let prev = bitset_put(&mut self.v[i], j);
        proof {
            assert forall|k: nat| k < old(self).spec_h() implies #[trigger] self.spec_row_len(k) == old(self).spec_row_len(k) by {
                if k != i {
                    assert(self.v@[k as int] == old_v[k as int]);
                }
            }
            assert forall|p: nat, q: nat|
                #[trigger] self.spec_visited(p, q) == (old(self).spec_visited(p, q) || (p == i && q == j)) by {
                if p != i && p < self.v@.len() {
                    assert(self.v@[p as int] == old_v[p as int]);
                }
            }
        }
        !prev
    }

    /// Whether a node was visited. The node must be inside the map.
    pub fn is_visited<Ix: IndexType>(&self, a: &NodeIndex<Ix>) -> (r: bool)
        requires
            a.spec_h() < self.spec_h(),
        ensures
            r == self.spec_visited(a.spec_h(), a.spec_v()),
    {
        bitset_contains(&self.v[a.horizontal.index()], a.vertical.index())
    }

    /// Marks every node as not visited.
    fn clear(&mut self)
        ensures
            final(self).spec_h() == old(self).spec_h(),
            forall|i: nat| i < old(self).spec_h() ==> #[trigger] final(self).spec_row_len(i) == old(self).spec_row_len(i),
            forall|i: nat, j: nat| !final(self).spec_visited(i, j),
    {
        let n: usize = self.v.len();
        let mut i: usize = 0;
        while i < n
            invariant
                i <= n,
                n == self.v@.len(),
                n == old(self).v@.len(),
                forall|k: int| 0 <= k < n ==> bitset_len(#[trigger] self.v@[k]) == bitset_len(old(self).v@[k]),
                forall|k: int| 0 <= k < i ==> bitset_bits(#[trigger] self.v@[k]) == Set::<nat>::empty(),
            decreases n - i,
        {
            bitset_clear(&mut self.v[i]);
            i = i + 1;
        }
        proof {
            assert forall|p: nat, q: nat| !self.spec_visited(p, q) by {
                if p < self.v@.len() {
                    assert(bitset_bits(self.v@[p as int]) == Set::<nat>::empty());
                }
            }
            assert forall|k: nat| k < old(self).spec_h() implies #[trigger] self.spec_row_len(k) == old(self).spec_row_len(k) by {
                if k < n {
                    assert(bitset_len(self.v@[k as int]) == bitset_len(old(self).v@[k as int]));
                }
            }
        }
    }
}

impl<N, E, Ix: IndexType, S: Shape> SquareGraph<N, E, Ix, S> {
    /// A map of visited nodes of this graph with no node visited.
    pub fn visit_map(&self) -> (r: VisMap)
        ensures
            r.spec_h() == self.spec_h(),
            forall|i: nat| i < self.spec_h() ==> #[trigger] r.spec_row_len(i) == self.spec_v(),
            forall|i: nat, j: nat| !r.spec_visited(i, j),
    {
        VisMap::new(self.horizontal_node_count(), self.vertical_node_count())
    }

    /// Marks every node of a map as not visited.
    pub fn reset_map(&self, map: &mut VisMap)
        ensures
            final(map).spec_h() == old(map).spec_h(),
            forall|i: nat| i < old(map).spec_h() ==> #[trigger] final(map).spec_row_len(i) == old(map).spec_row_len(i),
            forall|i: nat, j: nat| !final(map).spec_visited(i, j),
    {
        map.clear();
    }
}

} // verus!
