//! Edges of a [`SquareGraph`]: references to them, those of one node, and all of them.
use super::index::{node_at, Axis, EdgeIndex, IndexType, NodeIndex, SquareDirection};
use super::neighbors::square_neighbor;
use super::nodes::NodeIndices;
use super::{spec_edge_id, Shape, SizeInfo, SquareGraph};
use std::marker::PhantomData;
use vstd::prelude::*;

verus! {

/// Reference of edge data (edge index, weight, direction) in [`SquareGraph`]. The direction
/// is `true` when the edge was found from the node it leaves forward.
#[derive(Debug, Hash, PartialEq, Eq, PartialOrd, Ord)]
pub struct EdgeReference<'a, E, Ix, S: Shape> {
    edge_id: EdgeIndex<Ix>,
    edge_weight: &'a E,
    direction: bool,
    s: S::SizeInfo,
    spd: PhantomData<S>,
}

impl<'a, E, Ix: IndexType, S: Shape> EdgeReference<'a, E, Ix, S> {
    /// The edge index.
    pub closed spec fn spec_edge_id(&self) -> EdgeIndex<Ix> {
        self.edge_id
    }

    /// The weight of the edge.
    pub closed spec fn spec_weight(&self) -> E {
        *self.edge_weight
    }

    /// Whether the edge was found from the node it leaves forward.
    pub closed spec fn spec_direction(&self) -> bool {
        self.direction
    }

    /// The size info of the graph.
    pub closed spec fn spec_size_info(&self) -> S::SizeInfo {
        self.s
    }

    /// The positions of the node of the edge can grow by one, and the sizes along which the
    /// graph loops are held.
    pub open spec fn wf(&self) -> bool {
        &&& self.spec_edge_id().node.spec_h() < usize::MAX
        &&& self.spec_edge_id().node.spec_v() < usize::MAX
        &&& (S::spec_loop_horizontal() ==> self.spec_size_info().spec_horizontal_size() is Some)
        &&& (S::spec_loop_vertical() ==> self.spec_size_info().spec_vertical_size() is Some)
    }

    /// The node the edge leaves forward when `is_source`, else the node it reaches: the next
    /// one along the axis, or the first one where the graph loops from the last.
    pub open spec fn spec_end(&self, is_source: bool) -> NodeIndex<Ix> {
        let node = self.spec_edge_id().node;
        if is_source {
            node
        } else {
            match self.spec_edge_id().axis {
                Axis::Horizontal => if S::spec_loop_horizontal() && Some((node.spec_h() + 1) as nat)
                    == self.spec_size_info().spec_horizontal_size() {
                    NodeIndex { horizontal: Ix::spec_new(0), vertical: node.vertical }
                } else {
                    NodeIndex { horizontal: Ix::spec_new((node.spec_h() + 1) as usize), vertical: node.vertical }
                },
                Axis::Vertical => if S::spec_loop_vertical() && Some((node.spec_v() + 1) as nat)
                    == self.spec_size_info().spec_vertical_size() {
                    NodeIndex { horizontal: node.horizontal, vertical: Ix::spec_new(0) }
                } else {
                    NodeIndex { horizontal: node.horizontal, vertical: Ix::spec_new((node.spec_v() + 1) as usize) }
                },
            }
        }
    }

    fn get_node(&self, is_source: bool) -> (r: NodeIndex<Ix>)
        requires
            self.wf(),
        ensures
            r == self.spec_end(is_source),
    {
        let node = self.edge_id.node;
        if is_source {
            node
        } else {
            match self.edge_id.axis {
                Axis::Horizontal => {
                    if S::loop_horizontal() && node.horizontal.index() + 1 == self.s.horizontal_size() {
                        NodeIndex::new(Ix::new(0), node.vertical)
                    } else {
                        node.right()
                    }
                },
                Axis::Vertical => {
                    if S::loop_vertical() && node.vertical.index() + 1 == self.s.vertical_size() {
                        NodeIndex::new(node.horizontal, Ix::new(0))
                    } else {
                        node.up()
                    }
                },
            }
        }
    }

    /// The source node: the node the edge was found from.
    pub fn source(&self) -> (r: NodeIndex<Ix>)
        requires
            self.wf(),
        ensures
            r == self.spec_end(self.spec_direction()),
    {
        self.get_node(self.direction)
    }

    /// The target node: the other end of the edge.
    pub fn target(&self) -> (r: NodeIndex<Ix>)
        requires
            self.wf(),
        ensures
            r == self.spec_end(!self.spec_direction()),
    {
        self.get_node(!self.direction)
    }

    /// The weight of the edge.
    pub fn weight(&self) -> (r: &'a E)
        ensures
            *r == self.spec_weight(),
    {
        self.edge_weight
    }

    /// The edge index.
    pub fn id(&self) -> (r: EdgeIndex<Ix>)
        ensures
            r == self.spec_edge_id(),
    {
        self.edge_id
    }

    /// Whether the edge was found from the node it leaves forward.
    pub fn direction(&self) -> (r: bool)
        ensures
            r == self.spec_direction(),
    {
        self.direction
    }
}

impl<'a, E, Ix: IndexType, S: Shape> Clone for EdgeReference<'a, E, Ix, S> {
    fn clone(&self) -> (r: Self)
        ensures
            r == *self,
    {
        EdgeReference {
            edge_id: self.edge_id,
            edge_weight: self.edge_weight,
            direction: self.direction,
            s: self.s.duplicate(),
            spd: PhantomData,
        }
    }
}

impl<N, E, Ix: IndexType, S: Shape> SquareGraph<N, E, Ix, S> {
    /// The reference of the edge leaving `n` in the direction `dir`, as
    /// [`get_edge_id`](`SquareGraph::get_edge_id`) finds it. `None` when the move leaves the
    /// graph or that edge has no weight.
    pub fn get_edge_reference(&self, n: NodeIndex<Ix>, dir: SquareDirection) -> (r: Option<EdgeReference<'_, E, Ix, S>>)
        requires
            self.wf(),
            dir == SquareDirection::Backward(Axis::Vertical) && n.spec_v() == 0 && S::spec_loop_vertical()
                ==> self.spec_v() > 0,
        ensures
            match spec_edge_id::<Ix>(self.spec_h(), self.spec_v(), S::spec_loop_horizontal(), S::spec_loop_vertical(), n, dir) {
                Some((e, fo)) => match self.spec_edge(e) {
                    Some(w) => r matches Some(er) && er.spec_edge_id() == e && er.spec_weight() == w
                        && er.spec_direction() == fo && (S::spec_loop_horizontal()
                        ==> er.spec_size_info().spec_horizontal_size() == Some(self.spec_h())) && (
                    S::spec_loop_vertical() ==> er.spec_size_info().spec_vertical_size() == Some(self.spec_v())),
                    None => r is None,
                },
                None => r is None,
            },
            n.spec_h() < self.spec_h() && n.spec_v() < self.spec_v() && (S::spec_loop_horizontal()
                ==> self.spec_h() <= Ix::spec_max() + 1) && (S::spec_loop_vertical() ==> self.spec_v()
                <= Ix::spec_max() + 1) ==> (r matches Some(er) ==> er.spec_end(
                er.spec_direction(),
            ) == n),
    {
        proof {
            self.lemma_wf();
            Ix::lemma_index(n.horizontal, 0);
            Ix::lemma_index(n.vertical, 0);
            if self.spec_h() > 0 {
                Ix::lemma_index(Ix::spec_new(0), 0);
                Ix::lemma_index(Ix::spec_new((self.spec_h() - 1) as usize), (self.spec_h() - 1) as usize);
                Ix::lemma_index(Ix::spec_new((n.spec_h() - 1) as usize), (n.spec_h() - 1) as usize);
                Ix::lemma_index(Ix::spec_new((n.spec_h() - 1 + 1) as usize), (n.spec_h() - 1 + 1) as usize);
            }
            if self.spec_v() > 0 {
                Ix::lemma_index(Ix::spec_new((self.spec_v() - 1) as usize), (self.spec_v() - 1) as usize);
                Ix::lemma_index(Ix::spec_new((n.spec_v() - 1) as usize), (n.spec_v() - 1) as usize);
                Ix::lemma_index(Ix::spec_new((n.spec_v() - 1 + 1) as usize), (n.spec_v() - 1 + 1) as usize);
            }
        }
        match self.get_edge_id(n, dir) {
            Some((e, fo)) => match self.edge_weight(e) {
                Some(w) => Some(
                    EdgeReference {
                        edge_id: e,
                        edge_weight: w,
                        direction: fo,
                        s: S::get_sizeinfo(self.horizontal_node_count(), self.vertical_node_count()),
                        spd: PhantomData,
                    },
                ),
                None => None,
            },
            None => None,
        }
    }
}

/// The edge tried at state `st` from `n` on a graph of `h` by `v` nodes that loops
/// horizontally when `lh` and vertically when `lv`: to the left, to the right, down and up
/// in turn, with whether it leaves `n` forward.
pub open spec fn square_edge_slot<Ix: IndexType>(
    h: nat,
    v: nat,
    lh: bool,
    lv: bool,
    n: NodeIndex<Ix>,
    st: nat,
) -> Option<(EdgeIndex<Ix>, bool)> {
    let nh = n.spec_h();
    let nv = n.spec_v();
    if st == 0 {
        if nh == 0 {
            if !lh {
                None
            } else {
                Some(
                    (
                        EdgeIndex {
                            node: NodeIndex { horizontal: Ix::spec_new((h - 1) as usize), vertical: n.vertical },
                            axis: Axis::Horizontal,
                        },
                        false,
                    ),
                )
            }
        } else {
            Some(
                (
                    EdgeIndex {
                        node: NodeIndex { horizontal: Ix::spec_new((nh - 1) as usize), vertical: n.vertical },
                        axis: Axis::Horizontal,
                    },
                    false,
                ),
            )
        }
    } else if st == 1 {
        if !lh && nh + 1 == h {
            None
        } else {
            Some((EdgeIndex { node: n, axis: Axis::Horizontal }, true))
        }
    } else if st == 2 {
        if nv == 0 {
            if !lv {
                None
            } else {
                Some(
                    (
                        EdgeIndex {
                            node: NodeIndex { horizontal: n.horizontal, vertical: Ix::spec_new((v - 1) as usize) },
                            axis: Axis::Vertical,
                        },
                        false,
                    ),
                )
            }
        } else {
            Some(
                (
                    EdgeIndex {
                        node: NodeIndex { horizontal: n.horizontal, vertical: Ix::spec_new((nv - 1) as usize) },
                        axis: Axis::Vertical,
                    },
                    false,
                ),
            )
        }
    } else if st == 3 {
        if !lv && nv + 1 == v {
            None
        } else {
            Some((EdgeIndex { node: n, axis: Axis::Vertical }, true))
        }
    } else {
        None
    }
}

/// Edges of a node of a [`SquareGraph`]: to the left, to the right, down and up in turn.
pub struct Edges<'a, N, E, Ix, S> {
    g: &'a SquareGraph<N, E, Ix, S>,
    node: NodeIndex<Ix>,
    state: usize,
}

impl<'a, N, E, Ix: IndexType, S: Shape> Edges<'a, N, E, Ix, S> {
    /// The graph.
    pub closed spec fn spec_graph(&self) -> &'a SquareGraph<N, E, Ix, S> {
        self.g
    }

    /// The node whose edges are iterated.
    pub closed spec fn spec_node(&self) -> NodeIndex<Ix> {
        self.node
    }

    /// The next state to try.
    pub closed spec fn spec_state(&self) -> nat {
        self.state as nat
    }

    /// The edge found at a state from the node, with whether it leaves the node forward,
    /// when it has a weight.
    pub open spec fn spec_slot(&self, st: nat) -> Option<(EdgeIndex<Ix>, bool)> {
        let g = self.spec_graph();
        match square_edge_slot::<Ix>(g.spec_h(), g.spec_v(), S::spec_loop_horizontal(), S::spec_loop_vertical(), self.spec_node(), st) {
            Some((e, fo)) => if g.spec_edge(e) is Some {
                Some((e, fo))
            } else {
                None
            },
            None => None,
        }
    }

    /// The graph is well formed, and the sizes allow every step from the node.
    pub closed spec fn wf(&self) -> bool {
        &&& self.g.wf()
        &&& (S::spec_loop_vertical() && self.node.spec_v() == 0 ==> self.g.spec_v() > 0)
    }

    /// The next edge of the node, trying left, right, down and up in turn; `None` when no
    /// state is left.
    pub fn next(&mut self) -> (r: Option<EdgeReference<'a, E, Ix, S>>)
        requires
            old(self).wf(),
        ensures
            final(self).wf(),
            final(self).spec_graph() == old(self).spec_graph(),
            final(self).spec_node() == old(self).spec_node(),
            r matches Some(er) ==> {
                &&& old(self).spec_state() < final(self).spec_state()
                &&& old(self).spec_slot((final(self).spec_state() - 1) as nat) == Some(
                    (er.spec_edge_id(), er.spec_direction()),
                )
                &&& old(self).spec_graph().spec_edge(er.spec_edge_id()) == Some(er.spec_weight())
                &&& (S::spec_loop_horizontal() ==> er.spec_size_info().spec_horizontal_size() == Some(
                    old(self).spec_graph().spec_h(),
                ))
                &&& (S::spec_loop_vertical() ==> er.spec_size_info().spec_vertical_size() == Some(
                    old(self).spec_graph().spec_v(),
                ))
            },
            r is Some ==> forall|st: nat|
                old(self).spec_state() <= st < final(self).spec_state() - 1 ==> #[trigger] old(self).spec_slot(st)
                    is None,
            r is None ==> forall|st: nat| old(self).spec_state() <= st ==> #[trigger] old(self).spec_slot(st) is None,
            ({
                let g = old(self).spec_graph();
                let n = old(self).spec_node();
                let lh = S::spec_loop_horizontal();
                let lv = S::spec_loop_vertical();
                n.spec_h() < g.spec_h() && n.spec_v() < g.spec_v() && (lh ==> g.spec_h() <= Ix::spec_max() + 1)
                    && (lv ==> g.spec_v() <= Ix::spec_max() + 1) ==> (r matches Some(er) ==> {
                    &&& er.spec_end(er.spec_direction()) == n
                    &&& Some(er.spec_end(!er.spec_direction())) == square_neighbor::<Ix>(
                        g.spec_h(),
                        g.spec_v(),
                        lh,
                        lv,
                        n,
                        (final(self).spec_state() - 1) as nat,
                    )
                })
            }),
    {
        let g = self.g;
        let n = self.node;
        let h: usize = g.horizontal_node_count();
        let v: usize = g.vertical_node_count();
        let nh: usize = n.horizontal.index();
        let nv: usize = n.vertical.index();
        let ghost start = self.state as nat;
        proof {
            g.lemma_wf();
            Ix::lemma_index(n.horizontal, 0);
            Ix::lemma_index(n.vertical, 0);
        }
        loop
            invariant
                self.g == g,
                self.node == n,
                g == old(self).g,
                n == old(self).node,
                self.wf(),
                h == g.spec_h(),
                v == g.spec_v(),
                h > 0,
                nh == n.spec_h(),
                nv == n.spec_v(),
                start == old(self).state,
                start <= self.state,
                forall|st: nat| start <= st < self.state ==> #[trigger] old(self).spec_slot(st) is None,
            decreases 5 - (if self.state <= 4 { self.state as int } else { 4 }),
        {
            let st: usize = self.state;
            let slot: Option<(EdgeIndex<Ix>, bool)> = if st == 0 {
                if nh == 0 {
                    if !S::loop_horizontal() {
                        None
                    } else {
                        Some((EdgeIndex { node: NodeIndex::new(Ix::new(h - 1), n.vertical), axis: Axis::Horizontal }, false))
                    }
                } else {
                    Some((EdgeIndex { node: n.left(), axis: Axis::Horizontal }, false))
                }
            } else if st == 1 {
                if !S::loop_horizontal() && nh < h && nh + 1 == h {
                    None
                } else {
                    Some((EdgeIndex { node: n, axis: Axis::Horizontal }, true))
                }
            } else if st == 2 {
                if nv == 0 {
                    if !S::loop_vertical() {
                        None
                    } else {
                        Some((EdgeIndex { node: NodeIndex::new(n.horizontal, Ix::new(v - 1)), axis: Axis::Vertical }, false))
                    }
                } else {
                    Some((EdgeIndex { node: n.down(), axis: Axis::Vertical }, false))
                }
            } else if st == 3 {
                if !S::loop_vertical() && nv < v && nv + 1 == v {
                    None
                } else {
                    Some((EdgeIndex { node: n, axis: Axis::Vertical }, true))
                }
            } else {
                proof {
                    assert forall|k: nat| start <= k implies #[trigger] old(self).spec_slot(k) is None by {
                        if k < st {
                        }
                    }
                }
                return None;
            };
            assert(slot == square_edge_slot::<Ix>(h as nat, v as nat, S::spec_loop_horizontal(), S::spec_loop_vertical(), n, st as nat));
            self.state = self.state + 1;
            if let Some((e, fo)) = slot {
                if let Some(w) = g.edge_weight(e) {
                    proof {
                        if nh < h && nv < v && (S::spec_loop_horizontal() ==> h <= Ix::spec_max() + 1) && (
                        S::spec_loop_vertical() ==> v <= Ix::spec_max() + 1) {
                            lemma_edge_slot_leaves_node(g, n, st as nat);
                        }
                    }
                    return Some(
                        EdgeReference {
                            edge_id: e,
                            edge_weight: w,
                            direction: fo,
                            s: S::get_sizeinfo(h, v),
                            spd: PhantomData,
                        },
                    );
                }
            }
        }
    }

    /// Bounds of the number of edges left: at most the states left.
    pub fn size_hint(&self) -> (r: (usize, Option<usize>))
        requires
            self.spec_state() <= 4,
        ensures
            r == (0usize, Some((4 - self.spec_state()) as usize)),
    {
        (0, Some(4 - self.state))
    }
}

impl<N, E, Ix: IndexType, S: Shape> SquareGraph<N, E, Ix, S> {
    /// Iterates the edges of a node. Where the graph loops vertically with no row, the node
    /// must not be on the bottom row.
    pub fn edges(&self, a: NodeIndex<Ix>) -> (r: Edges<'_, N, E, Ix, S>)
        requires
            self.wf(),
            S::spec_loop_vertical() && a.spec_v() == 0 ==> self.spec_v() > 0,
        ensures
            r.wf(),
            r.spec_graph() == self,
            r.spec_node() == a,
            r.spec_state() == 0,
    {
        Edges { g: self, node: a, state: 0 }
    }
}

/// The edge at place `p` in the order of [`EdgeReferences`] on a graph with `v` nodes in
/// each column: nodes row after row, the horizontal edge of each node before its vertical
/// one.
pub open spec fn square_slot_edge<Ix: IndexType>(v: nat, p: int) -> EdgeIndex<Ix> {
    EdgeIndex {
        node: node_at::<Ix>((p / 2) / v as int, (p / 2) % v as int),
        axis: if p % 2 == 0 {
            Axis::Horizontal
        } else {
            Axis::Vertical
        },
    }
}

/// Iterator of all edges of a [`SquareGraph`]: for each node row after row, the edge leaving
/// it forward horizontally, then vertically, where the edge has a weight.
pub struct EdgeReferences<'a, N, E, Ix, S> {
    g: &'a SquareGraph<N, E, Ix, S>,
    nodes: NodeIndices<Ix>,
    prv: Option<NodeIndex<Ix>>,
}

impl<'a, N, E, Ix: IndexType, S: Shape> EdgeReferences<'a, N, E, Ix, S> {
    /// The graph.
    pub closed spec fn spec_graph(&self) -> &'a SquareGraph<N, E, Ix, S> {
        self.g
    }

    /// The number of nodes given by the inner iterator.
    spec fn count(&self) -> int {
        (self.nodes.spec_h() * self.g.spec_v() + self.nodes.spec_v()) as int
    }

    /// The place of the next edge to try; see [`square_slot_edge`].
    pub closed spec fn spec_pos(&self) -> int {
        2 * self.count() - (if self.prv is Some {
            1int
        } else {
            0
        })
    }

    /// The graph is well formed; with a row, the nodes given are counted and the node whose
    /// vertical edge is still to try is the last one given.
    pub closed spec fn wf(&self) -> bool {
        &&& self.g.wf()
        &&& self.g.spec_v() > 0 ==> {
            &&& self.nodes.wf()
            &&& self.nodes.spec_h_max() == self.g.spec_h()
            &&& self.nodes.spec_v_max() == self.g.spec_v()
            &&& self.count() <= self.g.spec_h() * self.g.spec_v()
            &&& self.prv matches Some(x) ==> self.count() >= 1 && x == node_at::<Ix>(
                (self.count() - 1) / self.g.spec_v() as int,
                (self.count() - 1) % self.g.spec_v() as int,
            )
        }
        &&& self.g.spec_v() == 0 ==> self.prv is None && self.count() == 0
    }

    /// The next edge in the order of [`square_slot_edge`] that has a weight; `None` when no
    /// edge is left.
    pub fn next(&mut self) -> (r: Option<EdgeReference<'a, E, Ix, S>>)
        requires
            old(self).wf(),
        ensures
            final(self).wf(),
            final(self).spec_graph() == old(self).spec_graph(),
            ({
                let g = old(self).spec_graph();
                let v = g.spec_v();
                let end = 2 * (g.spec_h() * g.spec_v());
                &&& r matches Some(er) ==> {
                    &&& old(self).spec_pos() < final(self).spec_pos() <= end
                    &&& er.spec_edge_id() == square_slot_edge::<Ix>(v, final(self).spec_pos() - 1)
                    &&& g.spec_edge(er.spec_edge_id()) == Some(er.spec_weight())
                    &&& er.spec_direction()
                    &&& (S::spec_loop_horizontal() ==> er.spec_size_info().spec_horizontal_size() == Some(g.spec_h()))
                    &&& (S::spec_loop_vertical() ==> er.spec_size_info().spec_vertical_size() == Some(g.spec_v()))
                }
                &&& forall|p: int|
                    old(self).spec_pos() <= p < end && (r is Some ==> p < final(self).spec_pos() - 1)
                        ==> #[trigger] g.spec_edge(square_slot_edge::<Ix>(v, p)) is None
            }),
    {
        let g = self.g;
        let h: usize = g.horizontal_node_count();
        let v: usize = g.vertical_node_count();
        let ghost start = self.spec_pos();
        proof {
            g.lemma_wf();
        }
        if v == 0 {
            proof {
                assert forall|p: int| start <= p < 2 * (g.spec_h() * g.spec_v()) implies #[trigger] g.spec_edge(
                    square_slot_edge::<Ix>(0, p),
                ) is None by {
                    assert(g.spec_h() * 0 == 0);
                }
            }
            return None;
        }
        loop
            invariant
                self.wf(),
                self.g == g,
                g == old(self).g,
                g.wf(),
                h == g.spec_h(),
                v == g.spec_v(),
                v > 0,
                h * v <= usize::MAX,
                start == old(self).spec_pos(),
                start <= self.spec_pos() <= 2 * (h * v),
                forall|p: int| start <= p < self.spec_pos() ==> #[trigger] g.spec_edge(square_slot_edge::<Ix>(v as nat, p)) is None,
            decreases 2 * (h * v) - self.spec_pos(),
        {
            let ghost c = self.count();
            match self.prv {
                None => {
                    proof {
                        self.lemma_count_step();
                    }
                    let x = match self.nodes.next() {
                        Some(x) => x,
                        None => {
                            proof {
                                assert(c == h * v);
                                assert forall|p: int| start <= p < 2 * (h * v) implies #[trigger] g.spec_edge(
                                    square_slot_edge::<Ix>(v as nat, p),
                                ) is None by {
                                }
                            }
                            return None;
                        },
                    };
                    self.prv = Some(x);
                    proof {
                        lemma_slot_of_count::<Ix>(c, v as int);
                        assert(x == square_slot_edge::<Ix>(v as nat, 2 * c).node);
                    }
                    if let Some(w) = g.horizontal().get((x.horizontal.index(), x.vertical.index())) {
                        let er = EdgeReference {
                            edge_id: EdgeIndex { node: x, axis: Axis::Horizontal },
                            edge_weight: w,
                            direction: true,
                            s: S::get_sizeinfo(h, v),
                            spd: PhantomData,
                        };
                        proof {
                            assert(er.spec_edge_id() == square_slot_edge::<Ix>(v as nat, 2 * c));
                        }
                        return Some(er);
                    }
                },
                Some(x) => {
                    self.prv = None;
                    proof {
                        lemma_slot_of_count::<Ix>(c - 1, v as int);
                        assert(x == square_slot_edge::<Ix>(v as nat, 2 * (c - 1) + 1).node);
                    }
                    if let Some(w) = g.vertical().get((x.horizontal.index(), x.vertical.index())) {
                        let er = EdgeReference {
                            edge_id: EdgeIndex { node: x, axis: Axis::Vertical },
                            edge_weight: w,
                            direction: true,
                            s: S::get_sizeinfo(h, v),
                            spd: PhantomData,
                        };
                        proof {
                            assert(er.spec_edge_id() == square_slot_edge::<Ix>(v as nat, 2 * (c - 1) + 1));
                        }
                        return Some(er);
                    }
                },
            }
        }
    }

    /// Giving one more node from a count below the number of nodes gives the node at that
    /// count and counts it.
    proof fn lemma_count_step(&self)
        requires
            self.wf(),
            self.g.spec_v() > 0,
        ensures
            self.count() < self.g.spec_h() * self.g.spec_v() ==> {
                ||| self.nodes.spec_v() < self.nodes.spec_v_max()
                ||| self.nodes.spec_h() + 1 < self.nodes.spec_h_max()
            },
            self.count() < self.g.spec_h() * self.g.spec_v() && self.nodes.spec_v() < self.nodes.spec_v_max()
                ==> node_at::<Ix>(self.nodes.spec_h() as int, self.nodes.spec_v() as int) == node_at::<Ix>(
                self.count() / self.g.spec_v() as int,
                self.count() % self.g.spec_v() as int,
            ),
            self.count() < self.g.spec_h() * self.g.spec_v() && self.nodes.spec_v() >= self.nodes.spec_v_max()
                ==> node_at::<Ix>(self.nodes.spec_h() + 1int, 0int) == node_at::<Ix>(
                self.count() / self.g.spec_v() as int,
                self.count() % self.g.spec_v() as int,
            ),
            self.count() >= self.g.spec_h() * self.g.spec_v() ==> self.nodes.spec_v() >= self.nodes.spec_v_max()
                && self.nodes.spec_h() + 1 >= self.nodes.spec_h_max(),
            (self.nodes.spec_h() + 1) * self.g.spec_v() == self.nodes.spec_h() * self.g.spec_v() + self.g.spec_v(),
            self.nodes.spec_v() >= self.nodes.spec_v_max() ==> self.nodes.spec_v() == self.g.spec_v(),
    {
        let v = self.g.spec_v() as int;
        let h = self.g.spec_h() as int;
        let oh = self.nodes.spec_h() as int;
        let ov = self.nodes.spec_v() as int;
        let c = self.count();
        self.g.lemma_wf();
        self.nodes.lemma_wf();
        assert((oh + 1) * v == oh * v + v) by (nonlinear_arith);
        if ov < v {
            assert(c / v == oh && c % v == ov) by (nonlinear_arith)
                requires
                    c == oh * v + ov,
                    0 <= ov < v,
                    0 <= oh,
            ;
            if c >= h * v {
                assert(false) by (nonlinear_arith)
                    requires
                        c == oh * v + ov,
                        0 <= ov < v,
                        0 <= oh < h,
                        c >= h * v,
                ;
            }
        } else {
            assert((oh + 1) * v == oh * v + v) by (nonlinear_arith);
            if c < h * v {
                assert(oh + 1 < h) by (nonlinear_arith)
                    requires
                        c == oh * v + v,
                        c < h * v,
                        0 < v,
                        0 <= oh,
                ;
                assert(c / v == oh + 1 && c % v == 0) by (nonlinear_arith)
                    requires
                        c == oh * v + v,
                        0 < v,
                        0 <= oh,
                ;
            } else {
                assert(oh + 1 >= h) by (nonlinear_arith)
                    requires
                        c == oh * v + v,
                        c >= h * v,
                        0 < v,
                ;
            }
        }
    }
}

/// The edges at places `2 * c` and `2 * c + 1` are those of the node at count `c`.
proof fn lemma_slot_of_count<Ix: IndexType>(c: int, v: int)
    requires
        0 <= c,
        0 < v,
    ensures
        square_slot_edge::<Ix>(v as nat, 2 * c).node == node_at::<Ix>(c / v, c % v),
        square_slot_edge::<Ix>(v as nat, 2 * c).axis == Axis::Horizontal,
        square_slot_edge::<Ix>(v as nat, 2 * c + 1).node == node_at::<Ix>(c / v, c % v),
        square_slot_edge::<Ix>(v as nat, 2 * c + 1).axis == Axis::Vertical,
{
    assert((2 * c) / 2 == c && (2 * c) % 2 == 0);
    assert((2 * c + 1) / 2 == c && (2 * c + 1) % 2 == 1);
}

impl<N, E, Ix: IndexType, S: Shape> SquareGraph<N, E, Ix, S> {
    /// Iterates all edges of this graph: for each node row after row, the edge leaving it
    /// forward horizontally, then vertically.
    pub fn edge_references(&self) -> (r: EdgeReferences<'_, N, E, Ix, S>)
        requires
            self.wf(),
        ensures
            r.wf(),
            r.spec_graph() == self,
            r.spec_pos() == 0,
    {
        EdgeReferences { g: self, nodes: self.node_identifiers(), prv: None }
    }
}

/// The node an edge reaches from the node it is stored at, on a graph of `h` by `v` nodes
/// that loops horizontally when `lh` and vertically when `lv`: the next one along its axis,
/// or the first one where it loops from the last.
pub open spec fn edge_far_end<Ix: IndexType>(h: nat, v: nat, lh: bool, lv: bool, e: EdgeIndex<Ix>) -> NodeIndex<Ix> {
    let i = e.node.spec_h();
    let j = e.node.spec_v();
    match e.axis {
        Axis::Horizontal => if lh && i + 1 == h {
            NodeIndex { horizontal: Ix::spec_new(0), vertical: e.node.vertical }
        } else {
            NodeIndex { horizontal: Ix::spec_new((i + 1) as usize), vertical: e.node.vertical }
        },
        Axis::Vertical => if lv && j + 1 == v {
            NodeIndex { horizontal: e.node.horizontal, vertical: Ix::spec_new(0) }
        } else {
            NodeIndex { horizontal: e.node.horizontal, vertical: Ix::spec_new((j + 1) as usize) }
        },
    }
}

/// Every edge found from a node of the graph leaves that node: the node is the one the edge
/// is stored at when it is walked forward, and the node it reaches when walked backward.
/// The edge has a weight, and its other end is the neighbor tried at the same state, so the
/// neighbors of a node are exactly the other ends of its edges.
pub proof fn lemma_edge_slot_leaves_node<N, E, Ix: IndexType, S: Shape>(
    g: &SquareGraph<N, E, Ix, S>,
    n: NodeIndex<Ix>,
    st: nat,
)
    requires
        g.wf(),
        n.spec_h() < g.spec_h(),
        n.spec_v() < g.spec_v(),
        S::spec_loop_horizontal() ==> g.spec_h() <= Ix::spec_max() + 1,
        S::spec_loop_vertical() ==> g.spec_v() <= Ix::spec_max() + 1,
    ensures
        ({
            let h = g.spec_h();
            let v = g.spec_v();
            let lh = S::spec_loop_horizontal();
            let lv = S::spec_loop_vertical();
            match square_edge_slot::<Ix>(h, v, lh, lv, n, st) {
                Some((e, fo)) => {
                    &&& g.spec_edge(e) is Some
                    &&& (if fo { e.node } else { edge_far_end(h, v, lh, lv, e) }) == n
                    &&& square_neighbor::<Ix>(h, v, lh, lv, n, st) == Some(
                        if fo { edge_far_end(h, v, lh, lv, e) } else { e.node },
                    )
                },
                None => square_neighbor::<Ix>(h, v, lh, lv, n, st) is None,
            }
        }),
{
    g.lemma_wf();
    Ix::lemma_index(n.horizontal, 0);
    Ix::lemma_index(n.vertical, 0);
    Ix::lemma_index(Ix::spec_new(0), 0);
    Ix::lemma_index(Ix::spec_new((g.spec_h() - 1) as usize), (g.spec_h() - 1) as usize);
    Ix::lemma_index(Ix::spec_new((g.spec_v() - 1) as usize), (g.spec_v() - 1) as usize);
    Ix::lemma_index(Ix::spec_new((n.spec_h() - 1) as usize), (n.spec_h() - 1) as usize);
    Ix::lemma_index(Ix::spec_new((n.spec_v() - 1) as usize), (n.spec_v() - 1) as usize);
}

} // verus!
