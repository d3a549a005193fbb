//! Iterating the edges of a [`LatticeGraph`]: those of one node, and all of them.
use super::nodes::next_offset;
use super::shapes::{offset, offset_to_index_spec, Axis, AxisDirection, Offset, Shape};
use super::{in_lattice, LatticeGraph};
use std::marker::PhantomData;
use vstd::prelude::*;

verus! {

/// Direction of the edges of a node: leaving it or arriving at it.
#[derive(Debug, Clone, Copy, PartialEq, Eq, PartialOrd, Ord, Hash, Structural)]
pub enum EdgeDirection {
    Outgoing,
    Incoming,
}

/// Edge reference data: the source and target nodes, the weight and the direction in which
/// the edge leaves the node it was found from.
#[derive(Debug, PartialEq, Eq)]
pub struct EdgeReference<'a, C, E, D, A> {
    source_id: C,
    target_id: C,
    edge_weight: &'a E,
    direction: D,
    axis: PhantomData<A>,
}

impl<'a, C, E, D, A> EdgeReference<'a, C, E, D, A> {
    /// The source node.
    pub closed spec fn spec_source(&self) -> C {
        self.source_id
    }

    /// The target node.
    pub closed spec fn spec_target(&self) -> C {
        self.target_id
    }

    /// The weight of the edge.
    pub closed spec fn spec_weight(&self) -> E {
        *self.edge_weight
    }

    /// The direction of the edge from the node it was found from.
    pub closed spec fn spec_direction(&self) -> D {
        self.direction
    }

    /// Get a reference to the edge reference's direction.
    pub fn direction(&self) -> (r: &D)
        ensures
            *r == self.spec_direction(),
    {
        &self.direction
    }

    /// The weight of the edge.
    pub fn weight(&self) -> (r: &'a E)
        ensures
            *r == self.spec_weight(),
    {
        self.edge_weight
    }
}

impl<'a, C: Copy, E, D: Copy, A> EdgeReference<'a, C, E, D, A> {
    /// The source node.
    pub fn source(&self) -> (r: C)
        ensures
            r == self.spec_source(),
    {
        self.source_id
    }

    /// The target node.
    pub fn target(&self) -> (r: C)
        ensures
            r == self.spec_target(),
    {
        self.target_id
    }
}

impl<'a, C: Copy, E, D: AxisDirection, A: Axis<Direction = D>> EdgeReference<'a, C, E, D, A> {
    /// The id of the edge: the source node and the axis of the direction.
    pub fn id(&self) -> (r: (C, A))
        ensures
            r == (self.spec_source(), A::spec_from_direction(self.spec_direction())),
    {
        (self.source_id, A::from_direction(self.direction))
    }
}

impl<'a, C: Copy, E, D: Copy, A> Clone for EdgeReference<'a, C, E, D, A> {
    fn clone(&self) -> (r: Self)
        ensures
            r == *self,
    {
        EdgeReference {
            source_id: self.source_id,
            target_id: self.target_id,
            edge_weight: self.edge_weight,
            direction: self.direction,
            axis: PhantomData,
        }
    }
}

/// Marker used for [`Edges`] inside [`EdgeReferences`]: only forward directions.
#[derive(Debug, Clone, Copy, PartialEq, Eq, PartialOrd, Ord, Hash, Default)]
pub struct AxisMarker;

/// Marker used for [`Edges`] of a node: all directions.
#[derive(Debug, Clone, Copy, PartialEq, Eq, PartialOrd, Ord, Hash, Default)]
pub struct AxisDirMarker;

/// Marker for [`Edges`].
pub trait DtMarker {
    /// Whether only the forward directions are iterated.
    const DIRECTED: bool;

    /// Whether the edges arrive at the node, so that source and target swap.
    spec fn spec_need_reverse(&self) -> bool;

    /// Whether the edges arrive at the node, so that source and target swap.
    fn need_reverse(&self) -> (r: bool)
        ensures
            r == self.spec_need_reverse(),
    ;
}

impl DtMarker for AxisMarker {
    const DIRECTED: bool = true;

    open spec fn spec_need_reverse(&self) -> bool {
        false
    }

    fn need_reverse(&self) -> (r: bool) {
        false
    }
}

impl DtMarker for AxisDirMarker {
    const DIRECTED: bool = false;

    open spec fn spec_need_reverse(&self) -> bool {
        false
    }

    fn need_reverse(&self) -> (r: bool) {
        false
    }
}

impl DtMarker for EdgeDirection {
    const DIRECTED: bool = false;

    open spec fn spec_need_reverse(&self) -> bool {
        *self == EdgeDirection::Incoming
    }

    fn need_reverse(&self) -> (r: bool) {
        match self {
            EdgeDirection::Incoming => true,
            EdgeDirection::Outgoing => false,
        }
    }
}

/// Number of directions a marker iterates: the axes when directed, all directions otherwise.
pub open spec fn marker_count<A: Axis, Dt: DtMarker>() -> nat {
    if Dt::DIRECTED {
        A::COUNT as nat
    } else {
        A::DIRECTED_COUNT as nat
    }
}

impl<N, E, S: Shape> LatticeGraph<N, E, S> {
    /// The edge found from `node` in the direction `d`: its source, target and weight. With
    /// `reverse` the edge arrives at `node`, so source and target swap; on a directed axis
    /// it is then the edge stored at the other node along the opposite axis. `None` when the
    /// move leaves the graph or no weight is stored there.
    pub open spec fn spec_edge_toward(
        &self,
        node: S::Coordinate,
        d: <S::Axis as Axis>::Direction,
        reverse: bool,
    ) -> Option<(S::Coordinate, S::Coordinate, E)> {
        let s = self.spec_shape();
        match s.spec_move_coord(node, d) {
            None => None,
            Some(t) => {
                let a = <S::Axis as Axis>::spec_from_direction(d);
                let ro = if reverse && <S::Axis as Axis>::DIRECTED {
                    s.spec_to_offset(t)
                } else if d.spec_dir_index() == a.spec_index() || <S::Axis as Axis>::DIRECTED {
                    s.spec_to_offset(node)
                } else {
                    s.spec_to_offset(t)
                };
                let k = if reverse && <S::Axis as Axis>::DIRECTED {
                    a.spec_backward().spec_dir_index()
                } else {
                    a.spec_index()
                };
                match ro {
                    Some(o) => match self.spec_edge_at_index(o, k as int) {
                        Some(w) => Some(
                            if reverse {
                                (t, node, w)
                            } else {
                                (node, t, w)
                            },
                        ),
                        None => None,
                    },
                    None => None,
                }
            },
        }
    }
}

/// Edges connected to a node, in the order of the direction indices.
pub struct Edges<'a, N, E, S: Shape, Dt = AxisDirMarker> {
    graph: &'a LatticeGraph<N, E, S>,
    node: S::Coordinate,
    offset: Offset,
    state: usize,
    directed: Dt,
}

/// Edges connected to a node with a [`EdgeDirection`].
pub type EdgesDirected<'a, N, E, S> = Edges<'a, N, E, S, EdgeDirection>;

impl<'a, N, E, S: Shape, Dt: DtMarker> Edges<'a, N, E, S, Dt> {
    /// The graph.
    pub closed spec fn spec_graph(&self) -> &'a LatticeGraph<N, E, S> {
        self.graph
    }

    /// The node whose edges are iterated.
    pub closed spec fn spec_node(&self) -> S::Coordinate {
        self.node
    }

    /// The index of the next direction to try.
    pub closed spec fn spec_state(&self) -> nat {
        self.state as nat
    }

    /// The marker.
    pub closed spec fn spec_marker(&self) -> Dt {
        self.directed
    }

    /// The offset of the node.
    pub closed spec fn spec_offset(&self) -> Offset {
        self.offset
    }

    /// The graph is well formed, the state is at most the count of the marker, and while
    /// directions are left the node is in the graph at the offset.
    pub closed spec fn wf(&self) -> bool {
        &&& self.graph.wf()
        &&& self.state <= marker_count::<S::Axis, Dt>()
        &&& self.state < marker_count::<S::Axis, Dt>() ==> self.graph.spec_shape().spec_to_offset(self.node)
            == Some(self.offset)
    }

    /// Iterates the edges of `a` with a marker. Nothing is iterated when `a` is not in the
    /// graph.
    pub fn new_d(g: &'a LatticeGraph<N, E, S>, a: S::Coordinate, d: Dt) -> (r: Self)
        requires
            g.wf(),
        ensures
            r.wf(),
            r.spec_graph() == g,
            r.spec_node() == a,
            r.spec_marker() == d,
            r.spec_state() == (if g.spec_shape().spec_to_offset(a) is Some {
                0
            } else {
                marker_count::<S::Axis, Dt>()
            }),
    {
        proof {
            <S::Axis as Axis>::lemma_counts();
        }
        let max: usize = if Dt::DIRECTED {
            <S::Axis as Axis>::COUNT
        } else {
            <S::Axis as Axis>::DIRECTED_COUNT
        };
        match g.shape().to_offset(a) {
            Ok(o) => Edges { graph: g, node: a, offset: o, state: 0, directed: d },
            Err(_) => Edges { graph: g, node: a, offset: Offset::new(0, 0), state: max, directed: d },
        }
    }

    /// Iterates the edges of the node stored at an offset inside the lattice.
    pub(crate) fn new_unchecked_from_offset(g: &'a LatticeGraph<N, E, S>, o: Offset, d: Dt) -> (r: Self)
        requires
            g.wf(),
            in_lattice(o, g.spec_shape().spec_horizontal(), g.spec_shape().spec_vertical()),
        ensures
            r.wf(),
            r.spec_graph() == g,
            r.spec_node() == g.spec_shape().spec_from_offset(o),
            r.spec_offset() == o,
            r.spec_marker() == d,
            r.spec_state() == 0,
    {
        proof {
            g.lemma_wf();
            g.spec_shape().lemma_from_offset_to_offset(o);
        }
        let coord = g.coordinate_at(o);
        Edges { graph: g, node: coord, offset: o, state: 0, directed: d }
    }

    /// The next edge, by direction index, found from the node; see
    /// [`spec_edge_toward`](`LatticeGraph::spec_edge_toward`). `None` when no direction is
    /// left.
    pub fn next(&mut self) -> (r: Option<
        EdgeReference<'a, S::Coordinate, E, <S::Axis as Axis>::Direction, S::Axis>,
    >)
        requires
            old(self).wf(),
        ensures
            final(self).wf(),
            final(self).spec_graph() == old(self).spec_graph(),
            final(self).spec_node() == old(self).spec_node(),
            final(self).spec_marker() == old(self).spec_marker(),
            final(self).spec_offset() == old(self).spec_offset(),
            r matches Some(er) ==> {
                &&& old(self).spec_state() < final(self).spec_state()
                &&& er.spec_direction().spec_dir_index() == final(self).spec_state() - 1
                &&& old(self).spec_graph().spec_edge_toward(
                    old(self).spec_node(),
                    er.spec_direction(),
                    old(self).spec_marker().spec_need_reverse(),
                ) == Some((er.spec_source(), er.spec_target(), er.spec_weight()))
            },
            r is Some ==> forall|d: <S::Axis as Axis>::Direction|
                old(self).spec_state() <= #[trigger] d.spec_dir_index() < final(self).spec_state() - 1
                    ==> old(self).spec_graph().spec_edge_toward(
                    old(self).spec_node(),
                    d,
                    old(self).spec_marker().spec_need_reverse(),
                ) is None,
            r is None ==> final(self).spec_state() == marker_count::<S::Axis, Dt>(),
            r is None ==> forall|d: <S::Axis as Axis>::Direction|
                old(self).spec_state() <= #[trigger] d.spec_dir_index() < marker_count::<S::Axis, Dt>()
                    ==> old(self).spec_graph().spec_edge_toward(
                    old(self).spec_node(),
                    d,
                    old(self).spec_marker().spec_need_reverse(),
                ) is None,
    {
        proof {
            <S::Axis as Axis>::lemma_counts();
            self.graph.lemma_wf();
        }
        let max: usize = if Dt::DIRECTED {
            <S::Axis as Axis>::COUNT
        } else {
            <S::Axis as Axis>::DIRECTED_COUNT
        };
        let g = self.graph;
        let reverse = self.directed.need_reverse();
        let ghost start = self.state;
        while self.state < max
            invariant
                max == marker_count::<S::Axis, Dt>(),
                max <= <S::Axis as Axis>::DIRECTED_COUNT,
                <S::Axis as Axis>::DIRECTED_COUNT == <<S::Axis as Axis>::Direction as AxisDirection>::spec_dir_count(),
                <S::Axis as Axis>::DIRECTED ==> <S::Axis as Axis>::DIRECTED_COUNT == <S::Axis as Axis>::COUNT,
                start <= self.state <= max,
                g == self.graph,
                g.wf(),
                reverse == self.directed.spec_need_reverse(),
                self.graph == old(self).graph,
                self.node == old(self).node,
                self.offset == old(self).offset,
                self.directed == old(self).directed,
                start == old(self).state,
                start < max ==> g.spec_shape().spec_to_offset(self.node) == Some(self.offset),
                forall|d: <S::Axis as Axis>::Direction|
                    start <= #[trigger] d.spec_dir_index() < self.state
                        ==> g.spec_edge_toward(self.node, d, reverse) is None,
            decreases max - self.state,
        {
            let st: usize = self.state;
            let d = <<S::Axis as Axis>::Direction as AxisDirection>::dir_from_index_unchecked(st);
            self.state = self.state + 1;
            let found = self.edge_toward(d, reverse);
            match found {
                Some(er) => {
                    return Some(er);
                },
                None => {
                    proof {
                        assert forall|d2: <S::Axis as Axis>::Direction|
                            start <= #[trigger] d2.spec_dir_index() < self.state
                                implies g.spec_edge_toward(self.node, d2, reverse) is None by {
                            if d2.spec_dir_index() == st {
                                <<S::Axis as Axis>::Direction as AxisDirection>::lemma_dir_index_injective(d, d2);
                            }
                        }
                    }
                },
            }
        }
        None
    }

    /// The edge found from the node in direction `d`, as
    /// [`spec_edge_toward`](`LatticeGraph::spec_edge_toward`) states it.
    fn edge_toward(&self, d: <S::Axis as Axis>::Direction, reverse: bool) -> (r: Option<
        EdgeReference<'a, S::Coordinate, E, <S::Axis as Axis>::Direction, S::Axis>,
    >)
        requires
            self.graph.wf(),
            self.graph.spec_shape().spec_to_offset(self.node) == Some(self.offset),
        ensures
            match r {
                Some(er) => er.spec_direction() == d && self.graph.spec_edge_toward(self.node, d, reverse)
                    == Some((er.spec_source(), er.spec_target(), er.spec_weight())),
                None => self.graph.spec_edge_toward(self.node, d, reverse) is None,
            },
    {
        let g = self.graph;
        let s = g.shape();
        proof {
            <S::Axis as Axis>::lemma_counts();
            g.lemma_wf();
            s.lemma_to_offset_in_range(self.node);
        }
        let target = match s.move_coord(self.node, d) {
            Ok(t) => t,
            Err(_) => {
                return None;
            },
        };
        let a = <S::Axis as Axis>::from_direction(d);
        proof {
            <S::Axis as Axis>::lemma_index_bound(a);
            s.lemma_to_offset_in_range(target);
        }
        let (ro, k): (Option<Offset>, usize) = if reverse && <S::Axis as Axis>::DIRECTED {
            let b = a.backward();
            proof {
                <<S::Axis as Axis>::Direction as AxisDirection>::lemma_dir_index_bound(b);
            }
            (
                match s.to_offset(target) {
                    Ok(o) => Some(o),
                    Err(_) => None,
                },
                b.dir_to_index(),
            )
        } else if <S::Axis as Axis>::is_forward_direction(&d) {
            (Some(self.offset), a.to_index())
        } else {
            (
                match s.to_offset(target) {
                    Ok(o) => Some(o),
                    Err(_) => None,
                },
                a.to_index(),
            )
        };
        let o = match ro {
            Some(o) => o,
            None => {
                return None;
            },
        };
        match g.edge_weight_unchecked_raw(o, k) {
            Some(w) => {
                let (source_id, target_id) = if reverse {
                    (target, self.node)
                } else {
                    (self.node, target)
                };
                Some(EdgeReference { source_id, target_id, edge_weight: w, direction: d, axis: PhantomData })
            },
            None => None,
        }
    }

    /// Bounds of the number of edges left: at most the directions left.
    pub fn size_hint(&self) -> (r: (usize, Option<usize>))
        requires
            self.wf(),
        ensures
            r == (0usize, Some((marker_count::<S::Axis, Dt>() - self.spec_state()) as usize)),
    {
        let max: usize = if Dt::DIRECTED {
            <S::Axis as Axis>::COUNT
        } else {
            <S::Axis as Axis>::DIRECTED_COUNT
        };
        (0, Some(max - self.state))
    }
}

impl<N, E, S: Shape> LatticeGraph<N, E, S> {
    /// Iterates the edges of a node, leaving it in every direction.
    pub fn edges(&self, a: S::Coordinate) -> (r: Edges<'_, N, E, S, AxisDirMarker>)
        requires
            self.wf(),
        ensures
            r.wf(),
            r.spec_graph() == self,
            r.spec_node() == a,
            r.spec_state() == (if self.spec_shape().spec_to_offset(a) is Some {
                0
            } else {
                marker_count::<S::Axis, AxisDirMarker>()
            }),
    {
        Edges::new_d(self, a, AxisDirMarker)
    }

    /// Iterates the edges of a node in every direction, leaving it or arriving at it.
    pub fn edges_directed(&self, a: S::Coordinate, dir: EdgeDirection) -> (r: EdgesDirected<'_, N, E, S>)
        requires
            self.wf(),
        ensures
            r.wf(),
            r.spec_graph() == self,
            r.spec_node() == a,
            r.spec_marker() == dir,
            r.spec_state() == (if self.spec_shape().spec_to_offset(a) is Some {
                0
            } else {
                marker_count::<S::Axis, EdgeDirection>()
            }),
    {
        Edges::new_d(self, a, dir)
    }
}

/// The place of the edge of the node at offset `o` along the axis of index `k` in the order
/// of [`EdgeReferences`]: nodes row after row, then axes, with `c` axes and `v` offsets in
/// each row.
pub open spec fn edge_slot(o: Offset, k: int, v: int, c: int) -> int {
    offset_to_index_spec(o, v) * c + k
}

/// Slots of nodes and axes are ordered by node first, then by axis.
proof fn lemma_slot_order(i1: int, k1: int, i2: int, k2: int, c: int)
    requires
        0 <= i1,
        0 <= i2,
        0 <= k1 < c,
        0 <= k2 < c,
    ensures
        (i1 * c + k1 < i2 * c + k2) == (i1 < i2 || (i1 == i2 && k1 < k2)),
{
    if i1 < i2 {
        assert(i1 * c + c <= i2 * c) by (nonlinear_arith)
            requires
                i1 + 1 <= i2,
                0 <= c,
        ;
    } else if i2 < i1 {
        assert(i2 * c + c <= i1 * c) by (nonlinear_arith)
            requires
                i2 + 1 <= i1,
                0 <= c,
        ;
    }
}

/// Iterator of all edges of a [`LatticeGraph`]: the forward edges of each node, nodes row
/// after row.
pub struct EdgeReferences<'a, N, E, S: Shape> {
    g: &'a LatticeGraph<N, E, S>,
    e: Option<Edges<'a, N, E, S, AxisMarker>>,
    current_offset: Offset,
}

impl<'a, N, E, S: Shape> EdgeReferences<'a, N, E, S> {
    /// The graph.
    pub closed spec fn spec_graph(&self) -> &'a LatticeGraph<N, E, S> {
        self.g
    }

    /// The offset of the next node whose edges are to be tried.
    pub closed spec fn spec_current(&self) -> Offset {
        self.current_offset
    }

    /// The number of axes left to try of the node in progress.
    pub closed spec fn spec_in_progress_left(&self) -> int {
        match self.e {
            Some(ed) => <S::Axis as Axis>::COUNT - ed.spec_state(),
            None => 0,
        }
    }

    /// The slot of the next edge to try; see [`edge_slot`].
    pub closed spec fn spec_pos(&self) -> int {
        let v = self.g.spec_shape().spec_vertical() as int;
        let c = <S::Axis as Axis>::COUNT as int;
        match self.e {
            Some(ed) => edge_slot(ed.spec_offset(), ed.spec_state() as int, v, c),
            None => edge_slot(self.current_offset, 0, v, c),
        }
    }

    /// The graph is well formed; the next node offset is in the lattice or just past it, and
    /// the edges in progress are those of the node just before it.
    pub closed spec fn wf(&self) -> bool {
        let h = self.g.spec_shape().spec_horizontal();
        let v = self.g.spec_shape().spec_vertical();
        &&& self.g.wf()
        &&& self.current_offset.horizontal <= h
        &&& (self.current_offset.vertical < v || self.current_offset.vertical == 0)
        &&& offset_to_index_spec(self.current_offset, v as int) <= h * v
        &&& self.e matches Some(ed) ==> {
            &&& ed.wf()
            &&& ed.spec_graph() == self.g
            &&& in_lattice(ed.spec_offset(), h, v)
            &&& ed.spec_node() == self.g.spec_shape().spec_from_offset(ed.spec_offset())
            &&& self.current_offset == next_offset(ed.spec_offset(), v)
        }
    }

    /// The next edge, in the order of [`edge_slot`], of a node in the lattice along the axis
    /// of a forward direction. `None` when no edge is left.
    pub fn next(&mut self) -> (r: Option<
        EdgeReference<'a, S::Coordinate, E, <S::Axis as Axis>::Direction, S::Axis>,
    >)
        requires
            old(self).wf(),
        ensures
            final(self).wf(),
            final(self).spec_graph() == old(self).spec_graph(),
            ({
                let g = old(self).spec_graph();
                let sh = g.spec_shape();
                let v = sh.spec_vertical() as int;
                let c = <S::Axis as Axis>::COUNT as int;
                &&& r matches Some(er) ==> {
                    &&& old(self).spec_pos() < final(self).spec_pos()
                    &&& er.spec_direction().spec_dir_index() < c
                    &&& exists|o: Offset|
                        #![trigger sh.spec_from_offset(o)]
                        in_lattice(o, sh.spec_horizontal(), sh.spec_vertical()) && edge_slot(
                            o,
                            er.spec_direction().spec_dir_index() as int,
                            v,
                            c,
                        ) == final(self).spec_pos() - 1 && g.spec_edge_toward(
                            sh.spec_from_offset(o),
                            er.spec_direction(),
                            false,
                        ) == Some((er.spec_source(), er.spec_target(), er.spec_weight()))
                }
                &&& forall|o: Offset, d: <S::Axis as Axis>::Direction|
                    in_lattice(o, sh.spec_horizontal(), sh.spec_vertical()) && d.spec_dir_index() < c
                        && old(self).spec_pos() <= edge_slot(o, d.spec_dir_index() as int, v, c) && (r is Some
                        ==> edge_slot(o, d.spec_dir_index() as int, v, c) < final(self).spec_pos() - 1)
                        ==> #[trigger] g.spec_edge_toward(sh.spec_from_offset(o), d, false) is None
            }),
    {
        let g = self.g;
        let h: usize = g.shape().horizontal();
        let v: usize = g.shape().vertical();
        let ghost c = <S::Axis as Axis>::COUNT as int;
        let ghost start = self.spec_pos();
        proof {
            g.lemma_wf();
            <S::Axis as Axis>::lemma_counts();
        }
        loop
            invariant
                self.wf(),
                self.g == g,
                g == old(self).g,
                g.wf(),
                h == g.spec_shape().spec_horizontal(),
                v == g.spec_shape().spec_vertical(),
                h * v <= usize::MAX,
                c == <S::Axis as Axis>::COUNT,
                start == old(self).spec_pos(),
                start <= self.spec_pos(),
                self.spec_pos() == (match self.e {
                    Some(ed) => edge_slot(ed.spec_offset(), ed.spec_state() as int, v as int, c),
                    None => edge_slot(self.current_offset, 0, v as int, c),
                }),
                forall|o: Offset, d: <S::Axis as Axis>::Direction|
                    in_lattice(o, g.spec_shape().spec_horizontal(), g.spec_shape().spec_vertical())
                        && d.spec_dir_index() < c && start <= edge_slot(o, d.spec_dir_index() as int, v as int, c)
                        && edge_slot(o, d.spec_dir_index() as int, v as int, c) < self.spec_pos()
                        ==> #[trigger] g.spec_edge_toward(g.spec_shape().spec_from_offset(o), d, false) is None,
            decreases h * v - offset_to_index_spec(self.current_offset, v as int),
        {
            let ghost before = self.spec_pos();
            match &mut self.e {
                Some(e) => {
                    let ghost eo = e.spec_offset();
                    let ghost est = e.spec_state();
                    let next = e.next();
                    match next {
                        Some(er) => {
                            proof {
                                self.lemma_skipped_in_node(start, before, eo, est, e.spec_state(), true);
                                assert(in_lattice(eo, h as nat, v as nat));
                                assert(g.spec_shape().spec_from_offset(eo) == e.spec_node());
                            }
                            return Some(er);
                        },
                        None => {
                            proof {
                                self.lemma_skipped_in_node(start, before, eo, est, e.spec_state(), false);
                            }
                        },
                    }
                },
                None => {},
            }
            proof {
                self.lemma_pos_at_current();
            }
            if self.current_offset.horizontal < h && self.current_offset.vertical < v {
                let o = self.current_offset;
                proof {
                    lemma_next_offset_index(o, h as int, v as int);
                }
                self.current_offset = super::nodes::advance(o, h, v);
                self.e = Some(Edges::new_unchecked_from_offset(g, o, AxisMarker));
            } else {
                proof {
                    self.lemma_nothing_past_end();
                }
                return None;
            }
        }
    }

    /// Bounds of the number of edges left: at most the directions of the nodes left and those
    /// left of the node in progress.
    pub fn size_hint(&self) -> (r: (usize, Option<usize>))
        requires
            self.wf(),
            ({
                let sh = self.spec_graph().spec_shape();
                sh.spec_horizontal() * sh.spec_vertical() * <S::Axis as Axis>::DIRECTED_COUNT
                    + <S::Axis as Axis>::DIRECTED_COUNT <= usize::MAX
            }),
        ensures
            ({
                let sh = self.spec_graph().spec_shape();
                let h = sh.spec_horizontal() as int;
                let v = sh.spec_vertical() as int;
                let cur = self.spec_current();
                let nodes_left = if cur.horizontal < h {
                    h * v - offset_to_index_spec(cur, v)
                } else {
                    0
                };
                r == (0usize, Some((nodes_left * <S::Axis as Axis>::DIRECTED_COUNT + self.spec_in_progress_left()) as usize))
            }),
    {
        let h: usize = self.g.shape().horizontal();
        let v: usize = self.g.shape().vertical();
        let dc: usize = <S::Axis as Axis>::DIRECTED_COUNT;
        let c = self.current_offset;
        proof {
            <S::Axis as Axis>::lemma_counts();
            self.g.lemma_wf();
        }
        let remaining_nodes: usize = if c.horizontal < h {
            proof {
                assert((h - c.horizontal - 1) * v + (v - c.vertical) == h * v - (c.horizontal * v + c.vertical))
                    by (nonlinear_arith)
                    requires
                        c.horizontal < h,
                        c.vertical <= v,
                ;
                assert((h - c.horizontal - 1) * v <= h * v) by (nonlinear_arith)
                    requires
                        c.horizontal < h,
                ;
            }
            let remaining_in_current_row: usize = v - c.vertical;
            let remaining_rows: usize = h - c.horizontal - 1;
            remaining_in_current_row + remaining_rows * v
        } else {
            0
        };
        proof {
            assert(remaining_nodes * dc <= h * v * dc) by (nonlinear_arith)
                requires
                    remaining_nodes <= h * v,
            ;
        }
        let in_progress: usize = match &self.e {
            Some(ed) => match ed.size_hint().1 {
                Some(x) => x,
                None => 0,
            },
            None => 0,
        };
        (0, Some(remaining_nodes * dc + in_progress))
    }

    /// After the edges of the node at `eo` were tried from axis `est` up to `st`, the edges of
    /// the slots from `start` up to the new position, less the one found if `found`, are
    /// absent.
    proof fn lemma_skipped_in_node(&self, start: int, before: int, eo: Offset, est: nat, st: nat, found: bool)
        requires
            ({
                let g = self.g;
                let v = g.spec_shape().spec_vertical() as int;
                let c = <S::Axis as Axis>::COUNT as int;
                &&& self.wf()
                &&& self.e matches Some(ed) && ed.spec_offset() == eo && ed.spec_state() == st
                &&& before == edge_slot(eo, est as int, v, c)
                &&& start <= before
                &&& est <= st
                &&& (found ==> est < st)
                &&& forall|o: Offset, d: <S::Axis as Axis>::Direction|
                    in_lattice(o, g.spec_shape().spec_horizontal(), g.spec_shape().spec_vertical())
                        && d.spec_dir_index() < c && start <= edge_slot(o, d.spec_dir_index() as int, v, c)
                        && edge_slot(o, d.spec_dir_index() as int, v, c) < before
                        ==> #[trigger] g.spec_edge_toward(g.spec_shape().spec_from_offset(o), d, false) is None
                &&& forall|d: <S::Axis as Axis>::Direction|
                    est <= #[trigger] d.spec_dir_index() < (if found { st - 1 } else { st as int })
                        ==> g.spec_edge_toward(g.spec_shape().spec_from_offset(eo), d, false) is None
            }),
        ensures
            ({
                let g = self.g;
                let v = g.spec_shape().spec_vertical() as int;
                let c = <S::Axis as Axis>::COUNT as int;
                &&& start <= self.spec_pos()
                &&& self.spec_pos() == edge_slot(eo, st as int, v, c)
                &&& forall|o: Offset, d: <S::Axis as Axis>::Direction|
                    in_lattice(o, g.spec_shape().spec_horizontal(), g.spec_shape().spec_vertical())
                        && d.spec_dir_index() < c && start <= edge_slot(o, d.spec_dir_index() as int, v, c)
                        && edge_slot(o, d.spec_dir_index() as int, v, c) < self.spec_pos() - (if found { 1int } else { 0 })
                        ==> #[trigger] g.spec_edge_toward(g.spec_shape().spec_from_offset(o), d, false) is None
            }),
    {
        let g = self.g;
        let v = g.spec_shape().spec_vertical() as int;
        let c = <S::Axis as Axis>::COUNT as int;
        let ed = self.e->0;
        assert(st <= c) by {
            <S::Axis as Axis>::lemma_counts();
        }
        assert forall|o: Offset, d: <S::Axis as Axis>::Direction|
            in_lattice(o, g.spec_shape().spec_horizontal(), g.spec_shape().spec_vertical())
                && d.spec_dir_index() < c && start <= edge_slot(o, d.spec_dir_index() as int, v, c)
                && edge_slot(o, d.spec_dir_index() as int, v, c) < self.spec_pos() - (if found { 1int } else { 0 })
                implies #[trigger] g.spec_edge_toward(g.spec_shape().spec_from_offset(o), d, false) is None by {
            if edge_slot(o, d.spec_dir_index() as int, v, c) >= before {
                let io = offset_to_index_spec(o, v);
                let ie = offset_to_index_spec(eo, v);
                lemma_slot_order(io, d.spec_dir_index() as int, ie, est as int, c);
                if io == ie {
                    crate::fixedvec2d::lemma_index_2d_injective(
                        o.horizontal as int,
                        o.vertical as int,
                        eo.horizontal as int,
                        eo.vertical as int,
                        v,
                    );
                    assert(o == eo);
                } else {
                    if st < c {
                        lemma_slot_order(io, d.spec_dir_index() as int, ie, st as int, c);
                    } else {
                        assert(ie * c + c == (ie + 1) * c) by (nonlinear_arith);
                        lemma_slot_order(io, d.spec_dir_index() as int, ie + 1, 0, c);
                    }
                }
            }
        }
    }

    /// With no edges in progress, or those of the node just before the next offset all
    /// tried, the position is the first slot of the next offset.
    proof fn lemma_pos_at_current(&self)
        requires
            self.wf(),
            self.e matches Some(ed) ==> ed.spec_state() == <S::Axis as Axis>::COUNT,
        ensures
            self.spec_pos() == edge_slot(
                self.current_offset,
                0,
                self.g.spec_shape().spec_vertical() as int,
                <S::Axis as Axis>::COUNT as int,
            ),
    {
        let v = self.g.spec_shape().spec_vertical() as int;
        let c = <S::Axis as Axis>::COUNT as int;
        self.g.lemma_wf();
        if let Some(ed) = self.e {
            let eo = ed.spec_offset();
            lemma_next_offset_index(eo, self.g.spec_shape().spec_horizontal() as int, v);
            let ie = offset_to_index_spec(eo, v);
            assert(ie * c + c == (ie + 1) * c) by (nonlinear_arith);
        }
    }

    /// Once the next offset is past the lattice, every slot of a node in the lattice lies
    /// before the position.
    proof fn lemma_nothing_past_end(&self)
        requires
            self.wf(),
            self.spec_pos() == edge_slot(
                self.current_offset,
                0,
                self.g.spec_shape().spec_vertical() as int,
                <S::Axis as Axis>::COUNT as int,
            ),
            !(self.current_offset.horizontal < self.g.spec_shape().spec_horizontal()
                && self.current_offset.vertical < self.g.spec_shape().spec_vertical()),
        ensures
            forall|o: Offset, k: int|
                in_lattice(o, self.g.spec_shape().spec_horizontal(), self.g.spec_shape().spec_vertical())
                    && 0 <= k < <S::Axis as Axis>::COUNT ==> #[trigger] edge_slot(
                    o,
                    k,
                    self.g.spec_shape().spec_vertical() as int,
                    <S::Axis as Axis>::COUNT as int,
                ) < self.spec_pos(),
    {
        let h = self.g.spec_shape().spec_horizontal() as int;
        let v = self.g.spec_shape().spec_vertical() as int;
        let c = <S::Axis as Axis>::COUNT as int;
        assert forall|o: Offset, k: int|
            in_lattice(o, h as nat, v as nat) && 0 <= k < c implies #[trigger] edge_slot(o, k, v, c)
                < self.spec_pos() by {
            crate::fixedvec2d::lemma_index_2d(o.horizontal as int, o.vertical as int, h, v);
            let io = offset_to_index_spec(o, v);
            assert(self.current_offset.horizontal == h && self.current_offset.vertical == 0);
            assert(offset_to_index_spec(self.current_offset, v) == h * v);
            lemma_slot_order(io, k, h * v, 0, c);
        }
    }
}

/// The offset after one in the lattice has the next index and stays in or just past the
/// lattice.
proof fn lemma_next_offset_index(o: Offset, h: int, v: int)
    requires
        0 <= h,
        0 <= v,
        h * v <= usize::MAX,
        in_lattice(o, h as nat, v as nat),
    ensures
        offset_to_index_spec(next_offset(o, v as nat), v) == offset_to_index_spec(o, v) + 1,
        next_offset(o, v as nat).horizontal <= h,
        next_offset(o, v as nat).vertical < v || next_offset(o, v as nat).vertical == 0,
        offset_to_index_spec(next_offset(o, v as nat), v) <= h * v,
{
    crate::fixedvec2d::lemma_index_2d(o.horizontal as int, o.vertical as int, h, v);
    assert((o.horizontal + 1) * v == o.horizontal * v + v) by (nonlinear_arith);
    assert(h <= h * v) by (nonlinear_arith)
        requires
            0 <= h,
            1 <= v,
    ;
}

impl<N, E, S: Shape> LatticeGraph<N, E, S> {
    /// Iterates all edges of this graph: the forward edges of each node, nodes row after row.
    pub fn edge_references(&self) -> (r: EdgeReferences<'_, N, E, S>)
        requires
            self.wf(),
        ensures
            r.wf(),
            r.spec_graph() == self,
            r.spec_pos() == 0,
    {
        EdgeReferences { g: self, e: None, current_offset: Offset::new(0, 0) }
    }
}

} // verus!
