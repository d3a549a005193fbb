//! Abstract 2D lattice graph. It holds the node and edge weights; the behaviour is decided
//! by a [`Shape`](`shapes::Shape`).
use crate::bitset::{bitset_bits, bitset_clear, bitset_contains, bitset_len, bitset_put, bitset_with_capacity};
use crate::fixedvec2d::{index_2d, lemma_index_2d, lemma_index_2d_others, FixedVec2D};
use fixedbitset::FixedBitSet;
use shapes::{offset, Axis, AxisDirection, LatticeSize, Offset, Shape};
use std::marker::PhantomData;
pub use edges::{EdgeReference, EdgeReferences, Edges, EdgesDirected};
pub use neighbors::Neighbors;
pub use nodes::{NodeIndices, NodeReferences};
use vstd::prelude::*;

pub mod edges;
pub mod neighbors;
pub mod nodes;
pub mod shapes;
pub mod square;

verus! {

/// Abstract lattice graph. It holds the node and edge weight data.
/// The actual behaviour is dependent on [`Shape`](`shapes::Shape`).
///
/// The weight of the edge that leaves the node at an offset forward along an axis is stored
/// for that offset and axis; where that move leaves the graph there is no edge.
#[derive(Debug, Clone, PartialEq, Eq, Hash)]
pub struct LatticeGraph<N, E, S: Shape> {
    nodes: FixedVec2D<N>,
    edges: Vec<FixedVec2D<Option<E>>>,
    s: S,
}

/// Whether a graph can be made on a shape: the shape is valid, has at least one column and
/// its node count fits in `usize`.
pub open spec fn shape_ok<S: Shape>(s: S) -> bool {
    &&& s.spec_valid()
    &&& s.spec_horizontal() > 0
    &&& s.spec_horizontal() * s.spec_vertical() <= usize::MAX
}

/// Whether an offset lies inside an `h` by `v` lattice.
pub open spec fn in_lattice(o: Offset, h: nat, v: nat) -> bool {
    o.horizontal < h && o.vertical < v
}

/// `n` may be called on the coordinate of every offset of the lattice of `s`.
pub open spec fn node_fn_ok<N, S: Shape, FN: Fn(S::Coordinate) -> N>(s: &S, n: &FN) -> bool {
    forall|o: Offset|
        #![trigger s.spec_from_offset(o)]
        in_lattice(o, s.spec_horizontal(), s.spec_vertical()) ==> call_requires(*n, (s.spec_from_offset(o),))
}

/// `e` may be called on the coordinate of every offset of the lattice of `s` and each axis
/// along which that coordinate moves forward.
pub open spec fn edge_fn_ok<E, S: Shape, FE: Fn(S::Coordinate, S::Axis) -> E>(s: &S, e: &FE) -> bool {
    forall|o: Offset, a: S::Axis|
        #![trigger s.spec_move_coord(s.spec_from_offset(o), a.spec_foward())]
        in_lattice(o, s.spec_horizontal(), s.spec_vertical()) && s.spec_move_coord(
            s.spec_from_offset(o),
            a.spec_foward(),
        ) is Some ==> call_requires(*e, (s.spec_from_offset(o), a))
}

impl<N, E, S: Shape> LatticeGraph<N, E, S> {
    /// The shape of the graph.
    pub closed spec fn spec_shape(&self) -> S {
        self.s
    }

    /// The weight of the node stored at an offset.
    pub closed spec fn spec_node_at(&self, o: Offset) -> N {
        self.nodes.spec_at(o.horizontal as int, o.vertical as int)
    }

    /// The weight stored at an offset for the edge along an axis, if there is one.
    pub open spec fn spec_edge_at(&self, o: Offset, a: S::Axis) -> Option<E> {
        self.spec_edge_at_index(o, a.spec_index() as int)
    }

    /// The weight stored at an offset for the edge along the axis of index `k`, if there is
    /// one.
    pub closed spec fn spec_edge_at_index(&self, o: Offset, k: int) -> Option<E> {
        self.edges@[k].spec_at(o.horizontal as int, o.vertical as int)
    }

    /// The storage matches the shape: one weight for each node, and an edge weight at an
    /// offset and axis exactly when the node stored there moves forward along the axis.
    pub closed spec fn wf(&self) -> bool {
        &&& self.s.spec_valid()
        &&& self.nodes.wf()
        &&& self.nodes.spec_h() == self.s.spec_horizontal()
        &&& self.nodes.spec_v() == self.s.spec_vertical()
        &&& self.edges@.len() == <S::Axis as Axis>::COUNT
        &&& forall|k: int|
            0 <= k < self.edges@.len() ==> {
                &&& (#[trigger] self.edges@[k]).wf()
                &&& self.edges@[k].spec_h() == self.s.spec_horizontal()
                &&& self.edges@[k].spec_v() == self.s.spec_vertical()
            }
        &&& forall|o: Offset, a: S::Axis|
            in_lattice(o, self.s.spec_horizontal(), self.s.spec_vertical()) ==> (
            #[trigger] self.spec_edge_at(o, a) is Some <==> self.s.spec_move_coord(
                self.s.spec_from_offset(o),
                a.spec_foward(),
            ) is Some)
    }

    /// The weight of a node, or `None` when the coordinate is not in the graph.
    pub open spec fn spec_node(&self, c: S::Coordinate) -> Option<N> {
        match self.spec_shape().spec_to_offset(c) {
            Some(o) => Some(self.spec_node_at(o)),
            None => None,
        }
    }

    /// The weight of the edge leaving a node forward along an axis, or `None` when the
    /// node is not in the graph or there is no such edge.
    pub open spec fn spec_edge(&self, c: S::Coordinate, a: S::Axis) -> Option<E> {
        match self.spec_shape().spec_to_offset(c) {
            Some(o) => if self.spec_shape().spec_move_coord(c, a.spec_foward()) is Some {
                self.spec_edge_at(o, a)
            } else {
                None
            },
            None => None,
        }
    }

    /// Facts of a well-formed graph.
    pub proof fn lemma_wf(&self)
        requires
            self.wf(),
        ensures
            self.spec_shape().spec_valid(),
            self.spec_shape().spec_horizontal() > 0,
            self.spec_shape().spec_horizontal() * self.spec_shape().spec_vertical() <= usize::MAX,
            forall|o: Offset, a: S::Axis|
                in_lattice(o, self.spec_shape().spec_horizontal(), self.spec_shape().spec_vertical())
                    ==> (#[trigger] self.spec_edge_at(o, a) is Some <==> self.spec_shape().spec_move_coord(
                    self.spec_shape().spec_from_offset(o),
                    a.spec_foward(),
                ) is Some),
    {
        self.nodes.lemma_wf();
    }

    /// Replacing the node weights by others of the same sizes keeps a graph well formed,
    /// and changing one node weight leaves the others as they were.
    proof fn lemma_nodes_replaced(&self, o: Offset)
        requires
            self.wf(),
            in_lattice(o, self.s.spec_horizontal(), self.s.spec_vertical()),
        ensures
            forall|g: Self|
                g.s == self.s && g.edges == self.edges && g.nodes.wf() && g.nodes.spec_h()
                    == self.nodes.spec_h() && g.nodes.spec_v() == self.nodes.spec_v() ==> #[trigger] g.wf(),
            forall|g: Self, p: Offset|
                g.nodes@ == self.nodes@.update(
                    index_2d(o.horizontal as int, o.vertical as int, self.nodes.spec_v() as int),
                    g.nodes@[index_2d(o.horizontal as int, o.vertical as int, self.nodes.spec_v() as int)],
                ) && g.nodes.spec_v() == self.nodes.spec_v() && in_lattice(
                    p,
                    self.s.spec_horizontal(),
                    self.s.spec_vertical(),
                ) && p != o ==> #[trigger] g.spec_node_at(p) == self.spec_node_at(p),
    {
        self.nodes.lemma_wf();
        lemma_index_2d(o.horizontal as int, o.vertical as int, self.nodes.spec_h() as int, self.nodes.spec_v() as int);
        lemma_index_2d_others(
            o.horizontal as int,
            o.vertical as int,
            self.nodes.spec_h() as int,
            self.nodes.spec_v() as int,
        );
        assert forall|g: Self|
            g.s == self.s && g.edges == self.edges && g.nodes.wf() && g.nodes.spec_h()
                == self.nodes.spec_h() && g.nodes.spec_v() == self.nodes.spec_v() implies #[trigger] g.wf() by {
            assert forall|p: Offset, a: S::Axis|
                in_lattice(p, g.s.spec_horizontal(), g.s.spec_vertical()) implies (
                #[trigger] g.spec_edge_at(p, a) is Some <==> g.s.spec_move_coord(
                    g.s.spec_from_offset(p),
                    a.spec_foward(),
                ) is Some) by {
                assert(g.spec_edge_at(p, a) == self.spec_edge_at(p, a));
            }
        }
        assert forall|g: Self, p: Offset|
            g.nodes@ == self.nodes@.update(
                index_2d(o.horizontal as int, o.vertical as int, self.nodes.spec_v() as int),
                g.nodes@[index_2d(o.horizontal as int, o.vertical as int, self.nodes.spec_v() as int)],
            ) && g.nodes.spec_v() == self.nodes.spec_v() && in_lattice(
                p,
                self.s.spec_horizontal(),
                self.s.spec_vertical(),
            ) && p != o implies #[trigger] g.spec_node_at(p) == self.spec_node_at(p) by {
            assert(p.horizontal != o.horizontal || p.vertical != o.vertical);
            assert(index_2d(p.horizontal as int, p.vertical as int, self.nodes.spec_v() as int)
                != index_2d(o.horizontal as int, o.vertical as int, self.nodes.spec_v() as int));
        }
    }

    /// `g` is this graph with the stored weight of one edge changed, present or absent as
    /// it was.
    spec fn edge_replaced_by(&self, g: Self, o: Offset, a: S::Axis) -> bool {
        let ai = a.spec_index() as int;
        let i = index_2d(o.horizontal as int, o.vertical as int, self.s.spec_vertical() as int);
        &&& g.s == self.s
        &&& g.nodes == self.nodes
        &&& g.edges@.len() == self.edges@.len()
        &&& forall|k: int| 0 <= k < self.edges@.len() && k != ai ==> g.edges@[k] == self.edges@[k]
        &&& g.edges@[ai].wf()
        &&& g.edges@[ai].spec_h() == self.s.spec_horizontal()
        &&& g.edges@[ai].spec_v() == self.s.spec_vertical()
        &&& g.edges@[ai]@ == self.edges@[ai]@.update(i, g.edges@[ai]@[i])
        &&& (g.spec_edge_at(o, a) is Some <==> self.spec_edge_at(o, a) is Some)
    }

    /// Changing one stored edge weight, which stays present or absent as it was, keeps a
    /// graph well formed and leaves the other weights as they were.
    proof fn lemma_edge_replaced(&self, o: Offset, a: S::Axis)
        requires
            self.wf(),
            in_lattice(o, self.s.spec_horizontal(), self.s.spec_vertical()),
        ensures
            forall|g: Self| self.edge_replaced_by(g, o, a) ==> #[trigger] g.wf(),
            forall|g: Self, p: Offset, b: S::Axis|
                self.edge_replaced_by(g, o, a) && in_lattice(p, self.s.spec_horizontal(), self.s.spec_vertical())
                    && (p != o || b != a) ==> #[trigger] g.spec_edge_at(p, b) == self.spec_edge_at(p, b),
    {
        <S::Axis as Axis>::lemma_index_bound(a);
        let ai = a.spec_index() as int;
        let v = self.s.spec_vertical() as int;
        let h = self.s.spec_horizontal() as int;
        self.edges@[ai].lemma_wf();
        lemma_index_2d(o.horizontal as int, o.vertical as int, h, v);
        lemma_index_2d_others(o.horizontal as int, o.vertical as int, h, v);
        assert forall|g: Self, p: Offset, b: S::Axis|
            self.edge_replaced_by(g, o, a) && in_lattice(p, self.s.spec_horizontal(), self.s.spec_vertical())
                && (p != o || b != a) implies #[trigger] g.spec_edge_at(p, b) == self.spec_edge_at(p, b) by {
            <S::Axis as Axis>::lemma_index_bound(b);
            if b.spec_index() == a.spec_index() {
                <S::Axis as Axis>::lemma_index_injective(a, b);
                assert(p.horizontal != o.horizontal || p.vertical != o.vertical);
                assert(index_2d(p.horizontal as int, p.vertical as int, v) != index_2d(
                    o.horizontal as int,
                    o.vertical as int,
                    v,
                ));
            }
        }
        assert forall|g: Self| self.edge_replaced_by(g, o, a) implies #[trigger] g.wf() by {
            assert forall|p: Offset, b: S::Axis|
                in_lattice(p, g.s.spec_horizontal(), g.s.spec_vertical()) implies (
                #[trigger] g.spec_edge_at(p, b) is Some <==> g.s.spec_move_coord(
                    g.s.spec_from_offset(p),
                    b.spec_foward(),
                ) is Some) by {
                if p != o || b != a {
                    assert(g.spec_edge_at(p, b) == self.spec_edge_at(p, b));
                }
            }
            assert forall|k: int|
                0 <= k < g.edges@.len() implies {
                &&& (#[trigger] g.edges@[k]).wf()
                &&& g.edges@[k].spec_h() == g.s.spec_horizontal()
                &&& g.edges@[k].spec_v() == g.s.spec_vertical()
            } by {}
        }
    }

    /// Creates a graph whose node weights are `n(coordinate)` and whose edge weights are
    /// `e(coordinate, axis)` for each edge that exists.
    pub fn new_with<FN, FE>(s: S, n: FN, e: FE) -> (r: Self)
        where
            FN: Fn(S::Coordinate) -> N,
            FE: Fn(S::Coordinate, S::Axis) -> E,
        requires
            s.spec_valid(),
            s.spec_horizontal() > 0,
            s.spec_horizontal() * s.spec_vertical() <= usize::MAX,
            node_fn_ok(&s, &n),
            edge_fn_ok(&s, &e),
        ensures
            r.wf(),
            r.spec_shape() == s,
            forall|o: Offset|
                in_lattice(o, s.spec_horizontal(), s.spec_vertical()) ==> call_ensures(
                    n,
                    (s.spec_from_offset(o),),
                    #[trigger] r.spec_node_at(o),
                ),
            forall|o: Offset, a: S::Axis|
                in_lattice(o, s.spec_horizontal(), s.spec_vertical()) ==> match #[trigger] r.spec_edge_at(o, a) {
                    Some(w) => call_ensures(e, (s.spec_from_offset(o), a), w),
                    None => true,
                },
    {
        let h: usize = s.horizontal();
        let v: usize = s.vertical();
        let sr = &s;
        let nr = &n;
        let er = &e;
        let node_fn = |i: usize, j: usize| -> (x: N)
            requires
                sr.spec_valid(),
                i < sr.spec_horizontal(),
                j < sr.spec_vertical(),
                node_fn_ok(sr, nr),
            ensures
                call_ensures(*nr, (sr.spec_from_offset(offset(i as int, j as int)),), x),
            {
                let o = Offset::new(i, j);
                proof {
                    sr.lemma_valid_from_offset(o);
                    assert(in_lattice(o, sr.spec_horizontal(), sr.spec_vertical()));
                }
                nr(sr.from_offset(o))
            };
        let nodes = FixedVec2D::new(h, v, node_fn);
        let count: usize = <S::Axis as Axis>::COUNT;
        let mut edges: Vec<FixedVec2D<Option<E>>> = Vec::new();
        let mut k: usize = 0;
        while k < count
            invariant
                count == <S::Axis as Axis>::COUNT,
                k <= count,
                h == s.spec_horizontal(),
                v == s.spec_vertical(),
                h > 0,
                h * v <= usize::MAX,
                s.spec_valid(),
                *sr == s,
                *er == e,
                edge_fn_ok(&s, &e),
                edges@.len() == k,
                forall|m: int|
                    0 <= m < k ==> {
                        &&& (#[trigger] edges@[m]).wf()
                        &&& edges@[m].spec_h() == h
                        &&& edges@[m].spec_v() == v
                    },
                forall|b: S::Axis, i: int, j: int|
                    b.spec_index() < k && 0 <= i < h && 0 <= j < v ==> {
                        let c = s.spec_from_offset(offset(i, j));
                        &&& (#[trigger] edges@[b.spec_index() as int].spec_at(i, j) is Some
                            <==> s.spec_move_coord(c, b.spec_foward()) is Some)
                        &&& (edges@[b.spec_index() as int].spec_at(i, j) matches Some(w)
                            ==> call_ensures(e, (c, b), w))
                    },
            decreases count - k,
        {
            let a: S::Axis = <S::Axis as Axis>::from_index_unchecked(k);
            let edge_fn = |i: usize, j: usize| -> (x: Option<E>)
                requires
                    sr.spec_valid(),
                    i < sr.spec_horizontal(),
                    j < sr.spec_vertical(),
                    edge_fn_ok(sr, er),
                ensures
                    x is Some <==> sr.spec_move_coord(
                        sr.spec_from_offset(offset(i as int, j as int)),
                        a.spec_foward(),
                    ) is Some,
                    x matches Some(w) ==> call_ensures(
                        *er,
                        (sr.spec_from_offset(offset(i as int, j as int)), a),
                        w,
                    ),
                {
                    let o = Offset::new(i, j);
                    proof {
                        sr.lemma_valid_from_offset(o);
                    }
                    let c = sr.from_offset(o);
                    match sr.move_coord(c, a.foward()) {
                        Ok(_) => {
                            proof {
                                assert(in_lattice(o, sr.spec_horizontal(), sr.spec_vertical()));
                                assert(sr.spec_move_coord(sr.spec_from_offset(o), a.spec_foward()) is Some);
                            }
                            Some(er(c, a))
                        },
                        Err(_) => None,
                    }
                };
            let layer = FixedVec2D::new(h, v, edge_fn);
            let ghost old_edges = edges@;
            edges.push(layer);
            proof {
                assert forall|b: S::Axis, i: int, j: int|
                    b.spec_index() < k + 1 && 0 <= i < h && 0 <= j < v implies {
                    let c = s.spec_from_offset(offset(i, j));
                    &&& (#[trigger] edges@[b.spec_index() as int].spec_at(i, j) is Some
                        <==> s.spec_move_coord(c, b.spec_foward()) is Some)
                    &&& (edges@[b.spec_index() as int].spec_at(i, j) matches Some(w)
                        ==> call_ensures(e, (c, b), w))
                } by {
                    if b.spec_index() == k {
                        <S::Axis as Axis>::lemma_index_injective(a, b);
                        assert(call_ensures(edge_fn, (i as usize, j as usize), layer.spec_at(i, j)));
                    } else {
                        assert(edges@[b.spec_index() as int] == old_edges[b.spec_index() as int]);
                    }
                }
            }
            k = k + 1;
        }
        let r = LatticeGraph { nodes, edges, s };
        proof {
            assert forall|o: Offset|
                in_lattice(o, s.spec_horizontal(), s.spec_vertical()) implies call_ensures(
                n,
                (s.spec_from_offset(o),),
                #[trigger] r.spec_node_at(o),
            ) by {
                assert(call_ensures(
                    node_fn,
                    (o.horizontal, o.vertical),
                    nodes.spec_at(o.horizontal as int, o.vertical as int),
                ));
                assert(offset(o.horizontal as int, o.vertical as int) == o);
            }
            assert forall|o: Offset, a: S::Axis|
                in_lattice(o, s.spec_horizontal(), s.spec_vertical()) implies {
                &&& (#[trigger] r.spec_edge_at(o, a) is Some <==> s.spec_move_coord(
                    s.spec_from_offset(o),
                    a.spec_foward(),
                ) is Some)
                &&& match r.spec_edge_at(o, a) {
                    Some(w) => call_ensures(e, (s.spec_from_offset(o), a), w),
                    None => true,
                }
            } by {
                <S::Axis as Axis>::lemma_index_bound(a);
                assert(offset(o.horizontal as int, o.vertical as int) == o);
                assert(edges@[a.spec_index() as int].spec_at(o.horizontal as int, o.vertical as int)
                    == r.spec_edge_at(o, a));
            }
        }
        r
    }

    /// Creates a graph with node and edge weights set to [`default`](`Default::default`).
    pub fn new(s: S) -> (r: Self)
        where
            N: Default,
            E: Default,
        requires
            s.spec_valid(),
            s.spec_horizontal() > 0,
            s.spec_horizontal() * s.spec_vertical() <= usize::MAX,
        ensures
            r.wf(),
            r.spec_shape() == s,
    {
        Self::new_with(s, |_c: S::Coordinate| N::default(), |_c: S::Coordinate, _a: S::Axis| E::default())
    }

    /// Get a reference to the lattice graph's shape.
    pub fn shape(&self) -> (r: &S)
        ensures
            *r == self.spec_shape(),
    {
        &self.s
    }

    /// The weight of a node, or `None` when the coordinate is not in the graph.
    pub fn node_weight(&self, id: S::Coordinate) -> (r: Option<&N>)
        requires
            self.wf(),
        ensures
            r is Some <==> self.spec_node(id) is Some,
            r matches Some(x) ==> self.spec_node(id) == Some(*x),
    {
        match self.s.to_offset(id) {
            Ok(o) => {
                proof {
                    self.s.lemma_to_offset_in_range(id);
                }
                Some(self.nodes.index((o.horizontal, o.vertical)))
            },
            Err(_) => None,
        }
    }

    /// The weight of the edge `id`: the edge leaving the node `id.0` forward along the axis
    /// `id.1`. `None` when the node is not in the graph or there is no such edge.
    pub fn edge_weight(&self, id: (S::Coordinate, S::Axis)) -> (r: Option<&E>)
        requires
            self.wf(),
        ensures
            r is Some <==> self.spec_edge(id.0, id.1) is Some,
            r matches Some(x) ==> self.spec_edge(id.0, id.1) == Some(*x),
    {
        match self.s.to_offset(id.0) {
            Ok(o) => {
                if self.s.move_coord(id.0, id.1.foward()).is_err() {
                    return None;
                }
                proof {
                    self.s.lemma_to_offset_in_range(id.0);
                    <S::Axis as Axis>::lemma_index_bound(id.1);
                }
                let k: usize = id.1.to_index();
                self.edges[k].index((o.horizontal, o.vertical)).as_ref()
            },
            Err(_) => None,
        }
    }

    /// The weight of a node to change, or `None` when the coordinate is not in the graph.
    /// Only the weight of that node can change.
    pub fn node_weight_mut(&mut self, id: S::Coordinate) -> (r: Option<&mut N>)
        requires
            old(self).wf(),
        ensures
            final(self).wf(),
            final(self).spec_shape() == old(self).spec_shape(),
            r is Some <==> old(self).spec_node(id) is Some,
            r matches Some(x) ==> old(self).spec_node(id) == Some(*x),
            forall|o: Offset, a: S::Axis| #[trigger]
                final(self).spec_edge_at(o, a) == old(self).spec_edge_at(o, a),
            forall|o: Offset|
                in_lattice(o, old(self).spec_shape().spec_horizontal(), old(self).spec_shape().spec_vertical())
                    && old(self).spec_shape().spec_to_offset(id) != Some(o)
                    ==> #[trigger] final(self).spec_node_at(o) == old(self).spec_node_at(o),
            r matches Some(x) ==> final(self).spec_node(id) == Some(*final(x)),
    {
        match self.s.to_offset(id) {
            Ok(o) => {
                proof {
                    self.s.lemma_to_offset_in_range(id);
                }
                proof {
                    self.lemma_nodes_replaced(o);
                    self.nodes.lemma_wf();
                    lemma_index_2d(o.horizontal as int, o.vertical as int, self.nodes.spec_h() as int, self.nodes.spec_v() as int);
                }
                let x = self.nodes.index_mut((o.horizontal, o.vertical));
                Some(x)
            },
            Err(_) => None,
        }
    }

    /// The weight of the node stored at an offset inside the lattice.
    pub fn node_weight_unchecked_raw(&self, o: Offset) -> (r: &N)
        requires
            self.wf(),
            in_lattice(o, self.spec_shape().spec_horizontal(), self.spec_shape().spec_vertical()),
        ensures
            *r == self.spec_node_at(o),
    {
        self.nodes.index((o.horizontal, o.vertical))
    }

    /// The weight stored at an offset inside the lattice for the edge along the axis of
    /// index `ax`, if there is one.
    pub fn edge_weight_unchecked_raw(&self, o: Offset, ax: usize) -> (r: Option<&E>)
        requires
            self.wf(),
            in_lattice(o, self.spec_shape().spec_horizontal(), self.spec_shape().spec_vertical()),
            ax < <S::Axis as Axis>::COUNT,
        ensures
            r is Some <==> self.spec_edge_at_index(o, ax as int) is Some,
            r matches Some(x) ==> self.spec_edge_at_index(o, ax as int) == Some(*x),
    {
        self.edges[ax].index((o.horizontal, o.vertical)).as_ref()
    }

    /// The weight of a node in the graph.
    pub fn node_weight_unchecked(&self, id: S::Coordinate) -> (r: &N)
        requires
            self.wf(),
            self.spec_node(id) is Some,
        ensures
            self.spec_node(id) == Some(*r),
    {
        let o = self.s.to_offset_unchecked(id);
        proof {
            self.s.lemma_to_offset_in_range(id);
        }
        self.node_weight_unchecked_raw(o)
    }

    /// The weight of an edge that exists.
    pub fn edge_weight_unchecked(&self, id: (S::Coordinate, S::Axis)) -> (r: &E)
        requires
            self.wf(),
            self.spec_edge(id.0, id.1) is Some,
        ensures
            self.spec_edge(id.0, id.1) == Some(*r),
    {
        self.edge_weight(id).unwrap()
    }

    /// Number of nodes.
    pub fn node_count(&self) -> (r: usize)
        requires
            self.wf(),
        ensures
            r == self.spec_shape().spec_horizontal() * self.spec_shape().spec_vertical(),
    {
        proof {
            self.nodes.lemma_wf();
        }
        self.s.node_count()
    }

    /// Upper bound of the node indices: the number of nodes.
    pub fn node_bound(&self) -> (r: usize)
        requires
            self.wf(),
        ensures
            r == self.spec_shape().spec_horizontal() * self.spec_shape().spec_vertical(),
    {
        self.node_count()
    }

    /// The index of a node, row after row; the node must be in the graph.
    pub fn to_index(&self, a: S::Coordinate) -> (r: usize)
        requires
            self.wf(),
            self.spec_shape().spec_to_offset(a) is Some,
        ensures
            r == shapes::offset_to_index_spec(
                self.spec_shape().spec_to_offset(a)->0,
                self.spec_shape().spec_vertical() as int,
            ),
    {
        proof {
            self.nodes.lemma_wf();
            self.s.lemma_to_offset_in_range(a);
            shapes::lemma_offset_index_bound(
                self.s.spec_to_offset(a)->0,
                self.s.spec_horizontal() as int,
                self.s.spec_vertical() as int,
            );
        }
        match self.s.to_index(a) {
            Some(i) => i,
            None => {
                proof {
                    assert(false);
                }
                0
            },
        }
    }

    /// The node at an index, row after row.
    pub fn from_index(&self, i: usize) -> (r: S::Coordinate)
        requires
            self.spec_shape().spec_vertical() > 0,
            self.spec_shape().spec_from_offset_ok(
                shapes::index_to_offset_spec(i as int, self.spec_shape().spec_vertical() as int),
            ),
        ensures
            r == self.spec_shape().spec_from_offset(
                shapes::index_to_offset_spec(i as int, self.spec_shape().spec_vertical() as int),
            ),
    {
        self.s.from_index(i)
    }

    /// Whether two nodes are adjacent, as the shape decides.
    pub fn is_adjacent(&self, a: S::Coordinate, b: S::Coordinate) -> (r: bool)
        ensures
            r == self.spec_shape().spec_is_neighbor(a, b),
    {
        self.s.is_neighbor(a, b)
    }

    /// A map of visited nodes of this graph with no node visited.
    pub fn visit_map(&self) -> (r: VisMap<S>)
        where
            S: Copy,
        requires
            self.wf(),
        ensures
            r.wf(),
            r.spec_shape() == self.spec_shape(),
            forall|c: S::Coordinate| !r.spec_is_visited(c),
    {
        let r = VisMap::new(self.s);
        proof {
            assert forall|c: S::Coordinate| !r.spec_is_visited(c) by {
                self.s.lemma_to_offset_in_range(c);
            }
        }
        r
    }

    /// Marks every node of a map as not visited.
    pub fn reset_map(&self, map: &mut VisMap<S>)
        requires
            old(map).wf(),
        ensures
            final(map).wf(),
            final(map).spec_shape() == old(map).spec_shape(),
            forall|c: S::Coordinate| !final(map).spec_is_visited(c),
    {
        map.clear();
        proof {
            assert forall|c: S::Coordinate| !map.spec_is_visited(c) by {
                map.spec_shape().lemma_to_offset_in_range(c);
            }
        }
    }

    /// The weight of the edge `id` to change, or `None` when the node `id.0` is not in the
    /// graph or there is no such edge. Only the weight of that edge can change.
    pub fn edge_weight_mut(&mut self, id: (S::Coordinate, S::Axis)) -> (r: Option<&mut E>)
        requires
            old(self).wf(),
        ensures
            final(self).wf(),
            final(self).spec_shape() == old(self).spec_shape(),
            r is Some <==> old(self).spec_edge(id.0, id.1) is Some,
            r matches Some(x) ==> old(self).spec_edge(id.0, id.1) == Some(*x),
            forall|o: Offset| #[trigger] final(self).spec_node_at(o) == old(self).spec_node_at(o),
            forall|o: Offset, a: S::Axis|
                in_lattice(o, old(self).spec_shape().spec_horizontal(), old(self).spec_shape().spec_vertical())
                    && (old(self).spec_shape().spec_to_offset(id.0) != Some(o) || a != id.1)
                    ==> #[trigger] final(self).spec_edge_at(o, a) == old(self).spec_edge_at(o, a),
            r matches Some(x) ==> final(self).spec_edge(id.0, id.1) == Some(*final(x)),
    {
        match self.s.to_offset(id.0) {
            Ok(o) => {
                if self.s.move_coord(id.0, id.1.foward()).is_err() {
                    return None;
                }
                proof {
                    self.s.lemma_to_offset_in_range(id.0);
                    <S::Axis as Axis>::lemma_index_bound(id.1);
                    let ai = id.1.spec_index() as int;
                    self.edges@[ai].lemma_wf();
                    lemma_index_2d(
                        o.horizontal as int,
                        o.vertical as int,
                        self.s.spec_horizontal() as int,
                        self.s.spec_vertical() as int,
                    );
                    self.lemma_edge_replaced(o, id.1);
                }
                let k: usize = id.1.to_index();
                let layer = &mut self.edges[k];
                let slot = layer.index_mut((o.horizontal, o.vertical));
                slot.as_mut()
            },
            Err(_) => None,
        }
    }
}

/// An index below the node count names a coordinate of the graph, and the index of that
/// coordinate is the index itself.
pub proof fn lemma_index_roundtrip<N, E, S: Shape>(g: &LatticeGraph<N, E, S>, i: int)
    requires
        g.wf(),
        0 <= i < g.spec_shape().spec_horizontal() * g.spec_shape().spec_vertical(),
    ensures
        g.spec_shape().spec_from_offset_ok(
            shapes::index_to_offset_spec(i, g.spec_shape().spec_vertical() as int),
        ),
        g.spec_shape().spec_to_offset(
            g.spec_shape().spec_from_offset(
                shapes::index_to_offset_spec(i, g.spec_shape().spec_vertical() as int),
            ),
        ) matches Some(o) && shapes::offset_to_index_spec(
            o,
            g.spec_shape().spec_vertical() as int,
        ) == i,
{
    let s = g.spec_shape();
    let h = s.spec_horizontal() as int;
    let v = s.spec_vertical() as int;
    g.lemma_wf();
    assert(v > 0) by {
        if v <= 0 {
            assert(h * v <= 0) by (nonlinear_arith)
                requires
                    h > 0,
                    v <= 0,
            ;
        }
    }
    vstd::arithmetic::div_mod::lemma_fundamental_div_mod(i, v);
    vstd::arithmetic::div_mod::lemma_mod_bound(i, v);
    vstd::arithmetic::div_mod::lemma_div_pos_is_pos(i, v);
    assert(i / v < h) by {
        vstd::arithmetic::div_mod::lemma_div_by_multiple_is_strongly_ordered(i, h * v, h, v);
        vstd::arithmetic::div_mod::lemma_div_multiples_vanish(h, v);
        assert(h * v == v * h) by (nonlinear_arith);
    }
    let o = shapes::index_to_offset_spec(i, v);
    assert(o.horizontal == i / v && o.vertical == i % v);
    s.lemma_valid_from_offset(o);
    s.lemma_from_offset_to_offset(o);
    assert(v * (i / v) == (i / v) * v) by (nonlinear_arith);
}

} // verus!

verus! {

/// Map of the visited nodes of a [`LatticeGraph`]: one bit set for each row of offsets.
#[derive(Debug, Clone, PartialEq, Eq, Hash)]
pub struct VisMap<S> {
    v: Vec<FixedBitSet>,
    s: S,
}

impl<S: Shape> VisMap<S> {
    /// The shape of the graph whose nodes are recorded.
    pub closed spec fn spec_shape(&self) -> S {
        self.s
    }

    /// One bit set of the vertical size for each horizontal offset.
    pub closed spec fn wf(&self) -> bool {
        &&& self.v@.len() == self.s.spec_horizontal()
        &&& forall|i: int| 0 <= i < self.v@.len() ==> bitset_len(#[trigger] self.v@[i]) == self.s.spec_vertical()
    }

    /// Whether the node stored at an offset was visited.
    pub closed spec fn spec_visited_at(&self, o: Offset) -> bool {
        bitset_bits(self.v@[o.horizontal as int]).contains(o.vertical as nat)
    }

    /// Whether a node was visited; a coordinate that is not in the graph never is.
    pub open spec fn spec_is_visited(&self, c: S::Coordinate) -> bool {
        match self.spec_shape().spec_to_offset(c) {
            Some(o) => self.spec_visited_at(o),
            None => false,
        }
    }

    /// A map with no node visited.
    pub(crate) fn new(s: S) -> (r: Self)
        ensures
            r.wf(),
            r.spec_shape() == s,
            forall|o: Offset| in_lattice(o, s.spec_horizontal(), s.spec_vertical()) ==> !#[trigger] r.spec_visited_at(o),
    {
        let h: usize = s.horizontal();
        let v: usize = s.vertical();
        let mut vec: Vec<FixedBitSet> = Vec::new();
        let mut i: usize = 0;
        while i < h
            invariant
                i <= h,
                h == s.spec_horizontal(),
                v == s.spec_vertical(),
                vec@.len() == i,
                forall|k: int| 0 <= k < i ==> bitset_len(#[trigger] vec@[k]) == v,
                forall|k: int| 0 <= k < i ==> bitset_bits(#[trigger] vec@[k]) == Set::<nat>::empty(),
            decreases h - i,
        {
            vec.push(bitset_with_capacity(v));
            i = i + 1;
        }
        let r = VisMap { v: vec, s };
        proof {
            assert forall|o: Offset| in_lattice(o, s.spec_horizontal(), s.spec_vertical()) implies !#[trigger] r.spec_visited_at(o) by {
                assert(bitset_bits(vec@[o.horizontal as int]) == Set::<nat>::empty());
            }
        }
        r
    }

    /// Marks every node as not visited.
    fn clear(&mut self)
        requires
            old(self).wf(),
        ensures
            final(self).wf(),
            final(self).spec_shape() == old(self).spec_shape(),
            forall|o: Offset|
                in_lattice(o, old(self).spec_shape().spec_horizontal(), old(self).spec_shape().spec_vertical())
                    ==> !#[trigger] final(self).spec_visited_at(o),
    {
        let n: usize = self.v.len();
        let mut i: usize = 0;
        while i < n
            invariant
                i <= n,
                n == self.v@.len(),
                self.wf(),
                self.s == old(self).s,
                forall|k: int| 0 <= k < i ==> bitset_bits(#[trigger] self.v@[k]) == Set::<nat>::empty(),
            decreases n - i,
        {
            bitset_clear(&mut self.v[i]);
            i = i + 1;
        }
        proof {
            assert forall|o: Offset|
                in_lattice(o, self.s.spec_horizontal(), self.s.spec_vertical()) implies !#[trigger] self.spec_visited_at(o) by {
                assert(bitset_bits(self.v@[o.horizontal as int]) == Set::<nat>::empty());
            }
        }
    }

    /// Marks a node as visited. Returns `true` if it was not visited before; a coordinate that
    /// is not in the graph is never marked and gives `false`.
    pub fn visit(&mut self, a: S::Coordinate) -> (r: bool)
        requires
            old(self).wf(),
        ensures
            final(self).wf(),
            final(self).spec_shape() == old(self).spec_shape(),
            r == (old(self).spec_shape().spec_to_offset(a) is Some && !old(self).spec_is_visited(a)),
            forall|o: Offset|
                in_lattice(o, old(self).spec_shape().spec_horizontal(), old(self).spec_shape().spec_vertical())
                    ==> #[trigger] final(self).spec_visited_at(o) == (old(self).spec_visited_at(o)
                    || old(self).spec_shape().spec_to_offset(a) == Some(o)),
    {
        match self.s.to_offset(a) {
            Ok(o) => {
                proof {
                    self.s.lemma_to_offset_in_range(a);
                }
                let ghost old_v = self.v@;
                let prev = bitset_put(&mut self.v[o.horizontal], o.vertical);
                proof {
                    assert forall|p: Offset|
                        in_lattice(p, self.s.spec_horizontal(), self.s.spec_vertical())
                            implies #[trigger] self.spec_visited_at(p) == (bitset_bits(
                        old_v[p.horizontal as int],
                    ).contains(p.vertical as nat) || Some(o) == Some(p)) by {
                        if p.horizontal != o.horizontal {
                            assert(self.v@[p.horizontal as int] == old_v[p.horizontal as int]);
                        }
                    }
                    assert forall|k: int| 0 <= k < self.v@.len() implies bitset_len(#[trigger] self.v@[k])
                        == self.s.spec_vertical() by {
                        if k != o.horizontal {
                            assert(self.v@[k] == old_v[k]);
                        }
                    }
                }
                !prev
            },
            Err(_) => false,
        }
    }

    /// Whether a node was visited.
    pub fn is_visited(&self, a: &S::Coordinate) -> (r: bool)
        requires
            self.wf(),
        ensures
            r == self.spec_is_visited(*a),
    {
        match self.s.to_offset(*a) {
            Ok(o) => {
                proof {
                    self.s.lemma_to_offset_in_range(*a);
                }
                bitset_contains(&self.v[o.horizontal], o.vertical)
            },
            Err(_) => false,
        }
    }
}

/// Marker of whether the edges of a lattice graph with axis `A` are directed.
#[derive(Debug, Copy, PartialEq, Eq, PartialOrd, Ord, Hash)]
pub struct EdgeTypeWrap<A>(PhantomData<A>);

impl<A> Clone for EdgeTypeWrap<A> {
    fn clone(&self) -> (r: Self)
        ensures
            r == *self,
    {
        EdgeTypeWrap(PhantomData)
    }
}

impl<A: Axis> EdgeTypeWrap<A> {
    /// Whether the edges are directed: whether the axis is.
    pub fn is_directed() -> (r: bool)
        ensures
            r == A::DIRECTED,
    {
        A::DIRECTED
    }
}

impl<N, E, S: Shape> LatticeGraph<N, E, S> {
    /// The weight of a node in the graph, to change. Only that weight can change.
    pub fn node_weight_mut_unchecked(&mut self, id: S::Coordinate) -> (r: &mut N)
        requires
            old(self).wf(),
            old(self).spec_node(id) is Some,
        ensures
            final(self).wf(),
            final(self).spec_shape() == old(self).spec_shape(),
            old(self).spec_node(id) == Some(*r),
            forall|o: Offset, a: S::Axis| #[trigger]
                final(self).spec_edge_at(o, a) == old(self).spec_edge_at(o, a),
            forall|o: Offset|
                in_lattice(o, old(self).spec_shape().spec_horizontal(), old(self).spec_shape().spec_vertical())
                    && old(self).spec_shape().spec_to_offset(id) != Some(o)
                    ==> #[trigger] final(self).spec_node_at(o) == old(self).spec_node_at(o),
            final(self).spec_node(id) == Some(*final(r)),
    {
        self.node_weight_mut(id).unwrap()
    }

    /// The weight of an edge that exists, to change. Only that weight can change.
    pub fn edge_weight_mut_unchecked(&mut self, id: (S::Coordinate, S::Axis)) -> (r: &mut E)
        requires
            old(self).wf(),
            old(self).spec_edge(id.0, id.1) is Some,
        ensures
            final(self).wf(),
            final(self).spec_shape() == old(self).spec_shape(),
            old(self).spec_edge(id.0, id.1) == Some(*r),
            forall|o: Offset| #[trigger] final(self).spec_node_at(o) == old(self).spec_node_at(o),
            forall|o: Offset, a: S::Axis|
                in_lattice(o, old(self).spec_shape().spec_horizontal(), old(self).spec_shape().spec_vertical())
                    && (old(self).spec_shape().spec_to_offset(id.0) != Some(o) || a != id.1)
                    ==> #[trigger] final(self).spec_edge_at(o, a) == old(self).spec_edge_at(o, a),
            final(self).spec_edge(id.0, id.1) == Some(*final(r)),
    {
        self.edge_weight_mut(id).unwrap()
    }
}

} // verus!
