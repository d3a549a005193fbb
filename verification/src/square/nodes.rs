//! Iterating the nodes of a [`SquareGraph`], and their indices.
use super::index::{node_at, IndexType, NodeIndex};
use super::{Shape, SquareGraph};
use std::marker::PhantomData;
use vstd::prelude::*;

verus! {

/// Iterate all indices of a [`SquareGraph`], row after row.
#[derive(Debug)]
pub struct NodeIndices<Ix> {
    h_max: usize,
    h: usize,
    v_max: usize,
    v: usize,
    pd: PhantomData<Ix>,
}

impl<Ix> Clone for NodeIndices<Ix> {
    fn clone(&self) -> (r: Self)
        ensures
            r == *self,
    {
        NodeIndices { h_max: self.h_max, h: self.h, v_max: self.v_max, v: self.v, pd: PhantomData }
    }
}

impl<Ix: IndexType> NodeIndices<Ix> {
    /// The horizontal size.
    pub closed spec fn spec_h_max(&self) -> nat {
        self.h_max as nat
    }

    /// The vertical size.
    pub closed spec fn spec_v_max(&self) -> nat {
        self.v_max as nat
    }

    /// The horizontal position of the last index given, or 0.
    pub closed spec fn spec_h(&self) -> nat {
        self.h as nat
    }

    /// The vertical position after the last index given, or 0.
    pub closed spec fn spec_v(&self) -> nat {
        self.v as nat
    }

    /// The positions are inside the sizes.
    pub closed spec fn wf(&self) -> bool {
        &&& (self.v <= self.v_max || (self.v_max == 0 && self.v == 1))
        &&& (self.h < self.h_max || self.h == 0)
        &&& self.h_max * self.v_max <= usize::MAX
    }

    /// Facts of the positions.
    pub proof fn lemma_wf(&self)
        requires
            self.wf(),
        ensures
            self.spec_v() <= self.spec_v_max() || (self.spec_v_max() == 0 && self.spec_v() == 1),
            self.spec_h() < self.spec_h_max() || self.spec_h() == 0,
            self.spec_h_max() * self.spec_v_max() <= usize::MAX,
    {
    }

    /// Iterates the indices of `h` by `v` nodes.
    pub fn new(h: usize, v: usize) -> (r: Self)
        requires
            h * v <= usize::MAX,
        ensures
            r.wf(),
            r.spec_h_max() == h,
            r.spec_v_max() == v,
            r.spec_h() == 0,
            r.spec_v() == 0,
    {
        NodeIndices { h_max: h, h: 0, v_max: v, v: 0, pd: PhantomData }
    }

    /// The next index: the next vertical position in the row, or the first of the next row;
    /// `None` after the last row.
    pub fn next(&mut self) -> (r: Option<NodeIndex<Ix>>)
        requires
            old(self).wf(),
        ensures
            final(self).wf(),
            final(self).spec_h_max() == old(self).spec_h_max(),
            final(self).spec_v_max() == old(self).spec_v_max(),
            old(self).spec_v() < old(self).spec_v_max() ==> {
                &&& r == Some(node_at::<Ix>(old(self).spec_h() as int, old(self).spec_v() as int))
                &&& final(self).spec_h() == old(self).spec_h()
                &&& final(self).spec_v() == old(self).spec_v() + 1
            },
            old(self).spec_v() >= old(self).spec_v_max() && old(self).spec_h() + 1 < old(self).spec_h_max() ==> {
                &&& r == Some(node_at::<Ix>(old(self).spec_h() + 1int, 0int))
                &&& final(self).spec_h() == old(self).spec_h() + 1
                &&& final(self).spec_v() == 1
            },
            old(self).spec_v() >= old(self).spec_v_max() && old(self).spec_h() + 1 >= old(self).spec_h_max()
                ==> r is None && *final(self) == *old(self),
    {
        let nv: usize;
        if self.v < self.v_max {
            nv = self.v;
            self.v = self.v + 1;
        } else {
            if self.h < self.h_max && self.h + 1 < self.h_max {
                nv = 0;
                self.v = 1;
                self.h = self.h + 1;
                proof {
                    assert(self.v_max >= 1 || self.v > self.v_max);
                }
            } else {
                return None;
            }
        }
        Some(NodeIndex::new(Ix::new(self.h), Ix::new(nv)))
    }

    /// The number of indices left, both ways: the rest of the current row and the rows after
    /// it.
    pub fn size_hint(&self) -> (r: (usize, Option<usize>))
        requires
            self.wf(),
            self.spec_h() + 1 <= self.spec_h_max(),
        ensures
            r.0 == self.spec_v_max() * (self.spec_h_max() - self.spec_h() - 1) + (if self.spec_v()
                < self.spec_v_max() {
                self.spec_v_max() - self.spec_v()
            } else {
                0
            }),
            r.1 == Some(r.0),
    {
        let rest: usize = if self.v < self.v_max {
            self.v_max - self.v
        } else {
            0
        };
        proof {
            assert(self.v_max * (self.h_max - self.h - 1) + rest <= self.h_max * self.v_max) by (nonlinear_arith)
                requires
                    self.h + 1 <= self.h_max,
                    rest <= self.v_max,
            ;
        }
        let len: usize = self.v_max * (self.h_max - self.h - 1) + rest;
        (len, Some(len))
    }
}

/// Iterate all nodes of a [`SquareGraph`] with their weights, row after row.
pub struct NodeReferences<'a, N, E, Ix, S> {
    graph: &'a SquareGraph<N, E, Ix, S>,
    indices: NodeIndices<Ix>,
    k: usize,
}

impl<'a, N, E, Ix: IndexType, S: Shape> NodeReferences<'a, N, E, Ix, S> {
    /// The graph.
    pub closed spec fn spec_graph(&self) -> &'a SquareGraph<N, E, Ix, S> {
        self.graph
    }

    /// The number of nodes given.
    pub closed spec fn spec_count(&self) -> nat {
        self.k as nat
    }

    /// The count of nodes given matches the indices given.
    pub closed spec fn wf(&self) -> bool {
        &&& self.graph.wf()
        &&& self.indices.wf()
        &&& self.indices.spec_h_max() == self.graph.spec_h()
        &&& self.indices.spec_v_max() == self.graph.spec_v()
        &&& self.k == self.indices.spec_h() * self.indices.spec_v_max() + self.indices.spec_v()
        &&& self.k <= self.graph.spec_h() * self.graph.spec_v()
    }

    /// The next node and its weight, row after row; `None` after the last node.
    pub fn next(&mut self) -> (r: Option<(NodeIndex<Ix>, &'a N)>)
        requires
            old(self).wf(),
        ensures
            final(self).wf(),
            final(self).spec_graph() == old(self).spec_graph(),
            ({
                let g = old(self).spec_graph();
                let k = old(self).spec_count() as int;
                if k < g.spec_h() * g.spec_v() {
                    &&& final(self).spec_count() == k + 1
                    &&& r matches Some(x) && x.0 == node_at::<Ix>(k / g.spec_v() as int, k % g.spec_v() as int)
                        && *x.1 == g.spec_node_at(k / g.spec_v() as int, k % g.spec_v() as int)
                } else {
                    r is None
                }
            }),
    {
        let g = self.graph;
        proof {
            g.lemma_wf();
        }
        let arr = g.nodes();
        proof {
            arr.lemma_wf();
        }
        let all = arr.ref_1d();
        let ghost v = g.spec_v() as int;
        let ghost oh = self.indices.spec_h() as int;
        let ghost ov = self.indices.spec_v() as int;
        if self.k >= all.len() {
            return None;
        }
        proof {
            assert(v > 0) by (nonlinear_arith)
                requires
                    self.k < g.spec_h() * v,
                    0 <= v,
            ;
            if ov >= v {
                assert(oh + 1 < g.spec_h()) by (nonlinear_arith)
                    requires
                        self.k == oh * v + ov,
                        ov == v,
                        self.k < g.spec_h() * v,
                        0 <= oh,
                ;
                assert((oh + 1) * v == oh * v + v) by (nonlinear_arith);
            }
        }
        let n: &N = &all[self.k];
        let idx = match self.indices.next() {
            Some(i) => i,
            None => {
                proof {
                    assert(false);
                }
                return None;
            },
        };
        proof {
            let k = self.k as int;
            if ov < v {
                assert(k / v == oh && k % v == ov) by (nonlinear_arith)
                    requires
                        k == oh * v + ov,
                        0 <= ov < v,
                        0 <= oh,
                ;
            } else {
                assert(k / v == oh + 1 && k % v == 0) by (nonlinear_arith)
                    requires
                        k == oh * v + v,
                        0 < v,
                        0 <= oh,
                ;
            }
        }
        self.k = self.k + 1;
        proof {
            let k = self.k - 1;
            assert(idx == node_at::<Ix>(k as int / v, k as int % v));
            assert(*n == arr@[k as int]);
            assert(crate::fixedvec2d::index_2d(k as int / v, k as int % v, v) == k);
            assert(*n == arr.spec_at(k as int / v, k as int % v));
        }
        Some((idx, n))
    }

    /// The number of nodes left, both ways.
    pub fn size_hint(&self) -> (r: (usize, Option<usize>))
        requires
            self.wf(),
        ensures
            r.0 == self.spec_graph().spec_h() * self.spec_graph().spec_v() - self.spec_count(),
            r.1 == Some(r.0),
    {
        let left: usize = self.graph.node_count() - self.k;
        (left, Some(left))
    }

    /// The number of nodes left, consuming the iterator.
    pub fn count(self) -> (r: usize)
        requires
            self.wf(),
        ensures
            r == self.spec_graph().spec_h() * self.spec_graph().spec_v() - self.spec_count(),
    {
        self.graph.node_count() - self.k
    }
}

impl<N, E, Ix: IndexType, S: Shape> SquareGraph<N, E, Ix, S> {
    /// Iterates all indices of this graph, row after row.
    pub fn node_identifiers(&self) -> (r: NodeIndices<Ix>)
        requires
            self.wf(),
        ensures
            r.wf(),
            r.spec_h_max() == self.spec_h(),
            r.spec_v_max() == self.spec_v(),
            r.spec_h() == 0,
            r.spec_v() == 0,
    {
        proof {
            self.lemma_wf();
        }
        NodeIndices::new(self.horizontal_node_count(), self.vertical_node_count())
    }

    /// Iterates all nodes of this graph with their weights, row after row.
    pub fn node_references(&self) -> (r: NodeReferences<'_, N, E, Ix, S>)
        requires
            self.wf(),
        ensures
            r.wf(),
            r.spec_graph() == self,
            r.spec_count() == 0,
    {
        NodeReferences { graph: self, indices: self.node_identifiers(), k: 0 }
    }

    /// The number of nodes.
    pub fn node_count(&self) -> (r: usize)
        requires
            self.wf(),
        ensures
            r == self.spec_h() * self.spec_v(),
    {
        self.nodes().size()
    }

    /// The upper bound of the node indices: the number of nodes.
    pub fn node_bound(&self) -> (r: usize)
        requires
            self.wf(),
        ensures
            r == self.spec_h() * self.spec_v(),
    {
        self.node_count()
    }

    /// The index of a node, row after row.
    pub fn to_index(&self, a: NodeIndex<Ix>) -> (r: usize)
        requires
            a.spec_h() * self.spec_v() + a.spec_v() <= usize::MAX,
        ensures
            r == a.spec_h() * self.spec_v() + a.spec_v(),
    {
        let v: usize = self.vertical_node_count();
        let i: usize = a.horizontal.index();
        proof {
            assert(i * v <= i * v + a.spec_v());
        }
        i * v + a.vertical.index()
    }

    /// The node at an index, row after row. The vertical size must not be 0.
    pub fn from_index(&self, i: usize) -> (r: NodeIndex<Ix>)
        requires
            self.spec_v() > 0,
        ensures
            r == node_at::<Ix>(i as int / self.spec_v() as int, i as int % self.spec_v() as int),
    {
        let v: usize = self.vertical_node_count();
        NodeIndex::new(Ix::new(i / v), Ix::new(i % v))
    }
}

/// The index of a node of the graph leads back to that node, and the node at an index
/// below the node count has that index, when every position fits in the index type.
pub proof fn lemma_index_roundtrip<N, E, Ix: IndexType, S: Shape>(
    g: &SquareGraph<N, E, Ix, S>,
    a: NodeIndex<Ix>,
    i: int,
)
    requires
        g.wf(),
        a.spec_h() < g.spec_h(),
        a.spec_v() < g.spec_v(),
        0 <= i < g.spec_h() * g.spec_v(),
        g.spec_h() <= Ix::spec_max() + 1,
        g.spec_v() <= Ix::spec_max() + 1,
    ensures
        node_at::<Ix>(
            (a.spec_h() * g.spec_v() + a.spec_v()) as int / g.spec_v() as int,
            (a.spec_h() * g.spec_v() + a.spec_v()) as int % g.spec_v() as int,
        ) == a,
        node_at::<Ix>(i / g.spec_v() as int, i % g.spec_v() as int).spec_h() * g.spec_v()
            + node_at::<Ix>(i / g.spec_v() as int, i % g.spec_v() as int).spec_v() == i,
{
    let v = g.spec_v() as int;
    let h = g.spec_h() as int;
    let x = a.spec_h() * v + a.spec_v() as int;
    vstd::arithmetic::div_mod::lemma_fundamental_div_mod_converse(x, v, a.spec_h() as int, a.spec_v() as int);
    Ix::lemma_index(a.horizontal, 0);
    Ix::lemma_index(a.vertical, 0);
    vstd::arithmetic::div_mod::lemma_fundamental_div_mod(i, v);
    vstd::arithmetic::div_mod::lemma_mod_bound(i, v);
    vstd::arithmetic::div_mod::lemma_div_pos_is_pos(i, v);
    assert(i / v < h) by {
        vstd::arithmetic::div_mod::lemma_div_by_multiple_is_strongly_ordered(i, h * v, h, v);
        vstd::arithmetic::div_mod::lemma_div_multiples_vanish(h, v);
        assert(h * v == v * h) by (nonlinear_arith);
    }
    g.lemma_wf();
    assert(h <= h * v) by (nonlinear_arith)
        requires
            v >= 1,
            h >= 0,
    ;
    let q = i / v;
    let r = i % v;
    assert(q <= usize::MAX && r <= usize::MAX);
    Ix::lemma_index(Ix::spec_new(q as usize), q as usize);
    Ix::lemma_index(Ix::spec_new(r as usize), r as usize);
    assert(v * q == q * v) by (nonlinear_arith);
    assert(Ix::spec_new(q as usize).spec_index() == q);
    assert(Ix::spec_new(r as usize).spec_index() == r);
}

} // verus!
