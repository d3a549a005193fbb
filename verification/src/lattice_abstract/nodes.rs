//! Iterating the nodes of a [`LatticeGraph`], row after row.
use super::shapes::{index_to_offset_spec, offset, offset_to_index_spec, Offset, Shape};
use super::LatticeGraph;
use crate::fixedvec2d::lemma_index_2d;
use vstd::prelude::*;

verus! {

/// The offset after `o` in row-major order on a lattice with `v` offsets in each row.
pub open spec fn next_offset(o: Offset, v: nat) -> Offset {
    if o.vertical + 1 >= v {
        offset(o.horizontal + 1, 0)
    } else {
        offset(o.horizontal as int, o.vertical + 1)
    }
}

pub(crate) fn advance(o: Offset, h: usize, v: usize) -> (r: Offset)
    requires
        o.horizontal < h,
        o.vertical < v || o.vertical == 0,
    ensures
        r == next_offset(o, v as nat),
{
    if o.vertical + 1 >= v {
        Offset::new(o.horizontal + 1, 0)
    } else {
        Offset::new(o.horizontal, o.vertical + 1)
    }
}

/// Iterate all coordinates of a [`LatticeGraph`], row after row.
#[derive(Clone, Debug)]
pub struct NodeIndices<S> {
    current_offset: Offset,
    s: S,
}

impl<S: Shape> NodeIndices<S> {
    /// The shape whose coordinates are iterated.
    pub closed spec fn spec_shape(&self) -> S {
        self.s
    }

    /// The offset of the next coordinate.
    pub closed spec fn spec_current(&self) -> Offset {
        self.current_offset
    }

    /// The next offset lies in the lattice, on the first offset of a row, or past the last row.
    pub closed spec fn wf(&self) -> bool {
        &&& self.s.spec_valid()
        &&& self.s.spec_horizontal() * self.s.spec_vertical() <= usize::MAX
        &&& self.current_offset.horizontal <= self.s.spec_horizontal()
        &&& (self.current_offset.vertical < self.s.spec_vertical() || self.current_offset.vertical == 0)
    }

    /// Iterates the coordinates of a shape from the first offset.
    pub fn new(s: S) -> (r: Self)
        requires
            s.spec_valid(),
            s.spec_horizontal() * s.spec_vertical() <= usize::MAX,
        ensures
            r.wf(),
            r.spec_shape() == s,
            r.spec_current() == offset(0, 0),
    {
        NodeIndices { current_offset: Offset::new(0, 0), s }
    }

    /// The coordinate stored at the next offset, then the offset moves on in row-major
    /// order; `None` once the offsets are past the last row.
    pub fn next(&mut self) -> (r: Option<S::Coordinate>)
        requires
            old(self).wf(),
        ensures
            final(self).wf(),
            final(self).spec_shape() == old(self).spec_shape(),
            old(self).spec_current().horizontal >= old(self).spec_shape().spec_horizontal() ==> r is None
                && final(self).spec_current() == old(self).spec_current(),
            old(self).spec_current().horizontal < old(self).spec_shape().spec_horizontal() ==> r == Some(
                old(self).spec_shape().spec_from_offset(old(self).spec_current()),
            ) && final(self).spec_current() == next_offset(
                old(self).spec_current(),
                old(self).spec_shape().spec_vertical(),
            ),
    {
        let h: usize = self.s.horizontal();
        let v: usize = self.s.vertical();
        if self.current_offset.horizontal >= h {
            return None;
        }
        proof {
            self.s.lemma_valid_from_offset(self.current_offset);
        }
        let coord = self.s.from_offset(self.current_offset);
        self.current_offset = advance(self.current_offset, h, v);
        Some(coord)
    }

    /// Bounds of the number of coordinates left: the offsets left in the lattice, both ways.
    pub fn size_hint(&self) -> (r: (usize, Option<usize>))
        requires
            self.wf(),
        ensures
            r.1 == Some(r.0),
            r.0 == (if self.spec_current().horizontal < self.spec_shape().spec_horizontal() {
                self.spec_shape().spec_horizontal() * self.spec_shape().spec_vertical()
                    - offset_to_index_spec(self.spec_current(), self.spec_shape().spec_vertical() as int)
            } else {
                0
            }),
    {
        let h: usize = self.s.horizontal();
        let v: usize = self.s.vertical();
        let c = self.current_offset;
        let remaining: usize = if c.horizontal < h {
            proof {
                assert((h - c.horizontal - 1) * v + (v - c.vertical) == h * v - (c.horizontal * v + c.vertical))
                    by (nonlinear_arith)
                    requires
                        c.horizontal < h,
                        c.vertical <= v,
                ;
                assert((h - c.horizontal - 1) * v <= h * v) by (nonlinear_arith)
                    requires
                        c.horizontal < h,
                ;
            }
            let remaining_in_current_row: usize = v - c.vertical;
            let remaining_rows: usize = h - c.horizontal - 1;
            remaining_in_current_row + remaining_rows * v
        } else {
            0
        };
        (remaining, Some(remaining))
    }
}

/// Iterate all nodes of a [`LatticeGraph`] with their weights, row after row.
pub struct NodeReferences<'a, N, E, S: Shape> {
    graph: &'a LatticeGraph<N, E, S>,
    current_offset: Offset,
}

impl<'a, N, E, S: Shape> NodeReferences<'a, N, E, S> {
    /// The graph whose nodes are iterated.
    pub closed spec fn spec_graph(&self) -> &'a LatticeGraph<N, E, S> {
        self.graph
    }

    /// The offset of the next node.
    pub closed spec fn spec_current(&self) -> Offset {
        self.current_offset
    }

    /// The graph is well formed and the next offset is in the lattice or past its last row.
    pub closed spec fn wf(&self) -> bool {
        &&& self.graph.wf()
        &&& self.current_offset.horizontal <= self.graph.spec_shape().spec_horizontal()
        &&& (self.current_offset.vertical < self.graph.spec_shape().spec_vertical()
            || self.current_offset.vertical == 0)
    }

    /// The coordinate and weight of the node at the next offset, then the offset moves on in
    /// row-major order; `None` once the offsets are past the last node.
    pub fn next(&mut self) -> (r: Option<(S::Coordinate, &'a N)>)
        requires
            old(self).wf(),
        ensures
            final(self).wf(),
            final(self).spec_graph() == old(self).spec_graph(),
            ({
                let g = old(self).spec_graph();
                let o = old(self).spec_current();
                if o.horizontal < g.spec_shape().spec_horizontal() && o.vertical < g.spec_shape().spec_vertical() {
                    &&& r matches Some(x) && x.0 == g.spec_shape().spec_from_offset(o) && *x.1 == g.spec_node_at(o)
                    &&& final(self).spec_current() == next_offset(o, g.spec_shape().spec_vertical())
                } else {
                    r is None && final(self).spec_current() == o
                }
            }),
    {
        let g = self.graph;
        let h: usize = g.shape().horizontal();
        let v: usize = g.shape().vertical();
        let o = self.current_offset;
        if o.horizontal >= h || o.vertical >= v {
            return None;
        }
        let coord = g.coordinate_at(o);
        let node_ref = g.node_weight_unchecked_raw(o);
        self.current_offset = advance(o, h, v);
        Some((coord, node_ref))
    }
}

impl<N, E, S: Shape> LatticeGraph<N, E, S> {
    /// The coordinate stored at an offset inside the lattice.
    pub(crate) fn coordinate_at(&self, o: Offset) -> (r: S::Coordinate)
        requires
            self.wf(),
            o.horizontal < self.spec_shape().spec_horizontal(),
            o.vertical < self.spec_shape().spec_vertical(),
        ensures
            r == self.spec_shape().spec_from_offset(o),
    {
        proof {
            self.lemma_wf();
            self.spec_shape().lemma_valid_from_offset(o);
        }
        self.shape().from_offset(o)
    }

    /// Iterates all coordinates of this graph, row after row.
    pub fn node_identifiers(&self) -> (r: NodeIndices<S>)
        where
            S: Copy,
        requires
            self.wf(),
        ensures
            r.wf(),
            r.spec_shape() == self.spec_shape(),
            r.spec_current() == offset(0, 0),
    {
        proof {
            self.lemma_wf();
        }
        NodeIndices::new(*self.shape())
    }

    /// Iterates all nodes of this graph with their weights, row after row.
    pub fn node_references(&self) -> (r: NodeReferences<'_, N, E, S>)
        requires
            self.wf(),
        ensures
            r.wf(),
            r.spec_graph() == self,
            r.spec_current() == offset(0, 0),
    {
        NodeReferences { graph: self, current_offset: Offset::new(0, 0) }
    }
}

} // verus!
