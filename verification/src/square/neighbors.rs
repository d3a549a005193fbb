//! Iterating the neighbors of a node of a [`SquareGraph`].
use super::index::{IndexType, NodeIndex};
use super::{Shape, SquareGraph};
use crate::lattice_abstract::edges::EdgeDirection;
use std::marker::PhantomData;
use vstd::prelude::*;

verus! {

/// The neighbor of `n` tried at state `st` on a graph of `h` by `v` nodes that loops
/// horizontally when `lh` and vertically when `lv`: left, right, down and up in turn.
pub open spec fn square_neighbor<Ix: IndexType>(
    h: nat,
    v: nat,
    lh: bool,
    lv: bool,
    n: NodeIndex<Ix>,
    st: nat,
) -> Option<NodeIndex<Ix>> {
    let nh = n.spec_h();
    let nv = n.spec_v();
    if st == 0 {
        if nh != 0 {
            Some(NodeIndex { horizontal: Ix::spec_new((nh - 1) as usize), vertical: n.vertical })
        } else if lh {
            Some(NodeIndex { horizontal: Ix::spec_new((h - 1) as usize), vertical: n.vertical })
        } else {
            None
        }
    } else if st == 1 {
        if nh + 1 < h {
            Some(NodeIndex { horizontal: Ix::spec_new((nh + 1) as usize), vertical: n.vertical })
        } else if lh && nh + 1 == h {
            Some(NodeIndex { horizontal: Ix::spec_new(0), vertical: n.vertical })
        } else {
            None
        }
    } else if st == 2 {
        if nv != 0 {
            Some(NodeIndex { horizontal: n.horizontal, vertical: Ix::spec_new((nv - 1) as usize) })
        } else if lv {
            Some(NodeIndex { horizontal: n.horizontal, vertical: Ix::spec_new((v - 1) as usize) })
        } else {
            None
        }
    } else if st == 3 {
        if nv + 1 < v {
            Some(NodeIndex { horizontal: n.horizontal, vertical: Ix::spec_new((nv + 1) as usize) })
        } else if lv && nv + 1 == v {
            Some(NodeIndex { horizontal: n.horizontal, vertical: Ix::spec_new(0) })
        } else {
            None
        }
    } else {
        None
    }
}

/// Neighbors of a node of a [`SquareGraph`]: left, right, down and up in turn.
pub struct Neighbors<Ix, S> {
    node: NodeIndex<Ix>,
    state: usize,
    h: usize,
    v: usize,
    s: PhantomData<S>,
}

impl<Ix: IndexType, S: Shape> Neighbors<Ix, S> {
    /// The node whose neighbors are iterated.
    pub closed spec fn spec_node(&self) -> NodeIndex<Ix> {
        self.node
    }

    /// The next state to try.
    pub closed spec fn spec_state(&self) -> nat {
        self.state as nat
    }

    /// The horizontal size of the graph.
    pub closed spec fn spec_h(&self) -> nat {
        self.h as nat
    }

    /// The vertical size of the graph.
    pub closed spec fn spec_v(&self) -> nat {
        self.v as nat
    }

    /// The sizes allow every step: the graph has a column, and a row where it loops
    /// vertically from the bottom row.
    pub closed spec fn wf(&self) -> bool {
        &&& self.h > 0
        &&& (S::spec_loop_vertical() && self.node.spec_v() == 0 ==> self.v > 0)
    }

    /// The next neighbor, trying left, right, down and up in turn; `None` when no state is
    /// left.
    pub fn next(&mut self) -> (r: Option<NodeIndex<Ix>>)
        requires
            old(self).wf(),
        ensures
            final(self).wf(),
            final(self).spec_node() == old(self).spec_node(),
            final(self).spec_h() == old(self).spec_h(),
            final(self).spec_v() == old(self).spec_v(),
            r matches Some(t) ==> old(self).spec_state() < final(self).spec_state() && square_neighbor(
                old(self).spec_h(),
                old(self).spec_v(),
                S::spec_loop_horizontal(),
                S::spec_loop_vertical(),
                old(self).spec_node(),
                (final(self).spec_state() - 1) as nat,
            ) == Some(t),
            r is Some ==> forall|st: nat|
                old(self).spec_state() <= st < final(self).spec_state() - 1 ==> #[trigger] square_neighbor(
                    old(self).spec_h(),
                    old(self).spec_v(),
                    S::spec_loop_horizontal(),
                    S::spec_loop_vertical(),
                    old(self).spec_node(),
                    st,
                ) is None,
            r is None ==> forall|st: nat|
                old(self).spec_state() <= st ==> #[trigger] square_neighbor(
                    old(self).spec_h(),
                    old(self).spec_v(),
                    S::spec_loop_horizontal(),
                    S::spec_loop_vertical(),
                    old(self).spec_node(),
                    st,
                ) is None,
    {
        let ghost start = self.state as nat;
        let n = self.node;
        let nh: usize = n.horizontal.index();
        let nv: usize = n.vertical.index();
        let h: usize = self.h;
        let v: usize = self.v;
        proof {
            Ix::lemma_index(n.horizontal, 0);
            Ix::lemma_index(n.vertical, 0);
        }
        loop
            invariant
                self.node == n,
                self.h == h,
                self.v == v,
                n == old(self).node,
                h == old(self).h,
                v == old(self).v,
                self.wf(),
                start == old(self).state,
                start <= self.state,
                nh == n.spec_h(),
                nv == n.spec_v(),
                Ix::spec_new(nh) == n.horizontal,
                Ix::spec_new(nv) == n.vertical,
                forall|st: nat|
                    start <= st < self.state ==> #[trigger] square_neighbor(
                        h as nat,
                        v as nat,
                        S::spec_loop_horizontal(),
                        S::spec_loop_vertical(),
                        n,
                        st,
                    ) is None,
            decreases 5 - (if self.state <= 4 { self.state as int } else { 4 }),
        {
            let st: usize = self.state;
            let x: Option<NodeIndex<Ix>> = if st == 0 {
                if nh != 0 {
                    Some(n.left())
                } else if S::loop_horizontal() {
                    Some(NodeIndex { horizontal: Ix::new(h - 1), vertical: n.vertical })
                } else {
                    None
                }
            } else if st == 1 {
                if nh < h && nh + 1 < h {
                    Some(n.right())
                } else if S::loop_horizontal() && nh < h && nh + 1 == h {
                    Some(NodeIndex { horizontal: Ix::new(0), vertical: n.vertical })
                } else {
                    None
                }
            } else if st == 2 {
                if nv != 0 {
                    Some(n.down())
                } else if S::loop_vertical() {
                    Some(NodeIndex { horizontal: n.horizontal, vertical: Ix::new(v - 1) })
                } else {
                    None
                }
            } else if st == 3 {
                if nv < v && nv + 1 < v {
                    Some(n.up())
                } else if S::loop_vertical() && nv < v && nv + 1 == v {
                    Some(NodeIndex { horizontal: n.horizontal, vertical: Ix::new(0) })
                } else {
                    None
                }
            } else {
                proof {
                    assert forall|k: nat| start <= k implies #[trigger] square_neighbor(
                        h as nat,
                        v as nat,
                        S::spec_loop_horizontal(),
                        S::spec_loop_vertical(),
                        n,
                        k,
                    ) is None by {
                        if k < st {
                        }
                    }
                }
                return None;
            };
            assert(x == square_neighbor(h as nat, v as nat, S::spec_loop_horizontal(), S::spec_loop_vertical(), n, st as nat));
            self.state = self.state + 1;
            if let Some(t) = x {
                return Some(t);
            }
        }
    }

    /// Bounds of the number of neighbors left: at most the states left.
    pub fn size_hint(&self) -> (r: (usize, Option<usize>))
        requires
            self.spec_state() <= 4,
        ensures
            r == (0usize, Some((4 - self.spec_state()) as usize)),
    {
        (0, Some(4 - self.state))
    }
}

impl<N, E, Ix: IndexType, S: Shape> SquareGraph<N, E, Ix, S> {
    /// Iterates the neighbors of a node. Where the graph loops vertically with no row, the
    /// node must not be on the bottom row.
    pub fn neighbors(&self, a: NodeIndex<Ix>) -> (r: Neighbors<Ix, S>)
        requires
            self.wf(),
            S::spec_loop_vertical() && a.spec_v() == 0 ==> self.spec_v() > 0,
        ensures
            r.wf(),
            r.spec_node() == a,
            r.spec_state() == 0,
            r.spec_h() == self.spec_h(),
            r.spec_v() == self.spec_v(),
    {
        proof {
            self.lemma_wf();
        }
        Neighbors {
            node: a,
            state: 0,
            h: self.horizontal_node_count(),
            v: self.vertical_node_count(),
            s: PhantomData,
        }
    }

    /// Iterates the neighbors of a node; they are the same in both directions.
    pub fn neighbors_directed(&self, a: NodeIndex<Ix>, _d: EdgeDirection) -> (r: Neighbors<Ix, S>)
        requires
            self.wf(),
            S::spec_loop_vertical() && a.spec_v() == 0 ==> self.spec_v() > 0,
        ensures
            r.wf(),
            r.spec_node() == a,
            r.spec_state() == 0,
            r.spec_h() == self.spec_h(),
            r.spec_v() == self.spec_v(),
    {
        self.neighbors(a)
    }
}

} // verus!
