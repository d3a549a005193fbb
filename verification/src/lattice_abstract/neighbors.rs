//! Iterating the neighbors of a node of a [`LatticeGraph`].
use super::edges::EdgeDirection;
use super::shapes::{Axis, AxisDirection, Shape};
use super::LatticeGraph;
use vstd::prelude::*;

verus! {

/// Neighbors of a node: the coordinates reached by moving one step from it, in the order of
/// the direction indices.
pub struct Neighbors<'a, N, E, S: Shape> {
    graph: &'a LatticeGraph<N, E, S>,
    node: S::Coordinate,
    state: usize,
}

impl<'a, N, E, S: Shape> Neighbors<'a, N, E, S> {
    /// The graph.
    pub closed spec fn spec_graph(&self) -> &'a LatticeGraph<N, E, S> {
        self.graph
    }

    /// The node whose neighbors are iterated.
    pub closed spec fn spec_node(&self) -> S::Coordinate {
        self.node
    }

    /// The index of the next direction to try.
    pub closed spec fn spec_state(&self) -> nat {
        self.state as nat
    }

    /// The next direction index is at most the number of directions.
    pub closed spec fn wf(&self) -> bool {
        self.state <= <S::Axis as Axis>::DIRECTED_COUNT
    }

    /// The coordinate reached in the next direction, by index, in which the node can move.
    /// `None` when no direction is left.
    pub fn next(&mut self) -> (r: Option<S::Coordinate>)
        requires
            old(self).wf(),
        ensures
            final(self).wf(),
            final(self).spec_graph() == old(self).spec_graph(),
            final(self).spec_node() == old(self).spec_node(),
            r matches Some(t) ==> old(self).spec_state() < final(self).spec_state() && exists|
                d: <S::Axis as Axis>::Direction,
            |
                #![trigger d.spec_dir_index()]
                d.spec_dir_index() == final(self).spec_state() - 1
                    && old(self).spec_graph().spec_shape().spec_move_coord(old(self).spec_node(), d) == Some(t),
            r is Some ==> forall|d: <S::Axis as Axis>::Direction|
                old(self).spec_state() <= #[trigger] d.spec_dir_index() < final(self).spec_state() - 1
                    ==> old(self).spec_graph().spec_shape().spec_move_coord(old(self).spec_node(), d) is None,
            r is None ==> final(self).spec_state() == <S::Axis as Axis>::DIRECTED_COUNT,
            r is None ==> forall|d: <S::Axis as Axis>::Direction|
                old(self).spec_state() <= #[trigger] d.spec_dir_index()
                    ==> old(self).spec_graph().spec_shape().spec_move_coord(old(self).spec_node(), d) is None,
    {
        proof {
            <S::Axis as Axis>::lemma_counts();
        }
        let n: usize = <S::Axis as Axis>::DIRECTED_COUNT;
        let ghost start = self.state;
        while self.state < n
            invariant
                n == <S::Axis as Axis>::DIRECTED_COUNT,
                n == <<S::Axis as Axis>::Direction as AxisDirection>::spec_dir_count(),
                start <= self.state <= n,
                start == old(self).state,
                self.graph == old(self).graph,
                self.node == old(self).node,
                forall|d: <S::Axis as Axis>::Direction|
                    start <= #[trigger] d.spec_dir_index() < self.state
                        ==> self.graph.spec_shape().spec_move_coord(self.node, d) is None,
            decreases n - self.state,
        {
            let d = <<S::Axis as Axis>::Direction as AxisDirection>::dir_from_index_unchecked(self.state);
            let ghost st = self.state;
            self.state = self.state + 1;
            match self.graph.shape().move_coord(self.node, d) {
                Ok(t) => {
                    proof {
                        assert(d.spec_dir_index() == self.state - 1);
                    }
                    return Some(t);
                },
                Err(_) => {
                    proof {
                        assert forall|d2: <S::Axis as Axis>::Direction|
                            start <= #[trigger] d2.spec_dir_index() < self.state
                                implies self.graph.spec_shape().spec_move_coord(self.node, d2) is None by {
                            if d2.spec_dir_index() == st {
                                <<S::Axis as Axis>::Direction as AxisDirection>::lemma_dir_index_injective(d, d2);
                            }
                        }
                    }
                },
            }
        }
        proof {
            assert forall|d: <S::Axis as Axis>::Direction|
                start <= #[trigger] d.spec_dir_index()
                    implies self.graph.spec_shape().spec_move_coord(self.node, d) is None by {
                <<S::Axis as Axis>::Direction as AxisDirection>::lemma_dir_index_bound(d);
            }
        }
        None
    }

    /// Bounds of the number of neighbors left: at most the directions left.
    pub fn size_hint(&self) -> (r: (usize, Option<usize>))
        requires
            self.wf(),
        ensures
            r == (0usize, Some((<S::Axis as Axis>::DIRECTED_COUNT - self.spec_state()) as usize)),
    {
        (0, Some(<S::Axis as Axis>::DIRECTED_COUNT - self.state))
    }
}

impl<N, E, S: Shape> LatticeGraph<N, E, S> {
    /// Iterates the neighbors of a node.
    pub fn neighbors(&self, a: S::Coordinate) -> (r: Neighbors<'_, N, E, S>)
        ensures
            r.wf(),
            r.spec_graph() == self,
            r.spec_node() == a,
            r.spec_state() == 0,
    {
        Neighbors { graph: self, node: a, state: 0 }
    }

    /// Iterates the neighbors of a node; the neighbors are the same in both directions.
    pub fn neighbors_directed(&self, a: S::Coordinate, _d: EdgeDirection) -> (r: Neighbors<'_, N, E, S>)
        ensures
            r.wf(),
            r.spec_graph() == self,
            r.spec_node() == a,
            r.spec_state() == 0,
    {
        self.neighbors(a)
    }
}

} // verus!
