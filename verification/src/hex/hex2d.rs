//! Shape meant for a hex graph whose coordinates are those of the `hex2d` crate.
use crate::lattice_abstract::shapes::LatticeSize;
use std::marker::PhantomData;
use vstd::prelude::*;

verus! {

/// Shape of `h` by `v` nodes for a hex graph with `hex2d` coordinates of integer type `I`.
#[derive(Debug, Copy)]
pub struct Hex2dShape<Base, I = i32, H = usize, V = usize> {
    h: H,
    v: V,
    ipd: PhantomData<I>,
    bpd: PhantomData<Base>,
}

impl<B, I, H: Copy, V: Copy> Clone for Hex2dShape<B, I, H, V> {
    fn clone(&self) -> (r: Self)
        ensures
            r == *self,
    {
        Hex2dShape { h: self.h, v: self.v, ipd: PhantomData, bpd: PhantomData }
    }
}

impl<B, I, H, V> Hex2dShape<B, I, H, V> {
    /// The horizontal size.
    pub closed spec fn h(&self) -> H {
        self.h
    }

    /// The vertical size.
    pub closed spec fn v(&self) -> V {
        self.v
    }

    /// Create a new shape of `h` by `v` nodes.
    pub fn new(h: H, v: V) -> (r: Self)
        ensures
            r.h() == h,
            r.v() == v,
    {
        Self { h, v, ipd: PhantomData, bpd: PhantomData }
    }
}

impl<B, I, H: LatticeSize, V: LatticeSize> Hex2dShape<B, I, H, V> {
    /// Horizontal node count.
    pub fn horizontal(&self) -> (r: usize)
        ensures
            r == self.h().spec_size(),
    {
        self.h.size()
    }

    /// Vertical node count.
    pub fn vertical(&self) -> (r: usize)
        ensures
            r == self.v().spec_size(),
    {
        self.v.size()
    }

    /// The number of nodes; it must fit in `usize`.
    pub fn node_count(&self) -> (r: usize)
        requires
            self.h().spec_size() * self.v().spec_size() <= usize::MAX,
        ensures
            r == self.h().spec_size() * self.v().spec_size(),
    {
        self.horizontal() * self.vertical()
    }
}

} // verus!
