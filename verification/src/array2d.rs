//! A 2d array whose horizontal size is not 0, stored row after row on one [`Vec`].
use crate::array2::Array2;
use crate::fixedvec2d::index_2d;
use vstd::prelude::*;

verus! {

/// 2d array with a horizontal size that is not 0 and a vertical size, stored row after row.
#[derive(Debug, PartialEq, Eq, Hash)]
pub struct Array2D<T> {
    inner: Array2<T>,
}

impl<T: Clone> Clone for Array2D<T> {
    /// A copy with the same sizes, each value cloned.
    fn clone(&self) -> (r: Self)
        ensures
            r.spec_h() == self.spec_h(),
            r.spec_v() == self.spec_v(),
            r@.len() == self@.len(),
            forall|i: int| 0 <= i < self@.len() ==> cloned::<T>(self@[i], #[trigger] r@[i]),
            self.wf() ==> r.wf(),
    {
        Array2D { inner: self.inner.clone() }
    }
}

impl<T> View for Array2D<T> {
    type V = Seq<T>;

    /// All values, row after row.
    closed spec fn view(&self) -> Seq<T> {
        self.inner@
    }
}

impl<T> Array2D<T> {
    /// The horizontal size.
    pub closed spec fn spec_h(&self) -> nat {
        self.inner.spec_h()
    }

    /// The vertical size.
    pub closed spec fn spec_v(&self) -> nat {
        self.inner.spec_v()
    }

    /// The horizontal size is not 0 and there are `h * v` values.
    pub closed spec fn wf(&self) -> bool {
        self.inner.wf() && self.inner.spec_h() > 0
    }

    /// Facts of a well-formed array.
    pub proof fn lemma_wf(&self)
        requires
            self.wf(),
        ensures
            self.spec_h() > 0,
            self@.len() == self.spec_h() * self.spec_v(),
            self.spec_h() * self.spec_v() <= usize::MAX,
    {
        self.inner.lemma_wf();
    }

    /// The value at `(i, j)`.
    pub open spec fn spec_at(&self, i: int, j: int) -> T {
        self@[index_2d(i, j, self.spec_v() as int)]
    }

    /// Creates an array from a vec holding the values row after row.
    /// `h` must not be 0 and the length of the vec must be `h * v`.
    pub fn from_raw(h: usize, v: usize, vec: Vec<T>) -> (r: Self)
        requires
            h > 0,
            h * v == vec@.len(),
        ensures
            r.wf(),
            r.spec_h() == h,
            r.spec_v() == v,
            r@ == vec@,
    {
        Array2D { inner: Array2::from_raw(h, v, vec) }
    }

    /// Creates an array whose value at `(i, j)` is `f(i, j)`. `h` must not be 0.
    pub fn new<F: Fn(usize, usize) -> T>(h: usize, v: usize, f: F) -> (r: Self)
        requires
            h > 0,
            h * v <= usize::MAX,
            forall|i: usize, j: usize| i < h && j < v ==> call_requires(f, (i, j)),
        ensures
            r.wf(),
            r.spec_h() == h,
            r.spec_v() == v,
            forall|i: usize, j: usize|
                i < h && j < v ==> call_ensures(f, (i, j), #[trigger] r.spec_at(i as int, j as int)),
    {
        let inner = Array2::new(h, v, f);
        let r = Array2D { inner };
        proof {
            assert forall|i: usize, j: usize| i < h && j < v implies call_ensures(
                f,
                (i, j),
                #[trigger] r.spec_at(i as int, j as int),
            ) by {
                assert(r.spec_at(i as int, j as int) == r.inner.spec_at(i as int, j as int));
            }
        }
        r
    }

    /// Returns the horizontal size.
    pub fn h_size(&self) -> (r: usize)
        ensures
            r == self.spec_h(),
    {
        self.inner.h_size()
    }

    /// Returns the vertical size.
    pub fn v_size(&self) -> (r: usize)
        ensures
            r == self.spec_v(),
    {
        self.inner.v_size()
    }

    /// Returns the number of values.
    pub fn size(&self) -> (r: usize)
        requires
            self.wf(),
        ensures
            r == self.spec_h() * self.spec_v(),
    {
        self.inner.size()
    }

    /// Returns the slice of all values, row after row.
    pub fn ref_1d(&self) -> (r: &[T])
        ensures
            r@ == self@,
    {
        self.inner.ref_1d()
    }

    /// Returns the rows of this array.
    pub fn ref_2d(&self) -> (r: Vec<&[T]>)
        requires
            self.wf(),
        ensures
            r@.len() == self.spec_h(),
            forall|i: int|
                0 <= i < self.spec_h() ==> #[trigger] r@[i]@ == self@.subrange(
                    index_2d(i, 0, self.spec_v() as int),
                    index_2d(i, 0, self.spec_v() as int) + self.spec_v(),
                ),
    {
        self.inner.ref_2d()
    }

    /// Returns the mutable slice of all values, row after row.
    pub fn mut_1d(&mut self) -> (r: &mut [T])
        ensures
            r@ == old(self)@,
            final(self)@ == final(r)@,
            final(self).spec_h() == old(self).spec_h(),
            final(self).spec_v() == old(self).spec_v(),
    {
        self.inner.mut_1d()
    }

    /// Returns the underlying [`Vec`] consuming this array.
    pub fn into_raw(self) -> (r: Vec<T>)
        ensures
            r@ == self@,
    {
        self.inner.into_raw()
    }
}

} // verus!
