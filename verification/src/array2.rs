//! A 2d array whose horizontal size may be 0. Data is stored row after row on one [`Vec`].
use crate::fixedvec2d::{index_2d, lemma_index_2d, lemma_row_2d};
use vstd::prelude::*;

verus! {

/// 2d array with a horizontal and a vertical size, stored row after row.
#[derive(Debug, PartialEq, Eq, Hash)]
pub struct Array2<T> {
    data: Vec<T>,
    h: usize,
    v: usize,
}

impl<T: Clone> Clone for Array2<T> {
    /// A copy with the same sizes, each value cloned.
    fn clone(&self) -> (r: Self)
        ensures
            r.spec_h() == self.spec_h(),
            r.spec_v() == self.spec_v(),
            r@.len() == self@.len(),
            forall|i: int| 0 <= i < self@.len() ==> cloned::<T>(self@[i], #[trigger] r@[i]),
            self.wf() ==> r.wf(),
    {
        Array2 { data: self.data.clone(), h: self.h, v: self.v }
    }
}

impl<T> View for Array2<T> {
    type V = Seq<T>;

    /// All values, row after row.
    closed spec fn view(&self) -> Seq<T> {
        self.data@
    }
}

impl<T> Array2<T> {
    /// The horizontal size.
    pub closed spec fn spec_h(&self) -> nat {
        self.h as nat
    }

    /// The vertical size.
    pub closed spec fn spec_v(&self) -> nat {
        self.v as nat
    }

    /// There are `h * v` values.
    pub closed spec fn wf(&self) -> bool {
        &&& self.h * self.v <= usize::MAX
        &&& self.data@.len() == self.h * self.v
    }

    /// Facts of a well-formed array.
    pub proof fn lemma_wf(&self)
        requires
            self.wf(),
        ensures
            self@.len() == self.spec_h() * self.spec_v(),
            self.spec_h() * self.spec_v() <= usize::MAX,
    {
    }

    /// The value at `(i, j)`.
    pub open spec fn spec_at(&self, i: int, j: int) -> T {
        self@[index_2d(i, j, self.spec_v() as int)]
    }

    /// Creates an array from a vec holding the values row after row.
    /// The length of the vec must be `h * v`.
    pub fn from_raw(h: usize, v: usize, vec: Vec<T>) -> (r: Self)
        requires
            h * v == vec@.len(),
        ensures
            r.wf(),
            r.spec_h() == h,
            r.spec_v() == v,
            r@ == vec@,
    {
        let len: usize = vec.len();
        Array2 { data: vec, h, v }
    }

    /// Creates an array whose value at `(i, j)` is `f(i, j)`.
    pub fn new<F: Fn(usize, usize) -> T>(h: usize, v: usize, f: F) -> (r: Self)
        requires
            h * v <= usize::MAX,
            forall|i: usize, j: usize| i < h && j < v ==> call_requires(f, (i, j)),
        ensures
            r.wf(),
            r.spec_h() == h,
            r.spec_v() == v,
            forall|i: usize, j: usize|
                i < h && j < v ==> call_ensures(f, (i, j), #[trigger] r.spec_at(i as int, j as int)),
    {
        let mut data: Vec<T> = Vec::new();
        let mut i: usize = 0;
        while i < h
            invariant
                h * v <= usize::MAX,
                i <= h,
                data@.len() == i * v,
                forall|i: usize, j: usize| i < h && j < v ==> call_requires(f, (i, j)),
                forall|a: usize, b: usize|
                    a < i && b < v ==> call_ensures(
                        f,
                        (a, b),
                        #[trigger] data@[index_2d(a as int, b as int, v as int)],
                    ),
            decreases h - i,
        {
            let mut j: usize = 0;
            while j < v
                invariant
                    h * v <= usize::MAX,
                    i < h,
                    j <= v,
                    data@.len() == i * v + j,
                    forall|i: usize, j: usize| i < h && j < v ==> call_requires(f, (i, j)),
                    forall|a: usize, b: usize|
                        a < i && b < v ==> call_ensures(
                            f,
                            (a, b),
                            #[trigger] data@[index_2d(a as int, b as int, v as int)],
                        ),
                    forall|b: usize|
                        b < j ==> call_ensures(
                            f,
                            (i, b),
                            #[trigger] data@[index_2d(i as int, b as int, v as int)],
                        ),
                decreases v - j,
            {
                proof {
                    lemma_index_2d(i as int, j as int, h as int, v as int);
                }
                let x = f(i, j);
                let ghost old_data = data@;
                data.push(x);
                proof {
                    assert forall|a: usize, b: usize| a < i && b < v implies call_ensures(
                        f,
                        (a, b),
                        #[trigger] data@[index_2d(a as int, b as int, v as int)],
                    ) by {
                        lemma_index_2d(a as int, b as int, i as int, v as int);
                        assert(data@[index_2d(a as int, b as int, v as int)] == old_data[index_2d(
                            a as int,
                            b as int,
                            v as int,
                        )]);
                    }
                }
                j = j + 1;
            }
            proof {
                assert((i + 1) * v == i * v + v) by (nonlinear_arith);
            }
            i = i + 1;
        }
        Array2 { data, h, v }
    }

    /// Returns the horizontal size.
    pub fn h_size(&self) -> (r: usize)
        ensures
            r == self.spec_h(),
    {
        self.h
    }

    /// Returns the vertical size.
    pub fn v_size(&self) -> (r: usize)
        ensures
            r == self.spec_v(),
    {
        self.v
    }

    /// Returns the number of values.
    pub fn size(&self) -> (r: usize)
        requires
            self.wf(),
        ensures
            r == self.spec_h() * self.spec_v(),
    {
        self.h * self.v
    }

    /// Returns the slice of all values, row after row.
    pub fn ref_1d(&self) -> (r: &[T])
        ensures
            r@ == self@,
    {
        self.data.as_slice()
    }

    /// Returns the rows of this array.
    pub fn ref_2d(&self) -> (r: Vec<&[T]>)
        requires
            self.wf(),
        ensures
            r@.len() == self.spec_h(),
            forall|i: int|
                0 <= i < self.spec_h() ==> #[trigger] r@[i]@ == self@.subrange(
                    index_2d(i, 0, self.spec_v() as int),
                    index_2d(i, 0, self.spec_v() as int) + self.spec_v(),
                ),
    {
        let h: usize = self.h;
        let v: usize = self.v;
        let all: &[T] = self.data.as_slice();
        let mut rows: Vec<&[T]> = Vec::new();
        let mut i: usize = 0;
        while i < h
            invariant
                i <= h,
                h == self.h,
                v == self.v,
                self.wf(),
                all@ == self.data@,
                rows@.len() == i,
                forall|k: int|
                    0 <= k < i ==> #[trigger] rows@[k]@ == self@.subrange(
                        index_2d(k, 0, v as int),
                        index_2d(k, 0, v as int) + v,
                    ),
            decreases h - i,
        {
            proof {
                lemma_row_2d(i as int, h as int, v as int);
            }
            let start: usize = i * v;
            let row: &[T] = &all[start..start + v];
            rows.push(row);
            i = i + 1;
        }
        rows
    }

    /// Returns the mutable slice of all values, row after row.
    pub fn mut_1d(&mut self) -> (r: &mut [T])
        ensures
            r@ == old(self)@,
            final(self)@ == final(r)@,
            final(self).spec_h() == old(self).spec_h(),
            final(self).spec_v() == old(self).spec_v(),
    {
        self.data.as_mut_slice()
    }

    /// The value at `index`, or `None` outside the array.
    pub fn get(&self, index: (usize, usize)) -> (r: Option<&T>)
        requires
            self.wf(),
        ensures
            r is Some <==> index.0 < self.spec_h() && index.1 < self.spec_v(),
            r matches Some(x) ==> *x == self.spec_at(index.0 as int, index.1 as int),
    {
        if index.0 < self.h && index.1 < self.v {
            proof {
                lemma_index_2d(index.0 as int, index.1 as int, self.h as int, self.v as int);
            }
            Some(&self.data[index.0 * self.v + index.1])
        } else {
            None
        }
    }

    /// The value at `index` to change, or `None` outside the array.
    pub fn get_mut(&mut self, index: (usize, usize)) -> (r: Option<&mut T>)
        requires
            old(self).wf(),
        ensures
            final(self).wf(),
            final(self).spec_h() == old(self).spec_h(),
            final(self).spec_v() == old(self).spec_v(),
            r is Some <==> index.0 < old(self).spec_h() && index.1 < old(self).spec_v(),
            r matches Some(x) ==> *x == old(self).spec_at(index.0 as int, index.1 as int)
                && final(self)@ == old(self)@.update(
                index_2d(index.0 as int, index.1 as int, old(self).spec_v() as int),
                *final(x),
            ),
            r is None ==> final(self)@ == old(self)@,
    {
        if index.0 < self.h && index.1 < self.v {
            proof {
                lemma_index_2d(index.0 as int, index.1 as int, self.h as int, self.v as int);
            }
            let k: usize = index.0 * self.v + index.1;
            Some(&mut self.data[k])
        } else {
            None
        }
    }

    /// Returns the underlying [`Vec`] consuming this array.
    pub fn into_raw(self) -> (r: Vec<T>)
        ensures
            r@ == self@,
    {
        self.data
    }
}

} // verus!
