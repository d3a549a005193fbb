//! Inner storage of the lattice graph: a fixed 2d vector with a horizontal and a vertical
//! axis. Data is stored row after row on one [`Vec`]; the horizontal size must not be 0.
use vstd::prelude::*;

verus! {

/// Raw fixed 2d vector. It has two axes, horizontal and vertical. Data is stored on one [`Vec`].
/// Horizontal size must not be 0.
#[derive(Debug, PartialEq, Eq, Hash)]
pub struct FixedVec2D<T> {
    data: Vec<T>,
    h: usize,
    v: usize,
}

impl<T: Clone> Clone for FixedVec2D<T> {
    /// A copy with the same sizes, each value cloned.
    fn clone(&self) -> (r: Self)
        ensures
            r.spec_h() == self.spec_h(),
            r.spec_v() == self.spec_v(),
            r@.len() == self@.len(),
            forall|i: int| 0 <= i < self@.len() ==> cloned::<T>(self@[i], #[trigger] r@[i]),
            self.wf() ==> r.wf(),
    {
        FixedVec2D { data: self.data.clone(), h: self.h, v: self.v }
    }
}

impl<T> View for FixedVec2D<T> {
    type V = Seq<T>;

    /// All values, row after row.
    closed spec fn view(&self) -> Seq<T> {
        self.data@
    }
}

/// The storage index of `(i, j)` with `v` values per row.
pub open spec fn index_2d(i: int, j: int, v: int) -> int {
    i * v + j
}

/// `(i, j)` with `i < h` and `j < v` lies below `h * v`, row after row.
pub proof fn lemma_index_2d(i: int, j: int, h: int, v: int)
    requires
        0 <= i < h,
        0 <= j < v,
    ensures
        0 <= index_2d(i, j, v),
        index_2d(i, 0, v) + v <= h * v,
        index_2d(i, j, v) < h * v,
{
    assert(i * v + j < h * v && (i + 1) * v <= h * v) by (nonlinear_arith)
        requires
            0 <= i < h,
            0 <= j < v,
    ;
    assert((i + 1) * v == i * v + v) by (nonlinear_arith);
}

/// Two positions inside rows of `v` values share a storage index only when they are equal.
pub proof fn lemma_index_2d_injective(i1: int, j1: int, i2: int, j2: int, v: int)
    requires
        0 <= i1,
        0 <= i2,
        0 <= j1 < v,
        0 <= j2 < v,
        index_2d(i1, j1, v) == index_2d(i2, j2, v),
    ensures
        i1 == i2,
        j1 == j2,
{
    if i1 < i2 {
        assert((i1 + 1) * v <= i2 * v) by (nonlinear_arith)
            requires
                i1 + 1 <= i2,
                0 <= v,
        ;
        assert((i1 + 1) * v == i1 * v + v) by (nonlinear_arith);
    } else if i2 < i1 {
        assert((i2 + 1) * v <= i1 * v) by (nonlinear_arith)
            requires
                i2 + 1 <= i1,
                0 <= v,
        ;
        assert((i2 + 1) * v == i2 * v + v) by (nonlinear_arith);
    }
}

/// Every other position inside an `h` by `v` array has another storage index than `(i, j)`.
pub proof fn lemma_index_2d_others(i: int, j: int, h: int, v: int)
    requires
        0 <= i < h,
        0 <= j < v,
    ensures
        forall|a: int, b: int|
            0 <= a < h && 0 <= b < v && (a != i || b != j) ==> #[trigger] index_2d(a, b, v)
                != index_2d(i, j, v) && 0 <= index_2d(a, b, v) < h * v,
{
    assert forall|a: int, b: int|
        0 <= a < h && 0 <= b < v && (a != i || b != j) implies #[trigger] index_2d(a, b, v)
            != index_2d(i, j, v) && 0 <= index_2d(a, b, v) < h * v by {
        lemma_index_2d(a, b, h, v);
        if index_2d(a, b, v) == index_2d(i, j, v) {
            lemma_index_2d_injective(a, b, i, j, v);
        }
    }
}

/// Row `i` of an array with `h` rows of `v` values ends at or before `h * v`.
pub proof fn lemma_row_2d(i: int, h: int, v: int)
    requires
        0 <= i < h,
        0 <= v,
    ensures
        0 <= index_2d(i, 0, v),
        index_2d(i, 0, v) + v <= h * v,
{
    assert(0 <= i * v && (i + 1) * v <= h * v) by (nonlinear_arith)
        requires
            0 <= i < h,
            0 <= v,
    ;
    assert((i + 1) * v == i * v + v) by (nonlinear_arith);
}

impl<T> FixedVec2D<T> {
    /// The horizontal size.
    pub closed spec fn spec_h(&self) -> nat {
        self.h as nat
    }

    /// The vertical size.
    pub closed spec fn spec_v(&self) -> nat {
        self.v as nat
    }

    /// The horizontal size is not 0 and there are `h * v` values.
    pub closed spec fn wf(&self) -> bool {
        &&& self.h > 0
        &&& self.h * self.v <= usize::MAX
        &&& self.data@.len() == self.h * self.v
    }

    /// Facts of a well-formed 2d vector.
    pub proof fn lemma_wf(&self)
        requires
            self.wf(),
        ensures
            self.spec_h() > 0,
            self@.len() == self.spec_h() * self.spec_v(),
            self.spec_h() * self.spec_v() <= usize::MAX,
    {
    }

    /// The value at `(i, j)`.
    pub open spec fn spec_at(&self, i: int, j: int) -> T {
        self@[index_2d(i, j, self.spec_v() as int)]
    }

    /// Creates a 2d vector with a vec, row after row.
    /// Returns [`None`] if `h * v != vec.len()`.
    pub fn from_raw(h: usize, v: usize, vec: Vec<T>) -> (r: Option<Self>)
        requires
            h > 0,
        ensures
            r is Some <==> h * v == vec@.len(),
            r matches Some(a) ==> a.wf() && a.spec_h() == h && a.spec_v() == v && a@ == vec@,
    {
        let len: usize = vec.len();
        match h.checked_mul(v) {
            Some(n) => {
                if n != len {
                    None
                } else {
                    Some(FixedVec2D { data: vec, h, v })
                }
            },
            None => None,
        }
    }

    /// Creates a 2d vector initialized from the function.
    pub fn new<F: Fn(usize, usize) -> T>(h: usize, v: usize, f: F) -> (r: Self)
        requires
            h > 0,
            h * v <= usize::MAX,
            forall|i: usize, j: usize| i < h && j < v ==> call_requires(f, (i, j)),
        ensures
            r.wf(),
            r.spec_h() == h,
            r.spec_v() == v,
            forall|i: usize, j: usize|
                i < h && j < v ==> call_ensures(f, (i, j), #[trigger] r.spec_at(i as int, j as int)),
    {
        let mut data: Vec<T> = Vec::new();
        let mut i: usize = 0;
        while i < h
            invariant
                0 < h,
                h * v <= usize::MAX,
                i <= h,
                data@.len() == i * v,
                forall|i: usize, j: usize| i < h && j < v ==> call_requires(f, (i, j)),
                forall|a: usize, b: usize|
                    a < i && b < v ==> call_ensures(f, (a, b), #[trigger] data@[index_2d(a as int, b as int, v as int)]),
            decreases h - i,
        {
            let mut j: usize = 0;
            while j < v
                invariant
                    0 < h,
                    h * v <= usize::MAX,
                    i < h,
                    j <= v,
                    data@.len() == i * v + j,
                    forall|i: usize, j: usize| i < h && j < v ==> call_requires(f, (i, j)),
                    forall|a: usize, b: usize|
                        a < i && b < v ==> call_ensures(f, (a, b), #[trigger] data@[index_2d(a as int, b as int, v as int)]),
                    forall|b: usize|
                        b < j ==> call_ensures(f, (i, b), #[trigger] data@[index_2d(i as int, b as int, v as int)]),
                decreases v - j,
            {
                proof {
                    lemma_index_2d(i as int, j as int, h as int, v as int);
                }
                let x = f(i, j);
                let ghost old_data = data@;
                data.push(x);
                proof {
                    assert forall|a: usize, b: usize|
                        a < i && b < v implies call_ensures(f, (a, b), #[trigger] data@[index_2d(a as int, b as int, v as int)]) by {
                        lemma_index_2d(a as int, b as int, i as int, v as int);
                        assert(data@[index_2d(a as int, b as int, v as int)] == old_data[index_2d(a as int, b as int, v as int)]);
                    }
                }
                j = j + 1;
            }
            proof {
                assert((i + 1) * v == i * v + v) by (nonlinear_arith);
                assert forall|a: usize, b: usize|
                    a < i + 1 && b < v implies call_ensures(f, (a, b), #[trigger] data@[index_2d(a as int, b as int, v as int)]) by {
                }
            }
            i = i + 1;
        }
        FixedVec2D { data, h, v }
    }

    /// Returns the horizontal size.
    pub fn h_size(&self) -> (r: usize)
        ensures
            r == self.spec_h(),
    {
        self.h
    }

    /// Returns the vertical size.
    pub fn v_size(&self) -> (r: usize)
        ensures
            r == self.spec_v(),
    {
        self.v
    }

    /// Returns the length of the underlying [`Vec`].
    pub fn size(&self) -> (r: usize)
        requires
            self.wf(),
        ensures
            r == self.spec_h() * self.spec_v(),
    {
        self.h * self.v
    }

    /// Returns the slice of all values in the array.
    pub fn ref_1d(&self) -> (r: &[T])
        ensures
            r@ == self@,
    {
        self.data.as_slice()
    }

    /// Returns the rows of this array.
    pub fn ref_2d(&self) -> (r: Vec<&[T]>)
        requires
            self.wf(),
        ensures
            r@.len() == self.spec_h(),
            forall|i: int|
                0 <= i < self.spec_h() ==> #[trigger] r@[i]@ == self@.subrange(
                    index_2d(i, 0, self.spec_v() as int),
                    index_2d(i, 0, self.spec_v() as int) + self.spec_v(),
                ),
    {
        let h: usize = self.h;
        let v: usize = self.v;
        let all: &[T] = self.data.as_slice();
        let mut rows: Vec<&[T]> = Vec::new();
        let mut i: usize = 0;
        while i < h
            invariant
                i <= h,
                h == self.h,
                v == self.v,
                self.wf(),
                all@ == self.data@,
                rows@.len() == i,
                forall|k: int|
                    0 <= k < i ==> #[trigger] rows@[k]@ == self@.subrange(
                        index_2d(k, 0, v as int),
                        index_2d(k, 0, v as int) + v,
                    ),
            decreases h - i,
        {
            proof {
                lemma_row_2d(i as int, h as int, v as int);
            }
            let start: usize = i * v;
            let row: &[T] = &all[start..start + v];
            rows.push(row);
            i = i + 1;
        }
        rows
    }

    /// Returns the mutable slice of all values in the array.
    pub fn mut_1d(&mut self) -> (r: &mut [T])
        ensures
            r@ == old(self)@,
            final(self)@ == final(r)@,
            final(self).spec_h() == old(self).spec_h(),
            final(self).spec_v() == old(self).spec_v(),
    {
        self.data.as_mut_slice()
    }

    /// Returns the underlying [`Vec`] consuming this array.
    pub fn into_raw(self) -> (r: Vec<T>)
        ensures
            r@ == self@,
    {
        self.data
    }

    /// The value at `(i, j)`.
    pub fn index(&self, index: (usize, usize)) -> (r: &T)
        requires
            self.wf(),
            index.0 < self.spec_h(),
            index.1 < self.spec_v(),
        ensures
            *r == self.spec_at(index.0 as int, index.1 as int),
    {
        proof {
            lemma_index_2d(index.0 as int, index.1 as int, self.h as int, self.v as int);
        }
        &self.data[index.0 * self.v + index.1]
    }

    /// The value at `(i, j)` to change.
    pub fn index_mut(&mut self, index: (usize, usize)) -> (r: &mut T)
        requires
            old(self).wf(),
            index.0 < old(self).spec_h(),
            index.1 < old(self).spec_v(),
        ensures
            *r == old(self).spec_at(index.0 as int, index.1 as int),
            final(self)@ == old(self)@.update(
                index_2d(index.0 as int, index.1 as int, old(self).spec_v() as int),
                *final(r),
            ),
            final(self).spec_h() == old(self).spec_h(),
            final(self).spec_v() == old(self).spec_v(),
            final(self).wf(),
    {
        proof {
            lemma_index_2d(index.0 as int, index.1 as int, self.h as int, self.v as int);
        }
        let k: usize = index.0 * self.v + index.1;
        &mut self.data[k]
    }
}

} // verus!
