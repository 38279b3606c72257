use vstd::prelude::*;

verus! {

/// A 2x2 matrix stored row-major. The element type is a parameter: this
/// layer only places and retrieves elements; arithmetic on them lives with
/// the caller.
#[derive(Debug, PartialEq, Clone, Copy)]
pub struct Matrix2<T> {
    pub values: [T; 4],
}

impl<T> Matrix2<T> {
    /// The element in row `r`, column `c`.
    pub open spec fn entry(self, r: int, c: int) -> T {
        self.values@[r * 2 + c]
    }
}

impl<T: Copy> Matrix2<T> {
    pub fn builder(v1: T, v2: T) -> (b: Matrix2Builder<T>)
        ensures
            b.entries() == seq![v1, v2],
    {
        Matrix2Builder { head: [v1, v2] }
    }

    pub fn row_col_index(r: usize, c: usize) -> (i: usize)
        requires
            r * 2 + c <= usize::MAX,
        ensures
            i == r * 2 + c,
    {
        (r * 2) + c
    }

    pub fn at(&self, r: usize, c: usize) -> (v: T)
        requires
            r < 2,
            c < 2,
        ensures
            v == self.entry(r as int, c as int),
    {
        self.values[(r * 2) + c]
    }
}

/// Accumulates the first row of a 2x2 matrix; the second row completes it.
pub struct Matrix2Builder<T> {
    head: [T; 2],
}

impl<T> Matrix2Builder<T> {
    /// The elements laid down so far, row-major.
    pub closed spec fn entries(&self) -> Seq<T> {
        self.head@
    }
}

impl<T: Copy> Matrix2Builder<T> {
    pub fn row(self, v1: T, v2: T) -> (m: Matrix2<T>)
        ensures
            m.values@ == self.entries() + seq![v1, v2],
    {
        let m = Matrix2 { values: [self.head[0], self.head[1], v1, v2] };
        proof {
            assert(m.values@ =~= self.entries() + seq![v1, v2]);
        }
        m
    }
}

} // verus!
