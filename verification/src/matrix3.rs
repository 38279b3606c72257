use vstd::prelude::*;

use crate::matrix2::Matrix2;
use crate::skip_idx;
use crate::skip_index;

verus! {

/// A 3x3 matrix stored row-major. The element type is a parameter: this
/// layer only places and retrieves elements; arithmetic on them lives with
/// the caller.
#[derive(Debug, PartialEq, Clone, Copy)]
pub struct Matrix3<T> {
    pub values: [T; 9],
}

impl<T> Matrix3<T> {
    /// The element in row `r`, column `c`.
    pub open spec fn entry(self, r: int, c: int) -> T {
        self.values@[r * 3 + c]
    }
}

impl<T: Copy> Matrix3<T> {
    pub fn builder(v1: T, v2: T, v3: T) -> (b: Matrix3Builder<T>)
        ensures
            b.entries() == seq![v1, v2, v3],
    {
        Matrix3Builder { head: [v1, v2, v3] }
    }

    pub fn row_col_index(r: usize, c: usize) -> (i: usize)
        requires
            r * 3 + c <= usize::MAX,
        ensures
            i == r * 3 + c,
    {
        (r * 3) + c
    }

    pub fn at(&self, r: usize, c: usize) -> (v: T)
        requires
            r < 3,
            c < 3,
        ensures
            v == self.entry(r as int, c as int),
    {
        self.values[(r * 3) + c]
    }

    /// The 2x2 matrix left over when one row and one column are dropped.
    pub fn sub_matrix(&self, row_to_remove: usize, col_to_remove: usize) -> (m: Matrix2<T>)
        requires
            row_to_remove < 3,
            col_to_remove < 3,
        ensures
            forall|r: int, c: int|
                0 <= r < 2 && 0 <= c < 2 ==> #[trigger] m.entry(r, c) == self.entry(
                    skip_index(r, row_to_remove as int),
                    skip_index(c, col_to_remove as int),
                ),
    {
        let r0: usize = skip_idx(0, row_to_remove);
        let r1: usize = skip_idx(1, row_to_remove);
        let c0: usize = skip_idx(0, col_to_remove);
        let c1: usize = skip_idx(1, col_to_remove);
        Matrix2 {
            values: [
                self.values[r0 * 3 + c0],
                self.values[r0 * 3 + c1],
                self.values[r1 * 3 + c0],
                self.values[r1 * 3 + c1],
            ],
        }
    }
}

/// Accumulates the first row of a 3x3 matrix.
pub struct Matrix3Builder<T> {
    head: [T; 3],
}

impl<T> Matrix3Builder<T> {
    /// The elements laid down so far, row-major.
    pub closed spec fn entries(&self) -> Seq<T> {
        self.head@
    }
}

impl<T: Copy> Matrix3Builder<T> {
    pub fn row(self, v1: T, v2: T, v3: T) -> (b: Matrix3Builder2<T>)
        ensures
            b.entries() == self.entries() + seq![v1, v2, v3],
    {
        let b = Matrix3Builder2 {
            head: [self.head[0], self.head[1], self.head[2], v1, v2, v3],
        };
        proof {
            assert(b.entries() =~= self.entries() + seq![v1, v2, v3]);
        }
        b
    }
}

/// Accumulates the first two rows of a 3x3 matrix; the third completes it.
pub struct Matrix3Builder2<T> {
    head: [T; 6],
}

impl<T> Matrix3Builder2<T> {
    /// The elements laid down so far, row-major.
    pub closed spec fn entries(&self) -> Seq<T> {
        self.head@
    }
}

impl<T: Copy> Matrix3Builder2<T> {
    pub fn row(self, v1: T, v2: T, v3: T) -> (m: Matrix3<T>)
        ensures
            m.values@ == self.entries() + seq![v1, v2, v3],
    {
        let m = Matrix3 {
            values: [
                self.head[0],
                self.head[1],
                self.head[2],
                self.head[3],
                self.head[4],
                self.head[5],
                v1,
                v2,
                v3,
            ],
        };
        proof {
            assert(m.values@ =~= self.entries() + seq![v1, v2, v3]);
        }
        m
    }
}

} // verus!
