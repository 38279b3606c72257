use vstd::prelude::*;

use crate::matrix3::Matrix3;
use crate::skip_idx;
use crate::skip_index;

verus! {

/// A 4x4 matrix stored row-major. The element type is a parameter: this
/// layer only places and retrieves elements; arithmetic on them lives with
/// the caller.
#[derive(Debug, PartialEq, Clone, Copy)]
pub struct Matrix4<T> {
    pub values: [T; 16],
}

impl<T> Matrix4<T> {
    /// The element in row `r`, column `c`.
    pub open spec fn entry(self, r: int, c: int) -> T {
        self.values@[r * 4 + c]
    }
}

impl<T: Copy> Matrix4<T> {
    pub fn builder(v1: T, v2: T, v3: T, v4: T) -> (b: Matrix4Builder<T>)
        ensures
            b.entries() == seq![v1, v2, v3, v4],
    {
        Matrix4Builder { head: [v1, v2, v3, v4] }
    }

    pub fn row_col_index(r: usize, c: usize) -> (i: usize)
        requires
            r * 4 + c <= usize::MAX,
        ensures
            i == r * 4 + c,
    {
        (r * 4) + c
    }

    pub fn at(&self, r: usize, c: usize) -> (v: T)
        requires
            r < 4,
            c < 4,
        ensures
            v == self.entry(r as int, c as int),
    {
        self.values[(r * 4) + c]
    }

    /// The matrix with rows and columns exchanged.
    pub fn transpose(&self) -> (m: Matrix4<T>)
        ensures
            forall|r: int, c: int|
                0 <= r < 4 && 0 <= c < 4 ==> #[trigger] m.entry(r, c) == self.entry(c, r),
    {
        let v = &self.values;
        Matrix4 {
            values: [
                v[0],
                v[4],
                v[8],
                v[12],
                v[1],
                v[5],
                v[9],
                v[13],
                v[2],
                v[6],
                v[10],
                v[14],
                v[3],
                v[7],
                v[11],
                v[15],
            ],
        }
    }

    /// The 3x3 matrix left over when one row and one column are dropped.
    pub fn sub_matrix(&self, row_to_remove: usize, col_to_remove: usize) -> (m: Matrix3<T>)
        requires
            row_to_remove < 4,
            col_to_remove < 4,
        ensures
            forall|r: int, c: int|
                0 <= r < 3 && 0 <= c < 3 ==> #[trigger] m.entry(r, c) == self.entry(
                    skip_index(r, row_to_remove as int),
                    skip_index(c, col_to_remove as int),
                ),
    {
        let r0: usize = skip_idx(0, row_to_remove);
        let r1: usize = skip_idx(1, row_to_remove);
        let r2: usize = skip_idx(2, row_to_remove);
        let c0: usize = skip_idx(0, col_to_remove);
        let c1: usize = skip_idx(1, col_to_remove);
        let c2: usize = skip_idx(2, col_to_remove);
        Matrix3 {
            values: [
                self.values[r0 * 4 + c0],
                self.values[r0 * 4 + c1],
                self.values[r0 * 4 + c2],
                self.values[r1 * 4 + c0],
                self.values[r1 * 4 + c1],
                self.values[r1 * 4 + c2],
                self.values[r2 * 4 + c0],
                self.values[r2 * 4 + c1],
                self.values[r2 * 4 + c2],
            ],
        }
    }
}

/// Accumulates the first row of a 4x4 matrix.
pub struct Matrix4Builder<T> {
    head: [T; 4],
}

impl<T> Matrix4Builder<T> {
    /// The elements laid down so far, row-major.
    pub closed spec fn entries(&self) -> Seq<T> {
        self.head@
    }
}

impl<T: Copy> Matrix4Builder<T> {
    pub fn row(self, v1: T, v2: T, v3: T, v4: T) -> (b: Matrix4Builder2<T>)
        ensures
            b.entries() == self.entries() + seq![v1, v2, v3, v4],
    {
        let b = Matrix4Builder2 {
            head: [
                self.head[0],
                self.head[1],
                self.head[2],
                self.head[3],
                v1,
                v2,
                v3,
                v4,
            ],
        };
        proof {
            assert(b.entries() =~= self.entries() + seq![v1, v2, v3, v4]);
        }
        b
    }
}

/// Accumulates the first two rows of a 4x4 matrix.
pub struct Matrix4Builder2<T> {
    head: [T; 8],
}

impl<T> Matrix4Builder2<T> {
    /// The elements laid down so far, row-major.
    pub closed spec fn entries(&self) -> Seq<T> {
        self.head@
    }
}

impl<T: Copy> Matrix4Builder2<T> {
    pub fn row(self, v1: T, v2: T, v3: T, v4: T) -> (b: Matrix4Builder3<T>)
        ensures
            b.entries() == self.entries() + seq![v1, v2, v3, v4],
    {
        let b = Matrix4Builder3 {
            head: [
                self.head[0],
                self.head[1],
                self.head[2],
                self.head[3],
                self.head[4],
                self.head[5],
                self.head[6],
                self.head[7],
                v1,
                v2,
                v3,
                v4,
            ],
        };
        proof {
            assert(b.entries() =~= self.entries() + seq![v1, v2, v3, v4]);
        }
        b
    }
}

/// Accumulates the first three rows of a 4x4 matrix; the fourth
/// completes it.
pub struct Matrix4Builder3<T> {
    head: [T; 12],
}

impl<T> Matrix4Builder3<T> {
    /// The elements laid down so far, row-major.
    pub closed spec fn entries(&self) -> Seq<T> {
        self.head@
    }
}

impl<T: Copy> Matrix4Builder3<T> {
    pub fn row(self, v1: T, v2: T, v3: T, v4: T) -> (m: Matrix4<T>)
        ensures
            m.values@ == self.entries() + seq![v1, v2, v3, v4],
    {
        let m = Matrix4 {
            values: [
                self.head[0],
                self.head[1],
                self.head[2],
                self.head[3],
                self.head[4],
                self.head[5],
                self.head[6],
                self.head[7],
                self.head[8],
                self.head[9],
                self.head[10],
                self.head[11],
                v1,
                v2,
                v3,
                v4,
            ],
        };
        proof {
            assert(m.values@ =~= self.entries() + seq![v1, v2, v3, v4]);
        }
        m
    }
}

} // verus!
