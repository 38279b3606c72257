//! The exactly-specified backbone of a small ray tracer: the pixel grid a
//! render writes into, the plain-text PPM serialization of that grid, the
//! decimal formatting it depends on, the structural half of the fixed-size
//! matrix algebra (construction, element access, transpose, sub-matrix
//! extraction), and the closed set of primitive kinds. Floating-point
//! arithmetic cannot be verified, so the numeric layers live with the
//! caller and instantiate these element-type-generic pieces with `f64`.

pub mod camera;
pub mod color;
pub mod decimal;
pub mod matrix2;
pub mod matrix3;
pub mod matrix4;
pub mod object;
pub mod ray;

use vstd::prelude::*;

verus! {

/// Where row (or column) `i` of a sub-matrix comes from when row (or
/// column) `dropped` of the parent matrix is removed.
pub open spec fn skip_index(i: int, dropped: int) -> int {
    if i < dropped {
        i
    } else {
        i + 1
    }
}

/// Executable counterpart of `skip_index`.
pub fn skip_idx(i: usize, dropped: usize) -> (r: usize)
    requires
        i < usize::MAX,
    ensures
        r == skip_index(i as int, dropped as int),
{
    if i < dropped {
        i
    } else {
        i + 1
    }
}

} // verus!
