use vstd::prelude::*;

verus! {

/// The pixel after (x, y) in the row-major sweep of an hsize-by-vsize
/// frame: the next column of the same row, then the first column of the
/// next row, and nothing after the frame's last pixel. The render loop
/// asks this function where to go; tracing the ray and choosing the
/// color stay with the caller.
pub fn next_pixel(x: i64, y: i64, hsize: i64, vsize: i64) -> (r: Option<(i64, i64)>)
    requires
        0 <= x < hsize,
        0 <= y < vsize,
    ensures
        r is None <==> (x == hsize - 1 && y == vsize - 1),
        r matches Some(p) ==> {
            &&& p.0 == (if x + 1 < hsize { x + 1 } else { 0 })
            &&& p.1 == (if x + 1 < hsize { y as int } else { y + 1 })
            &&& 0 <= p.0 < hsize
            &&& 0 <= p.1 < vsize
        },
{
    if x + 1 < hsize {
        Some((x + 1, y))
    } else if y + 1 < vsize {
        Some((0, y + 1))
    } else {
        None
    }
}

} // verus!
