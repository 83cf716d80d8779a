//! Conversions between a linear, row-major cell index and grid coordinates.

use vstd::prelude::*;

verus! {

/// The row-major index of the cell at column `x` and row `y`.
pub open spec fn index_of(x: int, y: int, width: int) -> int {
    y * width + x
}

/// Row-major index of the cell at `(x, y)` on a grid `width` cells wide.
pub fn coords_to_index(x: usize, y: usize, width: usize) -> (r: usize)
    requires
        index_of(x as int, y as int, width as int) <= usize::MAX,
    ensures
        r == index_of(x as int, y as int, width as int),
{
    proof {
        assert(0 <= y * width) by (nonlinear_arith);
    }
    y * width + x
}

/// Column and row of the cell with row-major `index` on a grid `width` cells wide.
pub fn index_to_coords(index: usize, width: usize) -> (r: (usize, usize))
    requires
        width > 0,
    ensures
        r.0 == index % width,
        r.1 == index / width,
{
    (index % width, index / width)
}

} // verus!
