//! Toroidal stepping on the grid and the Moore neighbourhood of a cell.

use vstd::prelude::*;
use crate::utils::{coords_to_index, index_of, index_to_coords};

verus! {

/// One step towards zero on an axis of length `n`, wrapping from `0` to `n - 1`.
pub open spec fn step_back(v: int, n: int) -> int {
    if v == 0 {
        n - 1
    } else {
        v - 1
    }
}

/// One step away from zero on an axis of length `n`, wrapping from `n - 1` to `0`.
pub open spec fn step_forward(v: int, n: int) -> int {
    if v + 1 < n {
        v + 1
    } else {
        0
    }
}

/// The eight toroidally wrapped neighbours of cell `i` on a `w` by `h` grid,
/// in the order NW, N, NE, W, E, SW, S, SE.
pub open spec fn neighbours(i: int, w: int, h: int) -> Seq<int> {
    let x = i % w;
    let y = i / w;
    let l = step_back(x, w);
    let r = step_forward(x, w);
    let t = step_back(y, h);
    let b = step_forward(y, h);
    seq![
        index_of(l, t, w),
        index_of(x, t, w),
        index_of(r, t, w),
        index_of(l, y, w),
        index_of(r, y, w),
        index_of(l, b, w),
        index_of(x, b, w),
        index_of(r, b, w),
    ]
}

/// A cell inside a `w` by `h` grid has its index inside the grid.
pub proof fn lemma_index_in_grid(x: int, y: int, w: int, h: int)
    requires
        0 <= x < w,
        0 <= y < h,
    ensures
        0 <= index_of(x, y, w) < w * h,
{
    assert(0 <= y * w + x < w * h) by (nonlinear_arith)
        requires
            0 <= x < w,
            0 <= y < h,
    ;
}

/// The coordinates of an index inside a `w` by `h` grid lie inside the grid,
/// and give that index back.
pub proof fn lemma_coords_in_grid(i: int, w: int, h: int)
    requires
        w > 0,
        h > 0,
        0 <= i < w * h,
    ensures
        0 <= i % w < w,
        0 <= i / w < h,
        index_of(i % w, i / w, w) == i,
{
    vstd::arithmetic::div_mod::lemma_fundamental_div_mod(i, w);
    vstd::arithmetic::div_mod::lemma_div_pos_is_pos(i, w);
    vstd::arithmetic::div_mod::lemma_mod_pos_bound(i, w);
    assert(i / w < h) by (nonlinear_arith)
        requires
            w > 0,
            i < w * h,
            i == w * (i / w) + i % w,
            0 <= i % w,
    ;
    assert(index_of(i % w, i / w, w) == i) by (nonlinear_arith)
        requires
            i == w * (i / w) + i % w,
    ;
}

/// The coordinates of `index_of(x, y, w)` are `x` and `y`.
pub proof fn lemma_index_coords(x: int, y: int, w: int)
    requires
        0 <= x < w,
    ensures
        index_of(x, y, w) % w == x,
        index_of(x, y, w) / w == y,
{
    vstd::arithmetic::div_mod::lemma_fundamental_div_mod_converse(index_of(x, y, w), w, y, x);
}

/// Every neighbour of a cell inside the grid is inside the grid.
pub proof fn lemma_neighbours_in_grid(i: int, w: int, h: int)
    requires
        w > 0,
        h > 0,
        0 <= i < w * h,
    ensures
        neighbours(i, w, h).len() == 8,
        forall|k: int| 0 <= k < 8 ==> 0 <= #[trigger] neighbours(i, w, h)[k] < w * h,
{
    lemma_coords_in_grid(i, w, h);
    let x = i % w;
    let y = i / w;
    let l = step_back(x, w);
    let r = step_forward(x, w);
    let t = step_back(y, h);
    let b = step_forward(y, h);
    lemma_index_in_grid(l, t, w, h);
    lemma_index_in_grid(x, t, w, h);
    lemma_index_in_grid(r, t, w, h);
    lemma_index_in_grid(l, y, w, h);
    lemma_index_in_grid(r, y, w, h);
    lemma_index_in_grid(l, b, w, h);
    lemma_index_in_grid(x, b, w, h);
    lemma_index_in_grid(r, b, w, h);
}

/// A cell position: column `x`, row `y`.
#[derive(Clone, Copy, Debug, PartialEq, Eq, Structural)]
pub(crate) struct Position {
    pub(crate) x: usize,
    pub(crate) y: usize,
}

impl Position {
    pub(crate) fn to_index(&self, width: usize) -> (r: usize)
        requires
            index_of(self.x as int, self.y as int, width as int) <= usize::MAX,
        ensures
            r == index_of(self.x as int, self.y as int, width as int),
    {
        coords_to_index(self.x, self.y, width)
    }

    pub(crate) fn from_index(index: usize, width: usize) -> (p: Self)
        requires
            width > 0,
        ensures
            p.x == index % width,
            p.y == index / width,
    {
        let (x, y) = index_to_coords(index, width);
        Self { x, y }
    }

    pub(crate) fn left(&self, width: usize) -> (p: Self)
        requires
            width > 0,
        ensures
            p.x == step_back(self.x as int, width as int),
            p.y == self.y,
    {
        let x = if self.x == 0 {
            width - 1
        } else {
            self.x - 1
        };
        Self { x, y: self.y }
    }

    pub(crate) fn right(&self, width: usize) -> (p: Self)
        ensures
            p.x == step_forward(self.x as int, width as int),
            p.y == self.y,
    {
        let x = if self.x < width && self.x + 1 < width {
            self.x + 1
        } else {
            0
        };
        Self { x, y: self.y }
    }

    pub(crate) fn top(&self, height: usize) -> (p: Self)
        requires
            height > 0,
        ensures
            p.x == self.x,
            p.y == step_back(self.y as int, height as int),
    {
        let y = if self.y == 0 {
            height - 1
        } else {
            self.y - 1
        };
        Self { x: self.x, y }
    }

    pub(crate) fn bottom(&self, height: usize) -> (p: Self)
        ensures
            p.x == self.x,
            p.y == step_forward(self.y as int, height as int),
    {
        let y = if self.y < height && self.y + 1 < height {
            self.y + 1
        } else {
            0
        };
        Self { x: self.x, y }
    }
}

/// The indexes of the eight neighbours of cell `i` (NW, N, NE, W, E, SW, S, SE)
/// on a toroidal `width` by `height` grid.
pub fn neighbours_indexes(i: usize, width: usize, height: usize) -> (r: [usize; 8])
    requires
        width > 0,
        height > 0,
        width * height <= usize::MAX,
        i < width * height,
    ensures
        forall|k: int| 0 <= k < 8 ==> r@[k] == #[trigger] neighbours(i as int, width as int, height as int)[k],
        forall|k: int| 0 <= k < 8 ==> r@[k] < width * height,
{
    proof {
        lemma_coords_in_grid(i as int, width as int, height as int);
        lemma_neighbours_in_grid(i as int, width as int, height as int);
    }
    let pos = Position::from_index(i, width);
    let t = pos.top(height);
    let b = pos.bottom(height);
    let l = pos.left(width);
    let r = pos.right(width);
    let tl = t.left(width);
    let tr = t.right(width);
    let bl = b.left(width);
    let br = b.right(width);
    [
        tl.to_index(width),
        t.to_index(width),
        tr.to_index(width),
        l.to_index(width),
        r.to_index(width),
        bl.to_index(width),
        b.to_index(width),
        br.to_index(width),
    ]
}

} // verus!
