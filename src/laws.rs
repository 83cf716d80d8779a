//! Properties of the automaton that relate several cells or several updates.

use vstd::prelude::*;
use crate::torus::{lemma_index_coords, neighbours};
use crate::utils::index_of;
use crate::world::{next_generation, step, State};

verus! {

/// The cells after `k` calls of [`crate::world::World::update`] on a `w` by `h`
/// grid whose pause flag stays `paused`.
pub open spec fn after_updates(cells: Seq<State>, w: int, h: int, paused: bool, k: nat) -> Seq<State>
    decreases k,
{
    if k == 0 {
        cells
    } else {
        step(after_updates(cells, w, h, paused, (k - 1) as nat), w, h, paused)
    }
}

/// The grid has no edges: the west neighbour of a cell in the first column is
/// the cell in the last column of the same row, the east neighbour of a cell in
/// the last column is the cell in the first column, and likewise the north
/// neighbour of a cell in the first row lies in the last row and the south
/// neighbour of a cell in the last row lies in the first row.
pub proof fn lemma_toroidal_wrap(w: int, h: int, x: int, y: int)
    requires
        w > 0,
        h > 0,
        0 <= x < w,
        0 <= y < h,
    ensures
        neighbours(index_of(0, y, w), w, h)[3] == index_of(w - 1, y, w),
        neighbours(index_of(w - 1, y, w), w, h)[4] == index_of(0, y, w),
        neighbours(index_of(x, 0, w), w, h)[1] == index_of(x, h - 1, w),
        neighbours(index_of(x, h - 1, w), w, h)[6] == index_of(x, 0, w),
{
    lemma_index_coords(0, y, w);
    lemma_index_coords(w - 1, y, w);
    lemma_index_coords(x, 0, w);
    lemma_index_coords(x, h - 1, w);
}

/// While the grid is paused, any number of updates leaves every cell as it was.
pub proof fn lemma_paused_updates_keep_cells(cells: Seq<State>, w: int, h: int, k: nat)
    ensures
        after_updates(cells, w, h, true, k) == cells,
    decreases k,
{
    if k > 0 {
        lemma_paused_updates_keep_cells(cells, w, h, (k - 1) as nat);
    }
}

/// An immutable cell is still immutable after any number of updates, whatever
/// its neighbours are.
pub proof fn lemma_immutable_stays(cells: Seq<State>, w: int, h: int, paused: bool, k: nat, i: int)
    requires
        0 <= i < cells.len(),
        cells[i] == State::IMMUTABLE,
    ensures
        after_updates(cells, w, h, paused, k).len() == cells.len(),
        after_updates(cells, w, h, paused, k)[i] == State::IMMUTABLE,
    decreases k,
{
    if k > 0 {
        lemma_immutable_stays(cells, w, h, paused, (k - 1) as nat, i);
        let prev = after_updates(cells, w, h, paused, (k - 1) as nat);
        if !paused {
            assert(next_generation(prev, w, h)[i] == State::IMMUTABLE);
        }
    }
}

} // verus!
