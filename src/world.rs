//! The grid store, the generation engine and the renderer.

use vstd::prelude::*;
use rayon::iter::{IndexedParallelIterator, IntoParallelIterator, ParallelIterator};
use crate::torus::{lemma_neighbours_in_grid, neighbours, neighbours_indexes};

verus! {

/// The state of one cell.
#[derive(Clone, Copy, Debug, PartialEq, Eq, Structural)]
pub enum State {
    /// Never changed by the transition rule, only by an explicit write.
    IMMUTABLE,
    ALIVE,
    DEAD,
}

/// Why an operation on a [`World`] was refused.
#[derive(Clone, Copy, Debug, PartialEq, Eq, Structural)]
pub enum WorldError {
    /// A grid with zero width or zero height was asked for.
    InvalidDimensions,
    /// The frame buffer does not hold exactly four bytes per cell.
    BufferSizeMismatch,
}

/// How many of the cells at `idx` are alive in `cells`.
pub open spec fn alive_among(cells: Seq<State>, idx: Seq<int>) -> nat
    decreases idx.len(),
{
    if idx.len() == 0 {
        0
    } else {
        alive_among(cells, idx.drop_last()) + if cells[idx.last()] == State::ALIVE {
            1nat
        } else {
            0nat
        }
    }
}

/// The transition rule: the next state of a cell in state `current` with
/// `alive` living neighbours.
pub open spec fn rule(current: State, alive: nat) -> State {
    match current {
        State::IMMUTABLE => State::IMMUTABLE,
        _ => if alive == 2 {
            current
        } else if alive == 3 {
            State::ALIVE
        } else {
            State::DEAD
        },
    }
}

/// The state of cell `i` in the generation after `cells` on a `w` by `h` grid.
pub open spec fn next_state(cells: Seq<State>, w: int, h: int, i: int) -> State {
    rule(cells[i], alive_among(cells, neighbours(i, w, h)))
}

/// The generation after `cells` on a `w` by `h` grid, every cell computed from
/// `cells` alone.
pub open spec fn next_generation(cells: Seq<State>, w: int, h: int) -> Seq<State> {
    Seq::new(cells.len(), |i: int| next_state(cells, w, h, i))
}

/// The cells after one call of [`World::update`]: unchanged while paused.
pub open spec fn step(cells: Seq<State>, w: int, h: int, paused: bool) -> Seq<State> {
    if paused {
        cells
    } else {
        next_generation(cells, w, h)
    }
}

/// Byte `c` (red, green, blue, alpha) of the colour of a cell in state `s`.
pub open spec fn pixel_byte(s: State, c: int) -> u8 {
    match s {
        State::IMMUTABLE => if c == 0 {
            0xFFu8
        } else if c == 1 {
            0x00u8
        } else if c == 2 {
            0x4Du8
        } else {
            0xFFu8
        },
        State::ALIVE => if c == 3 {
            0xFFu8
        } else {
            0x1Eu8
        },
        State::DEAD => 0xF8u8,
    }
}

/// The RGBA frame of `cells`: four bytes per cell, in the order of the cells.
pub open spec fn render(cells: Seq<State>) -> Seq<u8> {
    Seq::new(4 * cells.len(), |k: int| pixel_byte(cells[k / 4], k % 4))
}

/// Whether `cells` can be the cells of a `width` by `height` grid.
pub open spec fn grid_ok(cells: Seq<State>, width: int, height: int) -> bool {
    &&& width > 0
    &&& height > 0
    &&& width * height <= usize::MAX
    &&& cells.len() == width * height
}

/// The state of cell `i` in the next generation, read from `cells` alone.
pub fn next_cell_state(cells: &Vec<State>, width: usize, height: usize, i: usize) -> (s: State)
    requires
        grid_ok(cells@, width as int, height as int),
        i < cells@.len(),
    ensures
        s == next_state(cells@, width as int, height as int, i as int),
{
    let current = cells[i];
    match current {
        State::IMMUTABLE => State::IMMUTABLE,
        _ => {
            let nb = neighbours_indexes(i, width, height);
            let ghost n = neighbours(i as int, width as int, height as int);
            proof {
                lemma_neighbours_in_grid(i as int, width as int, height as int);
            }
            let mut alive: usize = 0;
            let mut k: usize = 0;
            while k < 8
                invariant
                    0 <= k <= 8,
                    alive <= k,
                    n.len() == 8,
                    n == neighbours(i as int, width as int, height as int),
                    cells@.len() == width * height,
                    forall|j: int| 0 <= j < 8 ==> nb@[j] == #[trigger] n[j],
                    forall|j: int| 0 <= j < 8 ==> nb@[j] < width * height,
                    alive == alive_among(cells@, n.subrange(0, k as int)),
                decreases 8 - k,
            {
                proof {
                    assert(n.subrange(0, k + 1).drop_last() =~= n.subrange(0, k as int));
                }
                if cells[nb[k]] == State::ALIVE {
                    alive += 1;
                }
                k += 1;
            }
            proof {
                assert(n.subrange(0, 8) =~= n);
            }
            if alive == 2 {
                current
            } else if alive == 3 {
                State::ALIVE
            } else {
                State::DEAD
            }
        },
    }
}

/// Relies on rayon's `into_par_iter` over `0..n`, `map` and `collect_into_vec`:
/// the vector is cleared, then holds the mapped value of each index, in index
/// order. Each value comes from the verified `next_cell_state`.
#[verifier::external_body]
fn par_next_generation(cells: &Vec<State>, width: usize, height: usize) -> (r: Vec<State>)
    requires
        grid_ok(cells@, width as int, height as int),
    ensures
        r@ == next_generation(cells@, width as int, height as int),
{
    let mut next: Vec<State> = Vec::new();
    (0..cells.len()).into_par_iter().map(|i| next_cell_state(cells, width, height, i)).collect_into_vec(
        &mut next,
    );
    next
}

/// A toroidal grid of cells, stored row by row.
pub struct World {
    /// While set, [`World::update`] leaves the grid as it is.
    pub paused: bool,
    width: usize,
    height: usize,
    cells: Vec<State>,
}

impl View for World {
    type V = Seq<State>;

    /// The cells, row by row.
    closed spec fn view(&self) -> Seq<State> {
        self.cells@
    }
}

impl World {
    /// The number of columns.
    pub closed spec fn spec_width(&self) -> int {
        self.width as int
    }

    /// The number of rows.
    pub closed spec fn spec_height(&self) -> int {
        self.height as int
    }

    /// Whether the grid is paused.
    pub closed spec fn spec_paused(&self) -> bool {
        self.paused
    }

    /// Both dimensions are positive and there is one cell per grid position.
    pub open spec fn wf(&self) -> bool {
        grid_ok(self@, self.spec_width(), self.spec_height())
    }

    /// A `width` by `height` grid, paused, with every cell dead.
    pub fn new(width: usize, height: usize) -> (r: Result<World, WorldError>)
        requires
            width * height <= usize::MAX,
        ensures
            r is Err <==> (width == 0 || height == 0),
            r matches Err(e) ==> e == WorldError::InvalidDimensions,
            r matches Ok(w) ==> {
                &&& w.wf()
                &&& w.spec_width() == width
                &&& w.spec_height() == height
                &&& w.spec_paused()
                &&& w@ == Seq::new((width * height) as nat, |i: int| State::DEAD)
            },
    {
        if width == 0 || height == 0 {
            return Err(WorldError::InvalidDimensions);
        }
        let n = width * height;
        let mut cells: Vec<State> = Vec::new();
        let mut i: usize = 0;
        while i < n
            invariant
                0 <= i <= n,
                cells@ == Seq::new(i as nat, |j: int| State::DEAD),
            decreases n - i,
        {
            cells.push(State::DEAD);
            i += 1;
            proof {
                assert(cells@ =~= Seq::new(i as nat, |j: int| State::DEAD));
            }
        }
        Ok(World { paused: true, width, height, cells })
    }

    /// The number of columns.
    pub fn width(&self) -> (r: usize)
        ensures
            r == self.spec_width(),
    {
        self.width
    }

    /// The number of rows.
    pub fn height(&self) -> (r: usize)
        ensures
            r == self.spec_height(),
    {
        self.height
    }

    /// The state of cell `index`, or `None` outside the grid.
    pub fn cell_state(&self, index: usize) -> (r: Option<State>)
        ensures
            r == if index < self@.len() {
                Some(self@[index as int])
            } else {
                None::<State>
            },
    {
        if index < self.cells.len() {
            Some(self.cells[index])
        } else {
            None
        }
    }

    /// Sets the state of cell `index`; an index outside the grid changes nothing.
    pub fn set_cell_state(&mut self, index: usize, state: State)
        requires
            old(self).wf(),
        ensures
            final(self).wf(),
            final(self).spec_width() == old(self).spec_width(),
            final(self).spec_height() == old(self).spec_height(),
            final(self).spec_paused() == old(self).spec_paused(),
            final(self)@ == if index < old(self)@.len() {
                old(self)@.update(index as int, state)
            } else {
                old(self)@
            },
    {
        if index < self.cells.len() {
            self.cells.set(index, state);
        }
    }

    /// Advances the grid by one generation unless it is paused. Every cell of
    /// the new generation is computed from the previous one alone.
    pub fn update(&mut self)
        requires
            old(self).wf(),
        ensures
            final(self).wf(),
            final(self).spec_width() == old(self).spec_width(),
            final(self).spec_height() == old(self).spec_height(),
            final(self).spec_paused() == old(self).spec_paused(),
            final(self)@ == step(
                old(self)@,
                old(self).spec_width(),
                old(self).spec_height(),
                old(self).spec_paused(),
            ),
    {
        if self.paused {
            return;
        }
        let next = par_next_generation(&self.cells, self.width, self.height);
        self.cells = next;
    }

    /// Writes the colour of each cell into `frame`, four RGBA bytes per cell in
    /// the order of the cells. A frame of any other length is left untouched.
    pub fn draw(&self, frame: &mut [u8]) -> (r: Result<(), WorldError>)
        requires
            self.wf(),
        ensures
            r is Ok <==> old(frame)@.len() == 4 * self@.len(),
            r matches Err(e) ==> e == WorldError::BufferSizeMismatch && final(frame)@ == old(frame)@,
            r is Ok ==> final(frame)@ == render(self@),
    {
        let n = self.cells.len();
        let len = frame.len();
        let expected = match n.checked_mul(4) {
            Some(v) => v,
            None => return Err(WorldError::BufferSizeMismatch),
        };
        if len != expected {
            return Err(WorldError::BufferSizeMismatch);
        }
        let ghost want = render(self@);
        let mut i: usize = 0;
        while i < n
            invariant
                0 <= i <= n,
                n == self@.len(),
                expected == 4 * n,
                frame@.len() == 4 * n,
                want == render(self@),
                forall|k: int| 0 <= k < 4 * i ==> #[trigger] frame@[k] == want[k],
            decreases n - i,
        {
            let rgba = colour(self.cells[i]);
            let base = 4 * i;
            frame[base] = rgba[0];
            frame[base + 1] = rgba[1];
            frame[base + 2] = rgba[2];
            frame[base + 3] = rgba[3];
            proof {
                assert forall|k: int| 0 <= k < 4 * (i + 1) implies #[trigger] frame@[k] == want[k] by {
                    if k >= 4 * i {
                        assert(k / 4 == i as int);
                        assert(k % 4 == k - 4 * i);
                    }
                }
            }
            i += 1;
        }
        proof {
            assert(frame@ =~= want);
        }
        Ok(())
    }
}

/// The RGBA colour of a cell in state `state`.
fn colour(state: State) -> (r: [u8; 4])
    ensures
        forall|c: int| 0 <= c < 4 ==> r@[c] == #[trigger] pixel_byte(state, c),
{
    match state {
        State::IMMUTABLE => [0xFF, 0x00, 0x4D, 0xFF],
        State::ALIVE => [0x1E, 0x1E, 0x1E, 0xFF],
        State::DEAD => [0xF8, 0xF8, 0xF8, 0xF8],
    }
}

} // verus!
