//! The cell grid: a fixed WIDTH x HEIGHT matrix of boolean cells backed by a
//! flat buffer, with bounds-checked accessors. Coordinates outside the grid
//! read as absent and writes to them are no-ops.

use vstd::prelude::*;
use vstd::pervasive::VecAdditionalExecFns;

verus! {

/// Number of columns in the grid.
pub const WIDTH: i32 = 150;

/// Number of rows in the grid.
pub const HEIGHT: i32 = 150;

/// Whether (x, y) lies within [0, WIDTH) x [0, HEIGHT).
pub open spec fn in_bounds(x: int, y: int) -> bool {
    0 <= x < WIDTH as int && 0 <= y < HEIGHT as int
}

/// Position of cell (x, y) in the flat row-major buffer.
pub open spec fn cell_index(x: int, y: int) -> int {
    x * (HEIGHT as int) + y
}

/// A well-formed grid buffer holds exactly WIDTH * HEIGHT cells.
pub open spec fn grid_wf(g: Seq<bool>) -> bool {
    g.len() == (WIDTH as int) * (HEIGHT as int)
}

/// Whether the cell at (x, y) is alive; positions outside the grid are dead.
pub open spec fn cell_at(g: Seq<bool>, x: int, y: int) -> bool {
    in_bounds(x, y) && g[cell_index(x, y)]
}

/// 1 when the cell at (x, y) is alive, 0 otherwise (also for positions
/// outside the grid, which contribute nothing to a neighbor count).
pub open spec fn live_ind(g: Seq<bool>, x: int, y: int) -> int {
    if cell_at(g, x, y) {
        1
    } else {
        0
    }
}

/// Number of alive cells among the 8 positions surrounding (x, y); positions
/// outside the grid contribute 0 (no wraparound).
pub open spec fn neighbor_count(g: Seq<bool>, x: int, y: int) -> int {
    live_ind(g, x - 1, y - 1) + live_ind(g, x, y - 1) + live_ind(g, x + 1, y - 1) + live_ind(
        g,
        x - 1,
        y,
    ) + live_ind(g, x + 1, y) + live_ind(g, x - 1, y + 1) + live_ind(g, x, y + 1) + live_ind(
        g,
        x + 1,
        y + 1,
    )
}

/// The standard transition rule: an alive cell survives iff it has exactly 2
/// or 3 alive neighbors; a dead cell becomes alive iff it has exactly 3.
pub open spec fn next_alive(g: Seq<bool>, x: int, y: int) -> bool {
    if cell_at(g, x, y) {
        neighbor_count(g, x, y) == 2 || neighbor_count(g, x, y) == 3
    } else {
        neighbor_count(g, x, y) == 3
    }
}

/// The next generation: every cell of the result is `next_alive` of the input
/// snapshot, so no cell's new value depends on another cell's new value.
pub open spec fn next_gen(g: Seq<bool>) -> Seq<bool> {
    Seq::new(
        ((WIDTH as int) * (HEIGHT as int)) as nat,
        |k: int| next_alive(g, k / (HEIGHT as int), k % (HEIGHT as int)),
    )
}

/// Returns whether (x, y) is a valid cell coordinate.
pub fn check(x: i32, y: i32) -> (b: bool)
    ensures
        b == in_bounds(x as int, y as int),
{
    if x < 0 || x >= WIDTH || y < 0 || y >= HEIGHT {
        return false;
    }
    true
}

/// The fixed-size cell matrix. `true` is alive, `false` is dead.
pub struct Grid {
    cells: Vec<bool>,
}

impl View for Grid {
    type V = Seq<bool>;

    closed spec fn view(&self) -> Seq<bool> {
        self.cells@
    }
}

impl Grid {
    /// The grid holds exactly one cell per coordinate pair.
    pub open spec fn wf(&self) -> bool {
        grid_wf(self@)
    }

    /// Returns the cell value at (x, y), or `None` when the coordinates lie
    /// outside the grid.
    pub fn get(&self, x: i32, y: i32) -> (r: Option<bool>)
        requires
            self.wf(),
        ensures
            in_bounds(x as int, y as int) ==> r == Some(cell_at(self@, x as int, y as int)),
            !in_bounds(x as int, y as int) ==> r == None::<bool>,
    {
        if check(x, y) {
            Some(self.cells[(x as usize) * (HEIGHT as usize) + (y as usize)])
        } else {
            None
        }
    }

    /// Writes `val` at (x, y); silently does nothing when the coordinates lie
    /// outside the grid.
    pub fn set(&mut self, x: i32, y: i32, val: bool)
        requires
            old(self).wf(),
        ensures
            final(self).wf(),
            in_bounds(x as int, y as int) ==> final(self)@ == old(self)@.update(
                cell_index(x as int, y as int),
                val,
            ),
            !in_bounds(x as int, y as int) ==> final(self)@ == old(self)@,
    {
        if check(x, y) {
            self.cells.set((x as usize) * (HEIGHT as usize) + (y as usize), val);
        }
    }

    /// Sets every cell of the grid to `val`.
    pub fn fill(&mut self, val: bool)
        requires
            old(self).wf(),
        ensures
            final(self).wf(),
            forall|i: int| 0 <= i < final(self)@.len() ==> final(self)@[i] == val,
    {
        let mut cells: Vec<bool> = Vec::new();
        let n: usize = (WIDTH as usize) * (HEIGHT as usize);
        while cells.len() < n
            invariant
                cells.len() <= n,
                forall|i: int| 0 <= i < cells.len() ==> cells@[i] == val,
            decreases n - cells.len(),
        {
            cells.push(val);
        }
        self.cells = cells;
    }

    /// 1 when the cell at (x, y) is alive, 0 otherwise; tolerates coordinates
    /// outside the grid, which count as dead.
    fn live(&self, x: i32, y: i32) -> (c: u8)
        requires
            self.wf(),
        ensures
            c as int == live_ind(self@, x as int, y as int),
    {
        match self.get(x, y) {
            Some(true) => 1,
            _ => 0,
        }
    }

    /// Counts the alive cells among the 8 neighbors of (x, y).
    fn neighbors(&self, x: i32, y: i32) -> (n: u8)
        requires
            self.wf(),
            in_bounds(x as int, y as int),
        ensures
            n as int == neighbor_count(self@, x as int, y as int),
    {
        self.live(x - 1, y - 1) + self.live(x, y - 1) + self.live(x + 1, y - 1) + self.live(
            x - 1,
            y,
        ) + self.live(x + 1, y) + self.live(x - 1, y + 1) + self.live(x, y + 1) + self.live(
            x + 1,
            y + 1,
        )
    }

    /// Advances the grid by one generation. Every cell of the result is the
    /// transition rule applied to the snapshot the grid held on entry, so no
    /// cell's new value depends on another cell's new value.
    pub fn update(&mut self)
        requires
            old(self).wf(),
        ensures
            final(self).wf(),
            final(self)@ == next_gen(old(self)@),
    {
        let ghost g0 = self@;
        let mut out: Vec<bool> = Vec::new();
        let mut x: i32 = 0;
        while x < WIDTH
            invariant
                self.wf(),
                self@ == g0,
                0 <= x <= WIDTH,
                out@.len() == x as int * (HEIGHT as int),
                forall|i: int, j: int|
                    0 <= i < x as int && 0 <= j < HEIGHT as int ==> out@[cell_index(i, j)]
                        == next_alive(g0, i, j),
            decreases WIDTH as int - x as int,
        {
            let mut y: i32 = 0;
            while y < HEIGHT
                invariant
                    self.wf(),
                    self@ == g0,
                    0 <= x < WIDTH,
                    0 <= y <= HEIGHT,
                    out@.len() == x as int * (HEIGHT as int) + y as int,
                    forall|i: int, j: int|
                        0 <= i < x as int && 0 <= j < HEIGHT as int ==> out@[cell_index(i, j)]
                            == next_alive(g0, i, j),
                    forall|j: int|
                        0 <= j < y as int ==> out@[cell_index(x as int, j)] == next_alive(
                            g0,
                            x as int,
                            j,
                        ),
                decreases HEIGHT as int - y as int,
            {
                let a = self.live(x, y);
                let n = self.neighbors(x, y);
                let v = if a == 1 {
                    n == 2 || n == 3
                } else {
                    n == 3
                };
                proof {
                    assert(v == next_alive(g0, x as int, y as int));
                }
                out.push(v);
                y = y + 1;
            }
            x = x + 1;
        }
        self.cells = out;
        proof {
            assert forall|k: int| 0 <= k < self@.len() implies self@[k] == next_alive(
                g0,
                k / (HEIGHT as int),
                k % (HEIGHT as int),
            ) by {
                let h = HEIGHT as int;
                vstd::arithmetic::div_mod::lemma_fundamental_div_mod(k, h);
                vstd::arithmetic::div_mod::lemma_mod_pos_bound(k, h);
                vstd::arithmetic::div_mod::lemma_multiply_divide_lt(k, h, WIDTH as int);
                let i = k / h;
                let j = k % h;
                assert(0 <= i < WIDTH as int);
                assert(0 <= j < h);
                assert(cell_index(i, j) == k);
            }
            assert(self@ =~= next_gen(g0));
        }
    }

    /// Replaces every cell by a fresh random bit, each drawn independently
    /// and uniformly.
    pub fn randomize(&mut self)
        requires
            old(self).wf(),
        ensures
            final(self).wf(),
    {
        let mut cells: Vec<bool> = Vec::new();
        let n: usize = (WIDTH as usize) * (HEIGHT as usize);
        while cells.len() < n
            invariant
                n == (WIDTH as int) * (HEIGHT as int),
                cells.len() <= n,
            decreases n - cells.len(),
        {
            cells.push(random_bool());
        }
        self.cells = cells;
    }

    /// Copies every cell of `s` into this grid.
    pub fn copy_from(&mut self, s: &Grid)
        requires
            old(self).wf(),
            s.wf(),
        ensures
            final(self).wf(),
            final(self)@ == s@,
    {
        let mut cells: Vec<bool> = Vec::new();
        let n: usize = s.cells.len();
        while cells.len() < n
            invariant
                cells.len() <= n,
                n == s@.len(),
                forall|i: int| 0 <= i < cells.len() ==> cells@[i] == s@[i],
            decreases n - cells.len(),
        {
            cells.push(s.cells[cells.len()]);
        }
        self.cells = cells;
        proof {
            assert(self@ =~= s@);
        }
    }
}

/// Law: a cell of the next generation is the transition rule applied to the
/// old generation at the same coordinates.
pub proof fn lemma_next_gen_cell(g: Seq<bool>, x: int, y: int)
    requires
        in_bounds(x, y),
    ensures
        cell_at(next_gen(g), x, y) == next_alive(g, x, y),
{
    vstd::arithmetic::div_mod::lemma_fundamental_div_mod_converse(
        cell_index(x, y),
        HEIGHT as int,
        x,
        y,
    );
}

/// Law: an alive cell with no alive neighbors does not survive an update.
pub proof fn lemma_isolated_cell_dies(g: Seq<bool>, x: int, y: int)
    requires
        cell_at(g, x, y),
        neighbor_count(g, x, y) == 0,
    ensures
        !next_alive(g, x, y),
{
}

/// Law: a dead cell with exactly 3 alive neighbors comes alive.
pub proof fn lemma_birth_on_three(g: Seq<bool>, x: int, y: int)
    requires
        !cell_at(g, x, y),
        neighbor_count(g, x, y) == 3,
    ensures
        next_alive(g, x, y),
{
}

/// Returns a grid with every cell dead.
pub fn zerotable() -> (g: Grid)
    ensures
        g.wf(),
        forall|x: int, y: int| !cell_at(g@, x, y),
        forall|i: int| 0 <= i < g@.len() ==> !g@[i],
{
    let mut cells: Vec<bool> = Vec::new();
    let n: usize = (WIDTH as usize) * (HEIGHT as usize);
    while cells.len() < n
        invariant
            n == (WIDTH as int) * (HEIGHT as int),
            cells.len() <= n,
            forall|i: int| 0 <= i < cells.len() ==> !cells@[i],
        decreases n - cells.len(),
    {
        cells.push(false);
    }
    Grid { cells }
}

/// Relies on rand::random::<bool>: one draw from the thread-local generator,
/// uniform over true and false. Nothing is assumed of the value returned.
#[verifier::external_body]
fn random_bool() -> bool {
    rand::random::<bool>()
}

/// Returns a grid whose cells are independent uniformly random bits.
pub fn randomtable() -> (g: Grid)
    ensures
        g.wf(),
{
    let mut g = zerotable();
    g.randomize();
    g
}

} // verus!
