//! A square grid of on/off cells with a display color, as edited by the grid
//! front end: cells can be toggled, cleared, filled, randomized, and the grid
//! resized while keeping what still fits.
use vstd::prelude::*;

verus! {

/// A color as red, green and blue components.
#[derive(Debug, Clone, Copy, PartialEq, Eq, Structural)]
pub struct Rgb {
    pub r: u8,
    pub g: u8,
    pub b: u8,
}

/// Side of a fresh grid.
pub const DEFAULT_GRID_SIZE: usize = 10;

/// Relies on `rand::random::<bool>`, which draws from the thread-local
/// generator. Nothing is promised of the value. It panics only when the
/// operating system's random source cannot seed that generator.
#[verifier::external_body]
fn random_bool() -> bool {
    rand::random::<bool>()
}

/// A `size` by `size` grid of cells all set to `value`.
pub open spec fn uniform(size: nat, value: bool) -> Seq<Seq<bool>> {
    Seq::new(size, |i: int| Seq::new(size, |j: int| value))
}

/// The grid `g` resized to `size` by `size`: cells that existed keep their
/// value, new cells are off.
pub open spec fn resized(g: Seq<Seq<bool>>, size: nat) -> Seq<Seq<bool>> {
    Seq::new(
        size,
        |i: int|
            Seq::new(
                size,
                |j: int|
                    if i < g.len() && j < g[i].len() {
                        g[i][j]
                    } else {
                        false
                    },
            ),
    )
}

/// Whether `g` is a `size` by `size` grid.
pub open spec fn is_square(g: Seq<Seq<bool>>, size: nat) -> bool {
    g.len() == size && forall|i: int| 0 <= i < g.len() ==> #[trigger] g[i].len() == size
}

/// The grid and its display color.
pub struct GridApp {
    grid: Vec<Vec<bool>>,
    grid_size: usize,
    cell_color: Rgb,
}

impl View for GridApp {
    type V = Seq<Seq<bool>>;

    closed spec fn view(&self) -> Seq<Seq<bool>> {
        self.grid@.map_values(|row: Vec<bool>| row@)
    }
}

/// A row of `n` cells set to `value`.
fn row_of(n: usize, value: bool) -> (r: Vec<bool>)
    ensures
        r@ == Seq::new(n as nat, |j: int| value),
{
    let mut row: Vec<bool> = Vec::with_capacity(n);
    let mut j: usize = 0;
    while j < n
        invariant
            j <= n,
            row@ == Seq::new(j as nat, |k: int| value),
        decreases n - j,
    {
        row.push(value);
        j = j + 1;
    }
    row
}

impl GridApp {
    /// The side of the grid.
    pub closed spec fn size(&self) -> nat {
        self.grid_size as nat
    }

    /// Internal consistency: the grid is square with side `size()`.
    pub closed spec fn wf(&self) -> bool {
        is_square(self@, self.size())
    }

    /// A 10 by 10 grid with every cell off, drawn in green.
    pub fn new() -> (r: GridApp)
        ensures
            r.wf(),
            r.size() == DEFAULT_GRID_SIZE,
            r@ == uniform(DEFAULT_GRID_SIZE as nat, false),
            r.cell_color() == (Rgb { r: 46, g: 182, b: 125 }),
    {
        let mut r = GridApp {
            grid: Vec::new(),
            grid_size: DEFAULT_GRID_SIZE,
            cell_color: Rgb { r: 46, g: 182, b: 125 },
        };
        let ghost empty = r@;
        r.resize_grid(DEFAULT_GRID_SIZE);
        assert(empty.len() == 0);
        assert forall|i: int| 0 <= i < DEFAULT_GRID_SIZE implies #[trigger] r@[i] =~= uniform(
            DEFAULT_GRID_SIZE as nat,
            false,
        )[i] by {}
        assert(r@ =~= uniform(DEFAULT_GRID_SIZE as nat, false));
        r
    }

    /// The side of the grid.
    pub fn grid_size(&self) -> (r: usize)
        ensures
            r == self.size(),
    {
        self.grid_size
    }

    /// The value of a cell, if it lies in the grid.
    pub fn cell(&self, row: usize, col: usize) -> (r: Option<bool>)
        requires
            self.wf(),
        ensures
            row < self.size() && col < self.size() ==> r == Some(self@[row as int][col as int]),
            !(row < self.size() && col < self.size()) ==> r is None,
    {
        if row < self.grid_size && col < self.grid_size {
            assert(self@[row as int].len() == self.grid_size);
            assert(self@[row as int] == self.grid@[row as int]@);
            Some(self.grid[row][col])
        } else {
            None
        }
    }

    /// The color cells are drawn in.
    pub closed spec fn cell_color(&self) -> Rgb {
        self.cell_color
    }

    /// The color cells are drawn in.
    pub fn color(&self) -> (r: Rgb)
        ensures
            r == self.cell_color(),
    {
        self.cell_color
    }

    /// Changes the color cells are drawn in.
    pub fn set_color(&mut self, color: Rgb)
        ensures
            final(self).cell_color() == color,
            final(self)@ == old(self)@,
            final(self).size() == old(self).size(),
            final(self).wf() == old(self).wf(),
    {
        self.cell_color = color;
    }

    /// Flips one cell; a position outside the grid changes nothing.
    pub fn toggle_cell(&mut self, row: usize, col: usize)
        requires
            old(self).wf(),
        ensures
            final(self).wf(),
            final(self).size() == old(self).size(),
            final(self).cell_color() == old(self).cell_color(),
            row < old(self).size() && col < old(self).size() ==> final(self)@ == old(self)@.update(
                row as int,
                old(self)@[row as int].update(col as int, !old(self)@[row as int][col as int]),
            ),
            !(row < old(self).size() && col < old(self).size()) ==> final(self)@ == old(self)@,
    {
        if row < self.grid_size && col < self.grid_size {
            let ghost pre = self@;
            assert(self@[row as int].len() == self.grid_size);
            assert(self@[row as int] == self.grid@[row as int]@);
            let value = self.grid[row][col];
            self.grid[row].set(col, !value);
            assert(self@ =~= pre.update(row as int, pre[row as int].update(col as int, !value)));
        }
    }

    /// Sets every cell to `value`.
    fn set_all(&mut self, value: bool)
        requires
            old(self).wf(),
        ensures
            final(self).wf(),
            final(self).size() == old(self).size(),
            final(self).cell_color() == old(self).cell_color(),
            final(self)@ == uniform(old(self).size(), value),
    {
        let n = self.grid_size;
        let mut i: usize = 0;
        while i < n
            invariant
                i <= n,
                n == self.grid_size,
                self.cell_color == old(self).cell_color,
                self.grid_size == old(self).grid_size,
                is_square(self@, n as nat),
                forall|k: int| 0 <= k < i ==> #[trigger] self@[k] == Seq::new(n as nat, |j: int| value),
            decreases n - i,
        {
            let ghost pre = self@;
            self.grid.set(i, row_of(n, value));
            assert(self@ =~= pre.update(i as int, Seq::new(n as nat, |j: int| value)));
            i = i + 1;
        }
        assert(self@ =~= uniform(n as nat, value));
    }

    /// Turns every cell off.
    pub fn clear_grid(&mut self)
        requires
            old(self).wf(),
        ensures
            final(self).wf(),
            final(self).size() == old(self).size(),
            final(self).cell_color() == old(self).cell_color(),
            final(self)@ == uniform(old(self).size(), false),
    {
        self.set_all(false);
    }

    /// Turns every cell on.
    pub fn fill_grid(&mut self)
        requires
            old(self).wf(),
        ensures
            final(self).wf(),
            final(self).size() == old(self).size(),
            final(self).cell_color() == old(self).cell_color(),
            final(self)@ == uniform(old(self).size(), true),
    {
        self.set_all(true);
    }

    /// Sets every cell to a random value; the grid keeps its shape.
    pub fn randomize_grid(&mut self)
        requires
            old(self).wf(),
        ensures
            final(self).wf(),
            final(self).size() == old(self).size(),
            final(self).cell_color() == old(self).cell_color(),
    {
        let n = self.grid_size;
        let mut i: usize = 0;
        while i < n
            invariant
                i <= n,
                n == self.grid_size,
                self.cell_color == old(self).cell_color,
                self.grid_size == old(self).grid_size,
                is_square(self@, n as nat),
            decreases n - i,
        {
            let mut row: Vec<bool> = Vec::with_capacity(n);
            let mut j: usize = 0;
            while j < n
                invariant
                    j <= n,
                    row@.len() == j,
                decreases n - j,
            {
                row.push(random_bool());
                j = j + 1;
            }
            let ghost pre = self@;
            self.grid.set(i, row);
            assert(self@ =~= pre.update(i as int, row@));
            i = i + 1;
        }
    }

    /// Makes the grid `new_size` by `new_size`: cells that still fit keep
    /// their value, new cells are off.
    pub fn resize_grid(&mut self, new_size: usize)
        ensures
            final(self).wf(),
            final(self).size() == new_size,
            final(self).cell_color() == old(self).cell_color(),
            final(self)@ == resized(old(self)@, new_size as nat),
    {
        let mut new_grid: Vec<Vec<bool>> = Vec::with_capacity(new_size);
        let ghost old_view = self@;
        let mut i: usize = 0;
        while i < new_size
            invariant
                i <= new_size,
                self@ == old_view,
                new_grid@.len() == i,
                forall|k: int|
                    0 <= k < i ==> #[trigger] new_grid@[k]@ == resized(old_view, new_size as nat)[k],
            decreases new_size - i,
        {
            let mut row: Vec<bool> = Vec::with_capacity(new_size);
            let mut j: usize = 0;
            while j < new_size
                invariant
                    j <= new_size,
                    i < new_size,
                    self@ == old_view,
                    row@.len() == j,
                    forall|k: int|
                        0 <= k < j ==> #[trigger] row@[k] == resized(old_view, new_size as nat)[i as int][k],
                decreases new_size - j,
            {
                if i < self.grid.len() && j < self.grid[i].len() {
                    row.push(self.grid[i][j]);
                } else {
                    row.push(false);
                }
                j = j + 1;
            }
            assert(row@ =~= resized(old_view, new_size as nat)[i as int]);
            new_grid.push(row);
            i = i + 1;
        }
        self.grid = new_grid;
        self.grid_size = new_size;
        assert(self@ =~= resized(old_view, new_size as nat));
    }
}

} // verus!
