//! The toroidal grid: representation, wraparound indexing and neighbour
//! counting.

use vstd::prelude::*;

use crate::cell::{alive_weight, Cell};

verus! {

/// Number of cell columns in the fixed-size grid that `init_grid` produces.
pub const GRID_WIDTH: usize = 80;

/// Number of cell rows in the fixed-size grid that `init_grid` produces.
pub const GRID_HEIGHT: usize = 60;

/// A grid is a row-major rectangle of cells: `grid[y][x]` is the cell in
/// column `x` of row `y`. A grid is built once and never mutated; each
/// generation is a fresh snapshot.
pub type Grid = Vec<Vec<Cell>>;

/// The number of rows of a grid.
pub open spec fn grid_height(g: Seq<Seq<Cell>>) -> int {
    g.len() as int
}

/// The number of columns of a grid: the length of its first row.
pub open spec fn grid_width(g: Seq<Seq<Cell>>) -> int {
    if g.len() == 0 {
        0
    } else {
        g[0].len() as int
    }
}

/// A well-formed grid has at least one row and one column, and all its rows
/// have the same length, so every position (x, y) with 0 <= x < width and
/// 0 <= y < height holds exactly one cell.
pub open spec fn grid_wf(g: Seq<Seq<Cell>>) -> bool {
    &&& grid_height(g) >= 1
    &&& grid_width(g) >= 1
    &&& forall|y: int| 0 <= y < g.len() ==> (#[trigger] g[y]).len() == grid_width(g)
}

/// Toroidal wrap of one coordinate: a value one step outside [0, dim) in
/// either direction comes back in at the opposite edge. This is meaningful
/// for the single-wrap range -dim <= v < 2 * dim; the automaton only ever
/// wraps offsets in [-1, dim].
pub open spec fn wrap_spec(v: int, dim: int) -> int {
    if v < 0 {
        v + dim
    } else if v >= dim {
        v - dim
    } else {
        v
    }
}

/// The cell at toroidal position (x, y): both coordinates are wrapped
/// independently before the lookup, so positions one step outside the bounds
/// reach the opposite edge of the grid.
pub open spec fn cell_at(g: Seq<Seq<Cell>>, x: int, y: int) -> Cell {
    g[wrap_spec(y, grid_height(g))][wrap_spec(x, grid_width(g))]
}

/// The number of live cells among the eight toroidal Moore neighbours of
/// (x, y): the eight adjacent positions, wrapped in both axes, never the
/// cell itself.
pub open spec fn neighbour_count_spec(g: Seq<Seq<Cell>>, x: int, y: int) -> nat {
    alive_weight(cell_at(g, x - 1, y - 1)) + alive_weight(cell_at(g, x, y - 1))
        + alive_weight(cell_at(g, x + 1, y - 1)) + alive_weight(cell_at(g, x - 1, y))
        + alive_weight(cell_at(g, x + 1, y)) + alive_weight(cell_at(g, x - 1, y + 1))
        + alive_weight(cell_at(g, x, y + 1)) + alive_weight(cell_at(g, x + 1, y + 1))
}

/// Relates the nested view of a grid to its deep view: same number of rows,
/// and each row's deep view is the row's own view.
pub proof fn lemma_grid_deep_view(grid: &Grid)
    ensures
        grid.deep_view().len() == grid@.len(),
        forall|y: int|
            0 <= y < grid@.len() ==> #[trigger] grid.deep_view()[y] == grid@[y]@,
{
    assert forall|y: int|
        0 <= y < grid@.len() implies #[trigger] grid.deep_view()[y] == grid@[y]@ by {
        assert(grid.deep_view()[y] == grid@[y].deep_view());
        assert(grid@[y].deep_view() =~= grid@[y]@);
    }
}

/// Wraps a signed coordinate pair into the fixed grid's bounds, one axis at
/// a time. Offsets must lie in the single-wrap range [-1, dimension];
/// a double wrap is outside this contract.
pub fn get_index(x: isize, y: isize) -> (r: (usize, usize))
    requires
        -1 <= x as int <= GRID_WIDTH as int,
        -1 <= y as int <= GRID_HEIGHT as int,
    ensures
        r.0 as int == wrap_spec(x as int, GRID_WIDTH as int),
        r.1 as int == wrap_spec(y as int, GRID_HEIGHT as int),
        r.0 < GRID_WIDTH,
        r.1 < GRID_HEIGHT,
{
    let x: isize = if x < 0 {
        GRID_WIDTH as isize + x
    } else if x >= GRID_WIDTH as isize {
        x - GRID_WIDTH as isize
    } else {
        x
    };

    let y: isize = if y < 0 {
        GRID_HEIGHT as isize + y
    } else if y >= GRID_HEIGHT as isize {
        y - GRID_HEIGHT as isize
    } else {
        y
    };
    (x as usize, y as usize)
}

/// Steps one coordinate down with wraparound: the wrapped form of v - 1.
fn wrap_dec(v: usize, dim: usize) -> (r: usize)
    requires
        v < dim,
    ensures
        r as int == wrap_spec(v as int - 1, dim as int),
        r < dim,
{
    if v == 0 {
        dim - 1
    } else {
        v - 1
    }
}

/// Steps one coordinate up with wraparound: the wrapped form of v + 1.
fn wrap_inc(v: usize, dim: usize) -> (r: usize)
    requires
        v < dim,
    ensures
        r as int == wrap_spec(v as int + 1, dim as int),
        r < dim,
{
    if v + 1 == dim {
        0
    } else {
        v + 1
    }
}

/// The counting weight of one cell, as a machine integer.
fn cell_weight(c: Cell) -> (r: u8)
    ensures
        r as nat == alive_weight(c),
{
    match c {
        Cell::Alive => 1,
        Cell::Dead => 0,
    }
}

/// Counts the live cells among the eight toroidal neighbours of the valid
/// position (x, y): eight constant-time lookups, with both axes wrapping
/// independently at the edges.
pub fn count_neighbours(grid: &Grid, x: usize, y: usize) -> (r: u8)
    requires
        grid_wf(grid.deep_view()),
        (x as int) < grid_width(grid.deep_view()),
        (y as int) < grid_height(grid.deep_view()),
    ensures
        r as nat == neighbour_count_spec(grid.deep_view(), x as int, y as int),
        r <= 8,
{
    let ghost g = grid.deep_view();
    proof {
        lemma_grid_deep_view(grid);
    }
    let h = grid.len();
    let w = grid[0].len();
    proof {
        assert(h as int == grid_height(g));
        assert(w as int == grid_width(g));
        assert forall|yy: int| 0 <= yy < h implies (#[trigger] grid@[yy])@.len() == w by {
            assert(grid.deep_view()[yy] == grid@[yy]@);
        }
    }

    let xl = wrap_dec(x, w);
    let xr = wrap_inc(x, w);
    let yu = wrap_dec(y, h);
    let yd = wrap_inc(y, h);

    let mut count: u8 = cell_weight(grid[yu][xl]);
    count = count + cell_weight(grid[yu][x]);
    count = count + cell_weight(grid[yu][xr]);
    count = count + cell_weight(grid[y][xl]);
    count = count + cell_weight(grid[y][xr]);
    count = count + cell_weight(grid[yd][xl]);
    count = count + cell_weight(grid[yd][x]);
    count = count + cell_weight(grid[yd][xr]);
    count
}

} // verus!
