//! The transition engine: advancing a grid one generation, and building the
//! randomized starting grid.

use vstd::prelude::*;

use rand::Rng;

use crate::cell::{next_cell, next_cell_spec, Cell};
use crate::grid::{
    count_neighbours, grid_height, grid_wf, grid_width, lemma_grid_deep_view,
    neighbour_count_spec, Grid, GRID_HEIGHT, GRID_WIDTH,
};

verus! {

/// The simultaneous-update relation: r is the generation after g exactly when
/// it has g's dimensions and every one of its cells is the rule table applied
/// to the corresponding cell of g and that cell's neighbour count — all taken
/// from the one snapshot g, never from a partially built grid.
pub open spec fn is_next_generation(g: Seq<Seq<Cell>>, r: Seq<Seq<Cell>>) -> bool {
    &&& r.len() == g.len()
    &&& forall|y: int| 0 <= y < r.len() ==> (#[trigger] r[y]).len() == grid_width(g)
    &&& forall|x: int, y: int|
        0 <= x < grid_width(g) && 0 <= y < grid_height(g) ==> #[trigger] r[y][x]
            == next_cell_spec(g[y][x], neighbour_count_spec(g, x, y))
}

/// Produces the next generation of a well-formed grid: a fresh grid of the
/// same dimensions in which every cell's state is computed from the input
/// snapshot alone, so all cells update simultaneously.
pub fn next_grid(grid: &Grid) -> (r: Grid)
    requires
        grid_wf(grid.deep_view()),
    ensures
        is_next_generation(grid.deep_view(), r.deep_view()),
        grid_wf(r.deep_view()),
        grid_width(r.deep_view()) == grid_width(grid.deep_view()),
        grid_height(r.deep_view()) == grid_height(grid.deep_view()),
{
    let ghost g = grid.deep_view();
    proof {
        lemma_grid_deep_view(grid);
    }
    let h = grid.len();
    let w = grid[0].len();

    let mut out: Grid = Vec::new();
    let mut y: usize = 0;
    while y < h
        invariant
            grid_wf(g),
            g == grid.deep_view(),
            h as int == grid_height(g),
            w as int == grid_width(g),
            y <= h,
            out@.len() == y,
            forall|yy: int| 0 <= yy < y ==> (#[trigger] out@[yy])@.len() == w,
            forall|xx: int, yy: int|
                0 <= xx < w && 0 <= yy < y ==> #[trigger] out@[yy]@[xx]
                    == next_cell_spec(g[yy][xx], neighbour_count_spec(g, xx, yy)),
        decreases h - y,
    {
        let mut row: Vec<Cell> = Vec::new();
        let mut x: usize = 0;
        while x < w
            invariant
                grid_wf(g),
                g == grid.deep_view(),
                h as int == grid_height(g),
                w as int == grid_width(g),
                y < h,
                x <= w,
                row@.len() == x,
                forall|xx: int|
                    0 <= xx < x ==> #[trigger] row@[xx]
                        == next_cell_spec(g[y as int][xx], neighbour_count_spec(g, xx, y as int)),
            decreases w - x,
        {
            proof {
                lemma_grid_deep_view(grid);
            }
            let n = count_neighbours(grid, x, y);
            let c = next_cell(grid[y][x], n);
            row.push(c);
            x = x + 1;
        }
        out.push(row);
        y = y + 1;
    }

    proof {
        lemma_grid_deep_view(&out);
        assert forall|yy: int| 0 <= yy < h implies (#[trigger] out.deep_view()[yy]).len()
            == w by {
            assert(out.deep_view()[yy] == out@[yy]@);
        }
        assert forall|xx: int, yy: int|
            0 <= xx < w && 0 <= yy < h implies #[trigger] out.deep_view()[yy][xx]
                == next_cell_spec(g[yy][xx], neighbour_count_spec(g, xx, yy)) by {
            assert(out.deep_view()[yy] == out@[yy]@);
        }
    }
    out
}

/// Relies on rand::thread_rng and rand::Rng::gen_range over the range
/// 0..max: a draw from the thread-local generator, uniform over [0, max),
/// which panics only on an empty range, kept out by the precondition.
#[verifier::external_body]
fn random(max: usize) -> (r: usize)
    requires
        1 <= max,
    ensures
        r < max,
{
    rand::thread_rng().gen_range(0..max)
}

/// Decides a cell from one draw over four outcomes: alive exactly on the
/// first outcome, dead on the other three.
pub fn cell_from_draw(d: usize) -> (c: Cell)
    ensures
        c == (if d == 0 {
            Cell::Alive
        } else {
            Cell::Dead
        }),
{
    match d {
        0 => Cell::Alive,
        _ => Cell::Dead,
    }
}

/// Builds a width-by-height grid in which each cell is sampled
/// independently: alive with probability one in four, dead otherwise.
pub fn random_grid(width: usize, height: usize) -> (r: Grid)
    requires
        1 <= width,
        1 <= height,
    ensures
        grid_wf(r.deep_view()),
        grid_width(r.deep_view()) == width,
        grid_height(r.deep_view()) == height,
{
    let mut out: Grid = Vec::new();
    let mut y: usize = 0;
    while y < height
        invariant
            y <= height,
            out@.len() == y,
            forall|yy: int| 0 <= yy < y ==> (#[trigger] out@[yy])@.len() == width,
        decreases height - y,
    {
        let mut row: Vec<Cell> = Vec::new();
        let mut x: usize = 0;
        while x < width
            invariant
                x <= width,
                row@.len() == x,
            decreases width - x,
        {
            let c = cell_from_draw(random(4));
            row.push(c);
            x = x + 1;
        }
        out.push(row);
        y = y + 1;
    }

    proof {
        lemma_grid_deep_view(&out);
        assert forall|yy: int| 0 <= yy < height implies (#[trigger] out.deep_view()[yy]).len()
            == width by {
            assert(out.deep_view()[yy] == out@[yy]@);
        }
    }
    out
}

/// Produces the randomized starting grid at the fixed dimensions.
pub fn init_grid() -> (r: Grid)
    ensures
        grid_wf(r.deep_view()),
        grid_width(r.deep_view()) == GRID_WIDTH as int,
        grid_height(r.deep_view()) == GRID_HEIGHT as int,
{
    random_grid(GRID_WIDTH, GRID_HEIGHT)
}

/// Decides at run time whether a grid is well formed: at least one row and
/// one column, and all rows of equal length.
pub fn is_well_formed(grid: &Grid) -> (r: bool)
    ensures
        r == grid_wf(grid.deep_view()),
{
    proof {
        lemma_grid_deep_view(grid);
    }
    let h = grid.len();
    if h == 0 {
        return false;
    }
    let w = grid[0].len();
    if w == 0 {
        return false;
    }
    let mut y: usize = 1;
    while y < h
        invariant
            1 <= y <= h,
            h == grid@.len(),
            w as int == grid_width(grid.deep_view()),
            1 <= w,
            forall|yy: int|
                0 <= yy < y ==> (#[trigger] grid.deep_view()[yy]).len() == w,
            forall|yy: int|
                0 <= yy < grid@.len() ==> #[trigger] grid.deep_view()[yy] == grid@[yy]@,
        decreases h - y,
    {
        if grid[y].len() != w {
            proof {
                assert(grid.deep_view()[y as int].len() != w);
            }
            return false;
        }
        y = y + 1;
    }
    true
}

} // verus!
