//! General laws of the automaton, proved once and for all grids.

use vstd::prelude::*;

use crate::cell::{alive_weight, next_cell_spec, Cell};
use crate::engine::is_next_generation;
use crate::grid::{cell_at, grid_height, grid_wf, grid_width, neighbour_count_spec, wrap_spec};

verus! {

/// Holds when every cell of the grid is dead.
pub open spec fn all_dead(g: Seq<Seq<Cell>>) -> bool {
    forall|x: int, y: int|
        0 <= x < grid_width(g) && 0 <= y < grid_height(g) ==> #[trigger] g[y][x] == Cell::Dead
}

/// Toroidal wrapping law: minus one wraps to the last coordinate, the
/// dimension itself wraps to zero, and every in-range coordinate is left
/// unchanged.
pub proof fn lemma_toroidal_wrap(dim: int)
    requires
        1 <= dim,
    ensures
        wrap_spec(-1, dim) == dim - 1,
        wrap_spec(dim, dim) == 0,
        forall|v: int| 0 <= v < dim ==> wrap_spec(v, dim) == v,
{
}

/// A single-wrap coordinate always lands back inside [0, dim).
pub proof fn lemma_wrap_in_range(v: int, dim: int)
    requires
        1 <= dim,
        -dim <= v < 2 * dim,
    ensures
        0 <= wrap_spec(v, dim) < dim,
{
}

/// The neighbour count of any valid position on any well-formed grid lies
/// between 0 and 8.
pub proof fn lemma_neighbour_count_bounds(g: Seq<Seq<Cell>>, x: int, y: int)
    requires
        grid_wf(g),
        0 <= x < grid_width(g),
        0 <= y < grid_height(g),
    ensures
        0 <= neighbour_count_spec(g, x, y) <= 8,
{
}

/// On a fully dead grid every wrapped lookup around a valid position finds a
/// dead cell.
proof fn lemma_all_dead_cell_at(g: Seq<Seq<Cell>>, x: int, y: int)
    requires
        grid_wf(g),
        all_dead(g),
        -1 <= x <= grid_width(g),
        -1 <= y <= grid_height(g),
    ensures
        cell_at(g, x, y) == Cell::Dead,
{
    let xx = wrap_spec(x, grid_width(g));
    let yy = wrap_spec(y, grid_height(g));
    lemma_wrap_in_range(x, grid_width(g));
    lemma_wrap_in_range(y, grid_height(g));
    assert(g[yy][xx] == Cell::Dead);
}

/// On a fully dead grid every valid position has neighbour count zero.
pub proof fn lemma_all_dead_count(g: Seq<Seq<Cell>>, x: int, y: int)
    requires
        grid_wf(g),
        all_dead(g),
        0 <= x < grid_width(g),
        0 <= y < grid_height(g),
    ensures
        neighbour_count_spec(g, x, y) == 0,
{
    lemma_all_dead_cell_at(g, x - 1, y - 1);
    lemma_all_dead_cell_at(g, x, y - 1);
    lemma_all_dead_cell_at(g, x + 1, y - 1);
    lemma_all_dead_cell_at(g, x - 1, y);
    lemma_all_dead_cell_at(g, x + 1, y);
    lemma_all_dead_cell_at(g, x - 1, y + 1);
    lemma_all_dead_cell_at(g, x, y + 1);
    lemma_all_dead_cell_at(g, x + 1, y + 1);
}

/// No spontaneous generation: advancing a fully dead grid leaves every cell
/// dead.
pub proof fn lemma_dead_grid_stays_dead(g: Seq<Seq<Cell>>, r: Seq<Seq<Cell>>)
    requires
        grid_wf(g),
        all_dead(g),
        is_next_generation(g, r),
    ensures
        all_dead(r),
{
    assert forall|x: int, y: int|
        0 <= x < grid_width(r) && 0 <= y < grid_height(r) implies #[trigger] r[y][x]
        == Cell::Dead by {
        assert(grid_width(r) == grid_width(g));
        lemma_all_dead_count(g, x, y);
        assert(r[y][x] == next_cell_spec(g[y][x], 0));
        assert(g[y][x] == Cell::Dead);
    }
}

/// The generation advance is deterministic: the simultaneous-update relation
/// admits exactly one successor of any well-formed grid, so repeated
/// advances from the same snapshot agree cell for cell.
pub proof fn lemma_advance_deterministic(g: Seq<Seq<Cell>>, r1: Seq<Seq<Cell>>, r2: Seq<Seq<Cell>>)
    requires
        grid_wf(g),
        is_next_generation(g, r1),
        is_next_generation(g, r2),
    ensures
        r1 == r2,
{
    assert forall|y: int| 0 <= y < r1.len() implies #[trigger] r1[y] == r2[y] by {
        assert(r1[y].len() == grid_width(g));
        assert(r2[y].len() == grid_width(g));
        assert forall|x: int| 0 <= x < r1[y].len() implies #[trigger] r1[y][x] == r2[y][x] by {
            assert(r1[y][x] == next_cell_spec(g[y][x], neighbour_count_spec(g, x, y)));
            assert(r2[y][x] == next_cell_spec(g[y][x], neighbour_count_spec(g, x, y)));
        }
        assert(r1[y] =~= r2[y]);
    }
    assert(r1 =~= r2);
}

/// The neighbour count of the corner (0, 0) is drawn from the wrapped rows
/// and columns: the three cells in the last row, the two further cells in
/// the last column, and the three ordinary neighbours beside and below.
pub proof fn lemma_corner_neighbours(g: Seq<Seq<Cell>>)
    requires
        grid_wf(g),
        grid_width(g) >= 2,
        grid_height(g) >= 2,
    ensures
        neighbour_count_spec(g, 0, 0) == alive_weight(g[grid_height(g) - 1][grid_width(g) - 1])
            + alive_weight(g[grid_height(g) - 1][0]) + alive_weight(g[grid_height(g) - 1][1])
            + alive_weight(g[0][grid_width(g) - 1]) + alive_weight(g[0][1])
            + alive_weight(g[1][grid_width(g) - 1]) + alive_weight(g[1][0])
            + alive_weight(g[1][1]),
{
}

} // verus!
