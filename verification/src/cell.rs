//! The binary cell state and the local transition rule.

use vstd::prelude::*;

verus! {

/// A cell is either `Alive` or `Dead`; it carries no other data.
#[derive(Clone, Copy, Debug, PartialEq, Eq, Structural)]
pub enum Cell {
    Alive,
    Dead,
}

impl DeepView for Cell {
    type V = Cell;

    open spec fn deep_view(&self) -> Cell {
        *self
    }
}

/// Weight of a cell when counting live neighbours: one if alive, zero if dead.
pub open spec fn alive_weight(c: Cell) -> nat {
    match c {
        Cell::Alive => 1,
        Cell::Dead => 0,
    }
}

/// The rule table: the next state of a cell from its current state and its
/// count of live neighbours. An alive cell survives exactly on counts 2 and 3;
/// a dead cell is born exactly on count 3.
pub open spec fn next_cell_spec(c: Cell, n: nat) -> Cell {
    match c {
        Cell::Alive => if n == 2 || n == 3 {
            Cell::Alive
        } else {
            Cell::Dead
        },
        Cell::Dead => if n == 3 {
            Cell::Alive
        } else {
            Cell::Dead
        },
    }
}

/// Applies the rule table to one cell.
pub fn next_cell(c: Cell, n: u8) -> (r: Cell)
    ensures
        r == next_cell_spec(c, n as nat),
{
    match c {
        Cell::Alive => match n {
            2 | 3 => Cell::Alive,
            _ => Cell::Dead,
        },
        Cell::Dead => match n {
            3 => Cell::Alive,
            _ => Cell::Dead,
        },
    }
}

} // verus!
