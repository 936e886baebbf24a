//! A toroidal two-dimensional cellular automaton (Conway's Game of Life).
//!
//! The grid is a fixed-size lattice of binary cells whose edges wrap around
//! in both axes. Each generation is a fresh snapshot computed entirely from
//! the previous one, so every cell's next state is decided simultaneously.

pub mod cell;
pub mod engine;
pub mod grid;
pub mod laws;

pub use cell::Cell;
pub use cell::next_cell;
pub use engine::cell_from_draw;
pub use engine::init_grid;
pub use engine::is_well_formed;
pub use engine::next_grid;
pub use engine::random_grid;
pub use grid::count_neighbours;
pub use grid::get_index;
pub use grid::Grid;
pub use grid::GRID_HEIGHT;
pub use grid::GRID_WIDTH;
