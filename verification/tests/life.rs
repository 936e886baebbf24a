use game_of_life::{
    cell_from_draw, count_neighbours, get_index, init_grid, is_well_formed, next_cell, next_grid,
    random_grid, Cell, Grid, GRID_HEIGHT, GRID_WIDTH,
};

fn dead_grid(width: usize, height: usize) -> Grid {
    vec![vec![Cell::Dead; width]; height]
}

fn set_alive(grid: &mut Grid, cells: &[(usize, usize)]) {
    for &(x, y) in cells {
        grid[y][x] = Cell::Alive;
    }
}

#[test]
fn init_grid_has_fixed_dimensions() {
    let g = init_grid();
    assert_eq!(g.len(), GRID_HEIGHT);
    for row in &g {
        assert_eq!(row.len(), GRID_WIDTH);
    }
    assert!(is_well_formed(&g));
}

#[test]
fn init_grid_samples_both_states() {
    // 4800 cells at one-in-four alive: seeing only one state would mean the
    // random source is not sampling the range at all.
    let g = init_grid();
    let alive = g
        .iter()
        .flatten()
        .filter(|c| matches!(c, Cell::Alive))
        .count();
    let dead = g
        .iter()
        .flatten()
        .filter(|c| matches!(c, Cell::Dead))
        .count();
    assert!(alive > 0);
    assert!(dead > 0);
    assert_eq!(alive + dead, GRID_WIDTH * GRID_HEIGHT);
}

#[test]
fn cell_from_draw_is_alive_on_one_outcome_of_four() {
    assert_eq!(cell_from_draw(0), Cell::Alive);
    assert_eq!(cell_from_draw(1), Cell::Dead);
    assert_eq!(cell_from_draw(2), Cell::Dead);
    assert_eq!(cell_from_draw(3), Cell::Dead);
}

#[test]
fn random_grid_has_requested_dimensions() {
    let g = random_grid(5, 3);
    assert_eq!(g.len(), 3);
    for row in &g {
        assert_eq!(row.len(), 5);
    }
    let one = random_grid(1, 1);
    assert_eq!(one.len(), 1);
    assert_eq!(one[0].len(), 1);
}

#[test]
fn get_index_wraps_negative_x() {
    assert_eq!(get_index(-1, 5), (GRID_WIDTH - 1, 5));
}

#[test]
fn get_index_wraps_overflow_x() {
    assert_eq!(get_index(GRID_WIDTH as isize, 5), (0, 5));
}

#[test]
fn get_index_wraps_negative_y() {
    assert_eq!(get_index(3, -1), (3, GRID_HEIGHT - 1));
}

#[test]
fn get_index_wraps_overflow_y() {
    assert_eq!(get_index(3, GRID_HEIGHT as isize), (3, 0));
}

#[test]
fn get_index_is_identity_in_range() {
    assert_eq!(get_index(0, 0), (0, 0));
    assert_eq!(get_index(10, 20), (10, 20));
    assert_eq!(
        get_index(GRID_WIDTH as isize - 1, GRID_HEIGHT as isize - 1),
        (GRID_WIDTH - 1, GRID_HEIGHT - 1)
    );
}

#[test]
fn count_neighbours_stays_within_eight() {
    let mut g = dead_grid(4, 4);
    set_alive(
        &mut g,
        &[(0, 0), (1, 0), (2, 0), (0, 1), (1, 1), (2, 1), (0, 2), (1, 2), (2, 2)],
    );
    for y in 0..4 {
        for x in 0..4 {
            assert!(count_neighbours(&g, x, y) <= 8);
        }
    }
}

#[test]
fn count_neighbours_full_grid_is_eight() {
    let g = vec![vec![Cell::Alive; 3]; 3];
    assert_eq!(count_neighbours(&g, 1, 1), 8);
}

#[test]
fn count_neighbours_empty_grid_is_zero() {
    let g = dead_grid(5, 5);
    assert_eq!(count_neighbours(&g, 2, 2), 0);
}

#[test]
fn corner_count_sees_wrapped_neighbours() {
    // Alive cells only in the last row and last column: the corner (0, 0)
    // reaches them through the toroidal wrap.
    let mut g = dead_grid(4, 4);
    set_alive(&mut g, &[(3, 3), (0, 3), (3, 0)]);
    assert_eq!(count_neighbours(&g, 0, 0), 3);
}

#[test]
fn rule_alive_survives_on_two_or_three() {
    assert_eq!(next_cell(Cell::Alive, 2), Cell::Alive);
    assert_eq!(next_cell(Cell::Alive, 3), Cell::Alive);
}

#[test]
fn rule_alive_dies_otherwise() {
    assert_eq!(next_cell(Cell::Alive, 0), Cell::Dead);
    assert_eq!(next_cell(Cell::Alive, 1), Cell::Dead);
    assert_eq!(next_cell(Cell::Alive, 4), Cell::Dead);
    assert_eq!(next_cell(Cell::Alive, 8), Cell::Dead);
}

#[test]
fn rule_dead_born_on_exactly_three() {
    assert_eq!(next_cell(Cell::Dead, 3), Cell::Alive);
    assert_eq!(next_cell(Cell::Dead, 0), Cell::Dead);
    assert_eq!(next_cell(Cell::Dead, 2), Cell::Dead);
    assert_eq!(next_cell(Cell::Dead, 4), Cell::Dead);
}

#[test]
fn dead_grid_stays_dead() {
    let g = dead_grid(6, 5);
    let next = next_grid(&g);
    assert_eq!(next, dead_grid(6, 5));
}

#[test]
fn block_is_a_still_life() {
    let mut g = dead_grid(6, 6);
    set_alive(&mut g, &[(2, 2), (3, 2), (2, 3), (3, 3)]);
    let next = next_grid(&g);
    assert_eq!(next, g);
}

#[test]
fn blinker_oscillates_with_period_two() {
    let mut horizontal = dead_grid(5, 5);
    set_alive(&mut horizontal, &[(1, 2), (2, 2), (3, 2)]);

    let mut vertical = dead_grid(5, 5);
    set_alive(&mut vertical, &[(2, 1), (2, 2), (2, 3)]);

    let once = next_grid(&horizontal);
    assert_eq!(once, vertical);

    let twice = next_grid(&once);
    assert_eq!(twice, horizontal);
}

#[test]
fn advance_is_deterministic() {
    let mut g = dead_grid(7, 6);
    set_alive(&mut g, &[(1, 1), (2, 1), (3, 1), (3, 2), (2, 3)]);
    let a = next_grid(&g);
    let b = next_grid(&g);
    assert_eq!(a, b);
}

#[test]
fn well_formedness_check_rejects_ragged_grids() {
    let g = dead_grid(3, 3);
    assert!(is_well_formed(&g));

    let empty: Grid = Vec::new();
    assert!(!is_well_formed(&empty));

    let mut ragged = dead_grid(3, 3);
    ragged[1].push(Cell::Dead);
    assert!(!is_well_formed(&ragged));

    let empty_row: Grid = vec![Vec::new()];
    assert!(!is_well_formed(&empty_row));
}
