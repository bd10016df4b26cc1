use game_of_life::color::Color;
use game_of_life::game_of_life::patterns::{blinker, glider};
use game_of_life::game_of_life::{CellState, GameOfLifeGrid};

fn fresh(width: i32, height: i32) -> GameOfLifeGrid {
    GameOfLifeGrid::new(width, height, Color::yellow(), Color::new(20, 20, 30, 255))
}

fn live_cells(grid: &GameOfLifeGrid, width: i32, height: i32) -> Vec<(i32, i32)> {
    let mut alive = Vec::new();
    for y in 0..height {
        for x in 0..width {
            if grid.get_cell(x, y) == Some(CellState::Alive) {
                alive.push((x, y));
            }
        }
    }
    alive
}

#[test]
fn new_grid_is_dead() {
    let grid = fresh(3, 2);
    for y in 0..2 {
        for x in 0..3 {
            assert_eq!(grid.get_cell(x, y), Some(CellState::Dead));
        }
    }
    assert_eq!(grid.get_cell(3, 0), None);
    assert_eq!(grid.get_cell(0, 2), None);
}

#[test]
fn empty_grid_has_no_cells() {
    let mut by_width = fresh(0, 5);
    let mut by_height = fresh(5, 0);
    assert_eq!(by_width.get_cell(0, 0), None);
    assert_eq!(by_height.get_cell(0, 0), None);
    by_width.next_generation();
    by_height.next_generation();
    by_width.set_cell(0, 0, CellState::Alive);
    assert_eq!(by_width.get_cell(0, 0), None);
    assert_eq!(by_height.get_cell(0, 0), None);
}

#[test]
fn set_then_get() {
    let mut grid = fresh(4, 3);
    grid.set_cell(3, 2, CellState::Alive);
    assert_eq!(grid.get_cell(3, 2), Some(CellState::Alive));
    assert_eq!(live_cells(&grid, 4, 3), vec![(3, 2)]);
    grid.set_cell(3, 2, CellState::Dead);
    assert_eq!(grid.get_cell(3, 2), Some(CellState::Dead));
    assert_eq!(live_cells(&grid, 4, 3), vec![]);
}

#[test]
fn cells_are_stored_row_by_row() {
    let mut grid = fresh(3, 2);
    grid.set_cell(1, 0, CellState::Alive);
    assert_eq!(grid.get_cell(0, 1), Some(CellState::Dead));
    assert_eq!(grid.get_cell(1, 0), Some(CellState::Alive));
    grid.set_cell(2, 1, CellState::Alive);
    assert_eq!(live_cells(&grid, 3, 2), vec![(1, 0), (2, 1)]);
}

#[test]
fn out_of_bounds_is_ignored() {
    let mut grid = fresh(3, 3);
    grid.set_cell(1, 1, CellState::Alive);
    for (x, y) in [(-1, 0), (0, -1), (3, 0), (0, 3), (i32::MIN, 1), (1, i32::MAX)] {
        assert_eq!(grid.get_cell(x, y), None);
        grid.set_cell(x, y, CellState::Alive);
    }
    assert_eq!(live_cells(&grid, 3, 3), vec![(1, 1)]);
}

#[test]
fn colors_follow_state() {
    let grid = fresh(2, 2);
    assert_eq!(grid.get_color(CellState::Alive), Color::new(255, 255, 0, 255));
    assert_eq!(grid.get_color(CellState::Dead), Color::new(20, 20, 30, 255));
}

#[test]
fn neighbors_wrap_around_the_corner() {
    let mut grid = fresh(3, 3);
    grid.set_cell(0, 0, CellState::Alive);
    assert_eq!(grid.count_live_neighbors(2, 2), 1);
    assert_eq!(grid.count_live_neighbors(1, 1), 1);
    assert_eq!(grid.count_live_neighbors(0, 0), 0);
}

#[test]
fn neighbors_wrap_around_each_edge() {
    let mut grid = fresh(5, 4);
    grid.set_cell(0, 1, CellState::Alive);
    assert_eq!(grid.count_live_neighbors(4, 1), 1);
    assert_eq!(grid.count_live_neighbors(4, 0), 1);
    assert_eq!(grid.count_live_neighbors(2, 1), 0);
    grid.set_cell(2, 3, CellState::Alive);
    assert_eq!(grid.count_live_neighbors(2, 0), 1);
    assert_eq!(grid.count_live_neighbors(1, 0), 2);
}

#[test]
fn neighbors_count_all_eight() {
    let mut grid = fresh(5, 5);
    for y in 1..4 {
        for x in 1..4 {
            grid.set_cell(x, y, CellState::Alive);
        }
    }
    assert_eq!(grid.count_live_neighbors(2, 2), 8);
    assert_eq!(grid.count_live_neighbors(1, 1), 3);
    assert_eq!(grid.count_live_neighbors(0, 0), 1);
}

#[test]
fn single_cell_grid_meets_itself_eight_times() {
    let mut grid = fresh(1, 1);
    grid.set_cell(0, 0, CellState::Alive);
    assert_eq!(grid.count_live_neighbors(0, 0), 8);
    grid.next_generation();
    assert_eq!(grid.get_cell(0, 0), Some(CellState::Dead));
}

#[test]
fn block_is_a_still_life() {
    let mut grid = fresh(4, 4);
    for (x, y) in [(1, 1), (1, 2), (2, 1), (2, 2)] {
        grid.set_cell(x, y, CellState::Alive);
    }
    grid.next_generation();
    assert_eq!(live_cells(&grid, 4, 4), vec![(1, 1), (2, 1), (1, 2), (2, 2)]);
}

#[test]
fn block_across_the_edge_is_a_still_life() {
    let mut grid = fresh(5, 4);
    for (x, y) in [(4, 3), (0, 3), (4, 0), (0, 0)] {
        grid.set_cell(x, y, CellState::Alive);
    }
    grid.next_generation();
    assert_eq!(live_cells(&grid, 5, 4), vec![(0, 0), (4, 0), (0, 3), (4, 3)]);
}

#[test]
fn blinker_has_period_two() {
    let mut grid = fresh(5, 5);
    grid.apply_pattern(&blinker(1, 2));
    assert_eq!(live_cells(&grid, 5, 5), vec![(1, 2), (2, 2), (3, 2)]);
    grid.next_generation();
    assert_eq!(live_cells(&grid, 5, 5), vec![(2, 1), (2, 2), (2, 3)]);
    grid.next_generation();
    assert_eq!(live_cells(&grid, 5, 5), vec![(1, 2), (2, 2), (3, 2)]);
}

#[test]
fn blinker_turns_around_the_edge() {
    let mut grid = fresh(4, 4);
    grid.apply_pattern(&blinker(0, 0));
    grid.next_generation();
    assert_eq!(live_cells(&grid, 4, 4), vec![(1, 0), (1, 1), (1, 3)]);
    grid.next_generation();
    assert_eq!(live_cells(&grid, 4, 4), vec![(0, 0), (1, 0), (2, 0)]);
}

#[test]
fn lonely_and_crowded_cells_die() {
    let mut grid = fresh(5, 5);
    grid.set_cell(2, 2, CellState::Alive);
    grid.next_generation();
    assert_eq!(live_cells(&grid, 5, 5), vec![]);

    let mut grid = fresh(7, 7);
    for (x, y) in [(3, 3), (2, 3), (4, 3), (3, 2), (3, 4)] {
        grid.set_cell(x, y, CellState::Alive);
    }
    grid.next_generation();
    assert_eq!(grid.get_cell(3, 3), Some(CellState::Dead));
    assert_eq!(grid.get_cell(2, 2), Some(CellState::Alive));
}

#[test]
fn next_generation_reads_one_snapshot() {
    let mut grid = fresh(6, 6);
    grid.apply_pattern(&glider(1, 1));
    grid.next_generation();
    assert_eq!(live_cells(&grid, 6, 6), vec![(1, 2), (3, 2), (2, 3), (3, 3), (2, 4)]);
}

#[test]
fn glider_seeds_five_cells() {
    let mut grid = fresh(3, 3);
    grid.apply_pattern(&glider(0, 0));
    assert_eq!(live_cells(&grid, 3, 3), vec![(1, 0), (2, 1), (0, 2), (1, 2), (2, 2)]);
}

#[test]
fn pattern_off_the_grid_is_dropped() {
    let mut grid = fresh(100, 100);
    grid.apply_pattern(&glider(100, 100));
    assert_eq!(live_cells(&grid, 100, 100), vec![]);
    grid.apply_pattern(&glider(98, 98));
    assert_eq!(live_cells(&grid, 100, 100), vec![(99, 98)]);
    grid.apply_pattern(&blinker(-1, 0));
    assert_eq!(live_cells(&grid, 100, 100), vec![(0, 0), (1, 0), (99, 98)]);
}

#[test]
fn pattern_keeps_live_cells() {
    let mut grid = fresh(4, 4);
    grid.set_cell(3, 3, CellState::Alive);
    grid.apply_pattern(&blinker(0, 1));
    assert_eq!(live_cells(&grid, 4, 4), vec![(0, 1), (1, 1), (2, 1), (3, 3)]);
    grid.apply_pattern(&[]);
    assert_eq!(live_cells(&grid, 4, 4), vec![(0, 1), (1, 1), (2, 1), (3, 3)]);
}
