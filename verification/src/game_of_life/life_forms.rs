//! What the generation rule does to some well-known arrangements of cells.

use vstd::prelude::*;
use crate::color::Color;
use crate::game_of_life::{CellState, GridView, next_state, wrap, lemma_wrap, lemma_next_generation_cell,
    lemma_apply_pattern_cell, lemma_equal_by_cells, lemma_size_is_kept};
use crate::game_of_life::patterns::{glider_cells, blinker_cells};

verus! {

/// Whether `(x, y)` is one of the four cells of the block whose top left
/// cell is `(left, top)`. A block that starts in the last column or row
/// goes on in the first.
pub open spec fn in_block(grid: GridView, left: int, top: int, x: int, y: int) -> bool {
    (x == left || x == wrap(left + 1, grid.width)) && (y == top || y == wrap(top + 1, grid.height))
}

/// Whether the live cells of `grid` are the four cells of the block whose
/// top left cell is `(left, top)`, and no others.
pub open spec fn is_block(grid: GridView, left: int, top: int) -> bool {
    forall|x: int, y: int|
        grid.in_bounds(x, y) ==> ((#[trigger] grid.cell(x, y)) == CellState::Alive <==> in_block(
            grid,
            left,
            top,
            x,
            y,
        ))
}

/// Whether the live cells of `grid` are the cells that `points` lists, and
/// no others.
pub open spec fn alive_exactly(grid: GridView, points: Seq<(int, int)>) -> bool {
    forall|x: int, y: int|
        grid.in_bounds(x, y) ==> ((#[trigger] grid.cell(x, y)) == CellState::Alive
            <==> points.contains((x, y)))
}

/// On a grid whose only live cells are a block, the rule keeps every cell
/// as it is.
proof fn lemma_block_cell_is_kept(grid: GridView, left: int, top: int, x: int, y: int)
    requires
        grid.wf(),
        4 <= grid.width,
        4 <= grid.height,
        grid.in_bounds(left, top),
        is_block(grid, left, top),
        grid.in_bounds(x, y),
    ensures
        next_state(grid.cell(x, y), grid.live_neighbors(x, y)) == grid.cell(x, y),
{
    lemma_wrap(left + 1, grid.width);
    lemma_wrap(top + 1, grid.height);
    lemma_wrap(x - 1, grid.width);
    lemma_wrap(x, grid.width);
    lemma_wrap(x + 1, grid.width);
    lemma_wrap(y - 1, grid.height);
    lemma_wrap(y, grid.height);
    lemma_wrap(y + 1, grid.height);
}

/// Still life: a grid four or more cells wide and high whose only live
/// cells are the four cells of a block is its own following generation.
pub proof fn lemma_block_is_still_life(grid: GridView, left: int, top: int)
    requires
        grid.wf(),
        4 <= grid.width,
        4 <= grid.height,
        grid.in_bounds(left, top),
        is_block(grid, left, top),
    ensures
        grid.next_generation() == grid,
{
    let next = grid.next_generation();
    lemma_size_is_kept(grid, 0, 0, CellState::Dead, Seq::empty());
    assert forall|x: int, y: int| next.in_bounds(x, y) implies #[trigger] next.cell(x, y)
        == grid.cell(x, y) by {
        lemma_next_generation_cell(grid, x, y);
        lemma_block_cell_is_kept(grid, left, top, x, y);
    }
    lemma_equal_by_cells(next, grid);
}

/// Whether `(x, y)` is one of the three cells of the horizontal blinker
/// whose middle cell is `(mid_x, mid_y)`.
pub open spec fn in_horizontal_blinker(
    grid: GridView,
    mid_x: int,
    mid_y: int,
    x: int,
    y: int,
) -> bool {
    y == mid_y && (x == wrap(mid_x - 1, grid.width) || x == mid_x || x == wrap(
        mid_x + 1,
        grid.width,
    ))
}

/// Whether `(x, y)` is one of the three cells of the vertical blinker whose
/// middle cell is `(mid_x, mid_y)`.
pub open spec fn in_vertical_blinker(
    grid: GridView,
    mid_x: int,
    mid_y: int,
    x: int,
    y: int,
) -> bool {
    x == mid_x && (y == wrap(mid_y - 1, grid.height) || y == mid_y || y == wrap(
        mid_y + 1,
        grid.height,
    ))
}

/// Whether the live cells of `grid` are three in a row around
/// `(mid_x, mid_y)`, and no others.
pub open spec fn is_horizontal_blinker(grid: GridView, mid_x: int, mid_y: int) -> bool {
    forall|x: int, y: int|
        grid.in_bounds(x, y) ==> ((#[trigger] grid.cell(x, y)) == CellState::Alive
            <==> in_horizontal_blinker(grid, mid_x, mid_y, x, y))
}

/// Whether the live cells of `grid` are three in a column around
/// `(mid_x, mid_y)`, and no others.
pub open spec fn is_vertical_blinker(grid: GridView, mid_x: int, mid_y: int) -> bool {
    forall|x: int, y: int|
        grid.in_bounds(x, y) ==> ((#[trigger] grid.cell(x, y)) == CellState::Alive
            <==> in_vertical_blinker(grid, mid_x, mid_y, x, y))
}

/// On a grid whose only live cells are a horizontal blinker, the rule makes
/// alive the cells of the vertical blinker with the same middle, and no
/// others.
proof fn lemma_horizontal_blinker_cell(grid: GridView, mid_x: int, mid_y: int, x: int, y: int)
    requires
        grid.wf(),
        4 <= grid.width,
        3 <= grid.height,
        grid.in_bounds(mid_x, mid_y),
        is_horizontal_blinker(grid, mid_x, mid_y),
        grid.in_bounds(x, y),
    ensures
        next_state(grid.cell(x, y), grid.live_neighbors(x, y)) == CellState::Alive
            <==> in_vertical_blinker(grid, mid_x, mid_y, x, y),
{
    lemma_wrap(mid_x - 1, grid.width);
    lemma_wrap(mid_x + 1, grid.width);
    lemma_wrap(mid_y - 1, grid.height);
    lemma_wrap(mid_y + 1, grid.height);
    lemma_wrap(x - 1, grid.width);
    lemma_wrap(x, grid.width);
    lemma_wrap(x + 1, grid.width);
    lemma_wrap(y - 1, grid.height);
    lemma_wrap(y, grid.height);
    lemma_wrap(y + 1, grid.height);
}

/// On a grid whose only live cells are a vertical blinker, the rule makes
/// alive the cells of the horizontal blinker with the same middle, and no
/// others.
proof fn lemma_vertical_blinker_cell(grid: GridView, mid_x: int, mid_y: int, x: int, y: int)
    requires
        grid.wf(),
        3 <= grid.width,
        4 <= grid.height,
        grid.in_bounds(mid_x, mid_y),
        is_vertical_blinker(grid, mid_x, mid_y),
        grid.in_bounds(x, y),
    ensures
        next_state(grid.cell(x, y), grid.live_neighbors(x, y)) == CellState::Alive
            <==> in_horizontal_blinker(grid, mid_x, mid_y, x, y),
{
    lemma_wrap(mid_x - 1, grid.width);
    lemma_wrap(mid_x + 1, grid.width);
    lemma_wrap(mid_y - 1, grid.height);
    lemma_wrap(mid_y + 1, grid.height);
    lemma_wrap(x - 1, grid.width);
    lemma_wrap(x, grid.width);
    lemma_wrap(x + 1, grid.width);
    lemma_wrap(y - 1, grid.height);
    lemma_wrap(y, grid.height);
    lemma_wrap(y + 1, grid.height);
}

/// The generation after a horizontal blinker is the vertical blinker with
/// the same middle cell.
pub proof fn lemma_horizontal_blinker_turns(grid: GridView, mid_x: int, mid_y: int)
    requires
        grid.wf(),
        4 <= grid.width,
        3 <= grid.height,
        grid.in_bounds(mid_x, mid_y),
        is_horizontal_blinker(grid, mid_x, mid_y),
    ensures
        is_vertical_blinker(grid.next_generation(), mid_x, mid_y),
{
    let next = grid.next_generation();
    assert forall|x: int, y: int| next.in_bounds(x, y) implies ((#[trigger] next.cell(x, y))
        == CellState::Alive <==> in_vertical_blinker(next, mid_x, mid_y, x, y)) by {
        lemma_next_generation_cell(grid, x, y);
        lemma_horizontal_blinker_cell(grid, mid_x, mid_y, x, y);
    }
}

/// The generation after a vertical blinker is the horizontal blinker with
/// the same middle cell.
pub proof fn lemma_vertical_blinker_turns(grid: GridView, mid_x: int, mid_y: int)
    requires
        grid.wf(),
        3 <= grid.width,
        4 <= grid.height,
        grid.in_bounds(mid_x, mid_y),
        is_vertical_blinker(grid, mid_x, mid_y),
    ensures
        is_horizontal_blinker(grid.next_generation(), mid_x, mid_y),
{
    let next = grid.next_generation();
    assert forall|x: int, y: int| next.in_bounds(x, y) implies ((#[trigger] next.cell(x, y))
        == CellState::Alive <==> in_horizontal_blinker(next, mid_x, mid_y, x, y)) by {
        lemma_next_generation_cell(grid, x, y);
        lemma_vertical_blinker_cell(grid, mid_x, mid_y, x, y);
    }
}

/// Oscillator: on a grid four or more cells wide and high, a horizontal
/// blinker is not its own following generation, and is the generation
/// after that.
pub proof fn lemma_blinker_oscillates(grid: GridView, mid_x: int, mid_y: int)
    requires
        grid.wf(),
        4 <= grid.width,
        4 <= grid.height,
        grid.in_bounds(mid_x, mid_y),
        is_horizontal_blinker(grid, mid_x, mid_y),
    ensures
        grid.next_generation() != grid,
        grid.next_generation().next_generation() == grid,
{
    let first = grid.next_generation();
    let second = first.next_generation();
    lemma_size_is_kept(grid, 0, 0, CellState::Dead, Seq::empty());
    lemma_size_is_kept(first, 0, 0, CellState::Dead, Seq::empty());
    lemma_horizontal_blinker_turns(grid, mid_x, mid_y);
    lemma_vertical_blinker_turns(first, mid_x, mid_y);
    assert forall|x: int, y: int| second.in_bounds(x, y) implies #[trigger] second.cell(x, y)
        == grid.cell(x, y) by {
        assert(second.cell(x, y) == CellState::Alive <==> grid.cell(x, y) == CellState::Alive);
    }
    lemma_equal_by_cells(second, grid);
    lemma_wrap(mid_x + 1, grid.width);
    assert(grid.cell(wrap(mid_x + 1, grid.width), mid_y) == CellState::Alive);
    assert(first.cell(wrap(mid_x + 1, grid.width), mid_y) != CellState::Alive);
}

/// Oscillator: a grid four or more cells wide and high whose only live
/// cells are those of the blinker pattern, all of them inside the grid, is
/// not its own following generation, and is the generation after that.
pub proof fn lemma_blinker_pattern_oscillates(grid: GridView, offset_x: int, offset_y: int)
    requires
        grid.wf(),
        4 <= grid.width,
        4 <= grid.height,
        grid.in_bounds(offset_x, offset_y),
        grid.in_bounds(offset_x + 2, offset_y),
        alive_exactly(grid, blinker_cells(offset_x, offset_y)),
    ensures
        grid.next_generation() != grid,
        grid.next_generation().next_generation() == grid,
{
    let blinker = blinker_cells(offset_x, offset_y);
    lemma_wrap(offset_x, grid.width);
    lemma_wrap(offset_x + 2, grid.width);
    assert forall|x: int, y: int| grid.in_bounds(x, y) implies ((#[trigger] grid.cell(x, y))
        == CellState::Alive <==> in_horizontal_blinker(grid, offset_x + 1, offset_y, x, y)) by {
        if blinker.contains((x, y)) {
            let k = choose|k: int| 0 <= k < blinker.len() && blinker[k] == (x, y);
            assert(in_horizontal_blinker(grid, offset_x + 1, offset_y, x, y));
        }
        if in_horizontal_blinker(grid, offset_x + 1, offset_y, x, y) {
            assert(blinker[0] == (offset_x, offset_y));
            assert(blinker[1] == (offset_x + 1, offset_y));
            assert(blinker[2] == (offset_x + 2, offset_y));
            assert(blinker.contains((x, y)));
        }
    }
    lemma_blinker_oscillates(grid, offset_x + 1, offset_y);
}

/// A glider applied at offset `(0, 0)` to a grid of dead cells, three or
/// more cells wide and high, leaves its five cells alive and every other
/// cell dead.
pub proof fn lemma_glider_on_dead_grid(
    width: int,
    height: int,
    live_color: Color,
    dead_color: Color,
)
    requires
        3 <= width,
        3 <= height,
    ensures
        ({
            let seeded = GridView::dead(width, height, live_color, dead_color).apply_pattern(
                glider_cells(0, 0),
            );
            &&& seeded.get_cell(1, 0) == Some(CellState::Alive)
            &&& seeded.get_cell(2, 1) == Some(CellState::Alive)
            &&& seeded.get_cell(0, 2) == Some(CellState::Alive)
            &&& seeded.get_cell(1, 2) == Some(CellState::Alive)
            &&& seeded.get_cell(2, 2) == Some(CellState::Alive)
            &&& forall|x: int, y: int|
                seeded.in_bounds(x, y) && (x, y) != (1int, 0int) && (x, y) != (2int, 1int) && (x, y)
                    != (0int, 2int) && (x, y) != (1int, 2int) && (x, y) != (2int, 2int)
                    ==> #[trigger] seeded.get_cell(x, y) == Some(CellState::Dead)
        }),
{
    let grid = GridView::dead(width, height, live_color, dead_color);
    let glider = glider_cells(0, 0);
    let seeded = grid.apply_pattern(glider);
    assert(0 <= width * height) by (nonlinear_arith)
        requires
            0 <= width,
            0 <= height,
    ;
    assert(glider[0] == (1int, 0int));
    assert(glider[1] == (2int, 1int));
    assert(glider[2] == (0int, 2int));
    assert(glider[3] == (1int, 2int));
    assert(glider[4] == (2int, 2int));
    lemma_apply_pattern_cell(grid, glider, 1, 0);
    lemma_apply_pattern_cell(grid, glider, 2, 1);
    lemma_apply_pattern_cell(grid, glider, 0, 2);
    lemma_apply_pattern_cell(grid, glider, 1, 2);
    lemma_apply_pattern_cell(grid, glider, 2, 2);
    assert forall|x: int, y: int|
        seeded.in_bounds(x, y) && (x, y) != (1int, 0int) && (x, y) != (2int, 1int) && (x, y) != (
            0int,
            2int,
        ) && (x, y) != (1int, 2int) && (x, y) != (2int, 2int) implies #[trigger] seeded.get_cell(
        x,
        y,
    ) == Some(CellState::Dead) by {
        lemma_apply_pattern_cell(grid, glider, x, y);
        crate::row_major::lemma_index_in_range(width, height, x, y);
        if glider.contains((x, y)) {
            let k = choose|k: int| 0 <= k < glider.len() && glider[k] == (x, y);
            assert(false);
        }
    }
}

} // verus!
