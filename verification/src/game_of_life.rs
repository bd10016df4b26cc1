//! The cellular automaton: a toroidal grid of cells and its generation rule.

use vstd::prelude::*;
use crate::color::Color;
use crate::row_major::{in_bounds, index_of, column_of, row_of, position, lemma_index_in_range,
    lemma_index_coords, lemma_coords_index, lemma_index_injective};

pub mod life_forms;
pub mod patterns;

use patterns::cells_of;

verus! {

/// The state of one cell.
#[derive(Clone, Copy, PartialEq, Eq, Structural, Debug)]
pub enum CellState {
    Dead,
    Alive,
}

/// The state that a cell takes in the following generation: a live cell
/// survives with two or three live neighbours, a dead cell comes alive with
/// exactly three.
pub open spec fn next_state(current: CellState, live_neighbors: int) -> CellState {
    if current == CellState::Alive {
        if live_neighbors == 2 || live_neighbors == 3 {
            CellState::Alive
        } else {
            CellState::Dead
        }
    } else {
        if live_neighbors == 3 {
            CellState::Alive
        } else {
            CellState::Dead
        }
    }
}

/// A coordinate one step outside `0..dimension` brought back to the
/// opposite edge.
pub open spec fn wrap(coord: int, dimension: int) -> int {
    (coord + dimension) % dimension
}

/// The mathematical content of a [`GameOfLifeGrid`].
pub struct GridView {
    pub width: int,
    pub height: int,
    /// One state per cell, in row-major order.
    pub cells: Seq<CellState>,
    pub live_color: Color,
    pub dead_color: Color,
}

impl GridView {
    /// The grid holds exactly one state per cell.
    pub open spec fn wf(self) -> bool {
        &&& 0 <= self.width
        &&& 0 <= self.height
        &&& self.cells.len() == self.width * self.height
    }

    pub open spec fn in_bounds(self, x: int, y: int) -> bool {
        in_bounds(self.width, self.height, x, y)
    }

    /// The state of cell `(x, y)`; meaningful inside the grid only.
    pub open spec fn cell(self, x: int, y: int) -> CellState {
        self.cells[index_of(self.width, x, y)]
    }

    /// A grid of dead cells.
    pub open spec fn dead(width: int, height: int, live_color: Color, dead_color: Color) -> GridView {
        GridView {
            width,
            height,
            cells: Seq::new((width * height) as nat, |i: int| CellState::Dead),
            live_color,
            dead_color,
        }
    }

    /// Reading cell `(x, y)`.
    pub open spec fn get_cell(self, x: int, y: int) -> Option<CellState> {
        if self.in_bounds(x, y) {
            Some(self.cell(x, y))
        } else {
            None
        }
    }

    /// The grid after writing `state` at `(x, y)`: a write outside the grid
    /// changes nothing.
    pub open spec fn set_cell(self, x: int, y: int, state: CellState) -> GridView {
        if self.in_bounds(x, y) {
            GridView { cells: self.cells.update(index_of(self.width, x, y), state), ..self }
        } else {
            self
        }
    }

    /// The colour that cells in `state` are shown in.
    pub open spec fn color_of(self, state: CellState) -> Color {
        match state {
            CellState::Alive => self.live_color,
            CellState::Dead => self.dead_color,
        }
    }

    /// 1 if the cell that `(x, y)` wraps to is alive, else 0.
    pub open spec fn alive_at(self, x: int, y: int) -> int {
        if self.cell(wrap(x, self.width), wrap(y, self.height)) == CellState::Alive {
            1
        } else {
            0
        }
    }

    /// How many of the eight cells around `(x, y)` are alive, the edges of
    /// the grid being joined to the opposite edges. On a grid less than
    /// three cells wide or high a cell is met more than once, and counted
    /// each time.
    pub open spec fn live_neighbors(self, x: int, y: int) -> int {
        self.alive_at(x - 1, y - 1) + self.alive_at(x, y - 1) + self.alive_at(x + 1, y - 1)
            + self.alive_at(x - 1, y) + self.alive_at(x + 1, y)
            + self.alive_at(x - 1, y + 1) + self.alive_at(x, y + 1) + self.alive_at(x + 1, y + 1)
    }

    /// The state of cell `(x, y)` in the following generation.
    pub open spec fn next_cell(self, x: int, y: int) -> CellState {
        next_state(self.cell(x, y), self.live_neighbors(x, y))
    }

    /// The following generation: every cell takes the state that the rule
    /// gives it from this generation's cells.
    pub open spec fn next_generation(self) -> GridView {
        GridView {
            cells: Seq::new(
                self.cells.len(),
                |i: int| self.next_cell(column_of(self.width, i), row_of(self.width, i)),
            ),
            ..self
        }
    }

    /// The grid after a pattern has been applied: the cells of the grid
    /// that the pattern lists are alive, the others as they were. A listed
    /// cell outside the grid is dropped.
    pub open spec fn apply_pattern(self, points: Seq<(int, int)>) -> GridView {
        GridView {
            cells: Seq::new(
                self.cells.len(),
                |i: int|
                    if points.contains((column_of(self.width, i), row_of(self.width, i))) {
                        CellState::Alive
                    } else {
                        self.cells[i]
                    },
            ),
            ..self
        }
    }

    /// What the cell at offset `(dx, dy)` from `(x, y)` adds to the count of
    /// live neighbours: the cell itself adds nothing.
    spec fn counted(self, x: int, y: int, dx: int, dy: int) -> int {
        if dx == 0 && dy == 0 {
            0
        } else {
            self.alive_at(x + dx, y + dy)
        }
    }

    /// The count over the offsets of row `dy` that lie left of `dx`.
    spec fn counted_in_row(self, x: int, y: int, dy: int, dx: int) -> int {
        (if -1 < dx { self.counted(x, y, -1, dy) } else { 0 })
            + (if 0 < dx { self.counted(x, y, 0, dy) } else { 0 })
            + (if 1 < dx { self.counted(x, y, 1, dy) } else { 0 })
    }

    /// The count over the rows of offsets above `dy`.
    spec fn counted_above(self, x: int, y: int, dy: int) -> int {
        (if -1 < dy { self.counted_in_row(x, y, -1, 2) } else { 0 })
            + (if 0 < dy { self.counted_in_row(x, y, 0, 2) } else { 0 })
            + (if 1 < dy { self.counted_in_row(x, y, 1, 2) } else { 0 })
    }
}

/// Reading a cell of the grid after writing it gives the state written.
pub proof fn lemma_set_then_get(grid: GridView, x: int, y: int, state: CellState)
    requires
        grid.wf(),
        grid.in_bounds(x, y),
    ensures
        grid.set_cell(x, y, state).get_cell(x, y) == Some(state),
{
    lemma_index_in_range(grid.width, grid.height, x, y);
}

/// Writing a cell changes no other cell.
pub proof fn lemma_set_keeps_others(
    grid: GridView,
    x: int,
    y: int,
    state: CellState,
    other_x: int,
    other_y: int,
)
    requires
        grid.wf(),
        other_x != x || other_y != y,
    ensures
        grid.set_cell(x, y, state).get_cell(other_x, other_y) == grid.get_cell(other_x, other_y),
{
    if grid.in_bounds(x, y) && grid.in_bounds(other_x, other_y) {
        lemma_index_in_range(grid.width, grid.height, x, y);
        lemma_index_in_range(grid.width, grid.height, other_x, other_y);
        if index_of(grid.width, x, y) == index_of(grid.width, other_x, other_y) {
            lemma_index_injective(grid.width, grid.height, x, y, other_x, other_y);
        }
    }
}

/// Outside the grid there is nothing to read, and a write has no effect.
pub proof fn lemma_out_of_bounds(grid: GridView, x: int, y: int, state: CellState)
    requires
        !grid.in_bounds(x, y),
    ensures
        grid.get_cell(x, y) == None::<CellState>,
        grid.set_cell(x, y, state) == grid,
{
}

/// No operation changes the dimensions of a grid, and each leaves it with
/// one state per cell.
pub proof fn lemma_size_is_kept(
    grid: GridView,
    x: int,
    y: int,
    state: CellState,
    points: Seq<(int, int)>,
)
    requires
        grid.wf(),
    ensures
        grid.next_generation().wf(),
        grid.next_generation().width == grid.width,
        grid.next_generation().height == grid.height,
        grid.next_generation().cells.len() == grid.width * grid.height,
        grid.set_cell(x, y, state).wf(),
        grid.set_cell(x, y, state).width == grid.width,
        grid.set_cell(x, y, state).height == grid.height,
        grid.apply_pattern(points).wf(),
        grid.apply_pattern(points).width == grid.width,
        grid.apply_pattern(points).height == grid.height,
{
    if grid.in_bounds(x, y) {
        lemma_index_in_range(grid.width, grid.height, x, y);
    }
}

/// In the following generation each cell of the grid has the state that the
/// rule gives it from its own state and its live neighbours.
pub proof fn lemma_next_generation_cell(grid: GridView, x: int, y: int)
    requires
        grid.wf(),
        grid.in_bounds(x, y),
    ensures
        grid.next_generation().cell(x, y) == next_state(grid.cell(x, y), grid.live_neighbors(x, y)),
{
    lemma_index_in_range(grid.width, grid.height, x, y);
    lemma_index_coords(grid.width, grid.height, x, y);
}

/// After a pattern has been applied, a cell of the grid is alive if the
/// pattern lists it, and is as it was if not.
pub proof fn lemma_apply_pattern_cell(grid: GridView, points: Seq<(int, int)>, x: int, y: int)
    requires
        grid.wf(),
        grid.in_bounds(x, y),
    ensures
        grid.apply_pattern(points).cell(x, y) == if points.contains((x, y)) {
            CellState::Alive
        } else {
            grid.cell(x, y)
        },
{
    lemma_index_in_range(grid.width, grid.height, x, y);
    lemma_index_coords(grid.width, grid.height, x, y);
}

/// Two grids of the same dimensions and colours whose cells agree are the
/// same grid.
pub proof fn lemma_equal_by_cells(a: GridView, b: GridView)
    requires
        a.wf(),
        b.wf(),
        a.width == b.width,
        a.height == b.height,
        a.live_color == b.live_color,
        a.dead_color == b.dead_color,
        forall|x: int, y: int| a.in_bounds(x, y) ==> #[trigger] a.cell(x, y) == b.cell(x, y),
    ensures
        a == b,
{
    assert forall|i: int| 0 <= i < a.cells.len() implies a.cells[i] == b.cells[i] by {
        lemma_coords_index(a.width, a.height, i);
        assert(a.cell(column_of(a.width, i), row_of(a.width, i)) == b.cell(
            column_of(a.width, i),
            row_of(a.width, i),
        ));
    }
    assert(a.cells =~= b.cells);
}

/// Applying none of a pattern's cells changes nothing.
proof fn lemma_apply_none(grid: GridView, points: Seq<(int, int)>)
    ensures
        grid.apply_pattern(points.take(0)) == grid,
{
    assert(grid.apply_pattern(points.take(0)).cells =~= grid.cells);
}

/// Applying the first `k + 1` cells of a pattern is applying the first `k`
/// and then setting cell `k` alive.
proof fn lemma_apply_one_more(grid: GridView, points: Seq<(int, int)>, k: int)
    requires
        grid.wf(),
        0 <= k < points.len(),
    ensures
        grid.apply_pattern(points.take(k)).set_cell(points[k].0, points[k].1, CellState::Alive)
            == grid.apply_pattern(points.take(k + 1)),
{
    let before = grid.apply_pattern(points.take(k));
    let (x, y) = points[k];
    let set = before.set_cell(x, y, CellState::Alive);
    let after = grid.apply_pattern(points.take(k + 1));
    assert(points.take(k + 1) =~= points.take(k).push(points[k]));
    if grid.in_bounds(x, y) {
        lemma_index_in_range(grid.width, grid.height, x, y);
        lemma_index_coords(grid.width, grid.height, x, y);
    }
    let shorter = points.take(k);
    let longer = points.take(k + 1);
    assert forall|i: int| 0 <= i < grid.cells.len() implies set.cells[i] == after.cells[i] by {
        lemma_coords_index(grid.width, grid.height, i);
        let p = (column_of(grid.width, i), row_of(grid.width, i));
        if shorter.contains(p) {
            let j = choose|j: int| 0 <= j < shorter.len() && shorter[j] == p;
            assert(longer[j] == p);
        } else if p == points[k] {
            assert(longer[k] == p);
        } else {
            if longer.contains(p) {
                let j = choose|j: int| 0 <= j < longer.len() && longer[j] == p;
                if j < k {
                    assert(shorter[j] == p);
                }
            }
        }
    }
    assert(set.cells =~= after.cells);
}

/// `wrap` takes a coordinate one step outside `0..dimension` to the opposite
/// edge and leaves one inside where it is.
pub proof fn lemma_wrap(coord: int, dimension: int)
    requires
        0 < dimension,
        -1 <= coord <= dimension,
    ensures
        wrap(coord, dimension) == if coord < 0 {
            coord + dimension
        } else if coord >= dimension {
            coord - dimension
        } else {
            coord
        },
        0 <= wrap(coord, dimension) < dimension,
{
    if coord < 0 {
        vstd::arithmetic::div_mod::lemma_small_mod((coord + dimension) as nat, dimension as nat);
    } else if coord >= dimension {
        vstd::arithmetic::div_mod::lemma_mod_self_0(dimension);
        if dimension > 1 {
            vstd::arithmetic::div_mod::lemma_small_mod(1, dimension as nat);
        }
        assert((dimension + dimension) % dimension == 0) by (nonlinear_arith)
            requires
                0 < dimension,
        ;
    } else {
        vstd::arithmetic::div_mod::lemma_mod_add_multiples_vanish(coord, dimension);
        vstd::arithmetic::div_mod::lemma_small_mod(coord as nat, dimension as nat);
    }
}

/// `(coord + dimension) % dimension`, computed without overflow.
fn wrap_coordinate(coord: i32, dimension: i32) -> (wrapped: i32)
    requires
        0 < dimension,
        -1 <= coord <= dimension,
    ensures
        wrapped == wrap(coord as int, dimension as int),
        0 <= wrapped < dimension,
{
    proof {
        lemma_wrap(coord as int, dimension as int);
    }
    ((coord as i64 + dimension as i64) % (dimension as i64)) as i32
}

/// A grid of `width` by `height` cells whose edges are joined to the
/// opposite edges, with the colours its two cell states are shown in.
pub struct GameOfLifeGrid {
    width: i32,
    height: i32,
    cells: Vec<CellState>,
    live_color: Color,
    dead_color: Color,
}

impl View for GameOfLifeGrid {
    type V = GridView;

    closed spec fn view(&self) -> GridView {
        GridView {
            width: self.width as int,
            height: self.height as int,
            cells: self.cells@,
            live_color: self.live_color,
            dead_color: self.dead_color,
        }
    }
}

impl GameOfLifeGrid {
    #[verifier::type_invariant]
    spec fn inv(&self) -> bool {
        &&& 0 <= self.width
        &&& 0 <= self.height
        &&& self.width * self.height <= i32::MAX
        &&& self.cells.len() == self.width * self.height
    }

    /// A grid of `width` by `height` dead cells. Neither dimension may be
    /// negative, and the number of cells must fit in an `i32`.
    pub fn new(width: i32, height: i32, live_color: Color, dead_color: Color) -> (grid:
        GameOfLifeGrid)
        requires
            0 <= width,
            0 <= height,
            width * height <= i32::MAX,
        ensures
            grid@ == GridView::dead(width as int, height as int, live_color, dead_color),
            grid@.cells.len() == width * height,
            grid@.wf(),
    {
        assert(0 <= width * height) by (nonlinear_arith)
            requires
                0 <= width,
                0 <= height,
        ;
        let grid = GameOfLifeGrid {
            width,
            height,
            cells: vec![CellState::Dead; (width * height) as usize],
            live_color,
            dead_color,
        };
        assert(grid@.cells =~= GridView::dead(
            width as int,
            height as int,
            live_color,
            dead_color,
        ).cells);
        grid
    }

    /// The state of cell `(x, y)`, or `None` outside the grid.
    pub fn get_cell(&self, x: i32, y: i32) -> (cell: Option<CellState>)
        ensures
            cell == self@.get_cell(x as int, y as int),
            self@.wf(),
    {
        proof {
            use_type_invariant(self);
        }
        match position(self.width, self.height, x, y) {
            Some(index) => Some(self.cells[index]),
            None => None,
        }
    }

    /// Writes `state` at `(x, y)`. A write outside the grid is ignored.
    pub fn set_cell(&mut self, x: i32, y: i32, state: CellState)
        ensures
            final(self)@ == old(self)@.set_cell(x as int, y as int, state),
            final(self)@.wf(),
    {
        proof {
            use_type_invariant(&*self);
        }
        if let Some(index) = position(self.width, self.height, x, y) {
            self.cells[index] = state;
        }
    }

    /// How many of the eight cells around `(x, y)`, a cell of the grid, are
    /// alive, the edges of the grid being joined to the opposite edges.
    pub fn count_live_neighbors(&self, x: i32, y: i32) -> (count: u8)
        requires
            self@.in_bounds(x as int, y as int),
        ensures
            count == self@.live_neighbors(x as int, y as int),
            count <= 8,
    {
        proof {
            use_type_invariant(self);
        }
        let mut live_neighbors: u8 = 0;
        for dy in -1i32..2
            invariant
                self.inv(),
                self@.in_bounds(x as int, y as int),
                live_neighbors == self@.counted_above(x as int, y as int, dy as int),
        {
            for dx in -1i32..2
                invariant
                    self.inv(),
                    self@.in_bounds(x as int, y as int),
                    -1 <= dy <= 1,
                    live_neighbors == self@.counted_above(x as int, y as int, dy as int)
                        + self@.counted_in_row(x as int, y as int, dy as int, dx as int),
            {
                if dx != 0 || dy != 0 {
                    let nx: i32 = x + dx;
                    let ny: i32 = y + dy;

                    let wrapped_nx: i32 = wrap_coordinate(nx, self.width);
                    let wrapped_ny: i32 = wrap_coordinate(ny, self.height);

                    if let Some(CellState::Alive) = self.get_cell(wrapped_nx, wrapped_ny) {
                        live_neighbors += 1;
                    }
                }
            }
        }
        live_neighbors
    }

    /// Replaces the grid by its following generation. Every cell's new state
    /// is computed from the cells of the generation before.
    pub fn next_generation(&mut self)
        ensures
            final(self)@ == old(self)@.next_generation(),
            final(self)@.cells.len() == final(self)@.width * final(self)@.height,
            final(self)@.wf(),
    {
        proof {
            use_type_invariant(&*self);
        }
        let mut next_cells = self.cells.clone();

        let mut y: i32 = 0;
        while y < self.height
            invariant
                self.inv(),
                *self == *old(self),
                0 <= y <= self.height,
                next_cells.len() == self.cells.len(),
                forall|i: int|
                    0 <= i < y * self.width ==> next_cells[i] == (
                    #[trigger] self@.next_generation().cells[i]),
            decreases self.height - y,
        {
            let mut x: i32 = 0;
            while x < self.width
                invariant
                    self.inv(),
                    *self == *old(self),
                    0 <= y < self.height,
                    0 <= x <= self.width,
                    next_cells.len() == self.cells.len(),
                    forall|i: int|
                        0 <= i < y * self.width + x ==> next_cells[i] == (
                        #[trigger] self@.next_generation().cells[i]),
                decreases self.width - x,
            {
                proof {
                    lemma_index_in_range(self.width as int, self.height as int, x as int, y as int);
                    lemma_index_coords(self.width as int, self.height as int, x as int, y as int);
                }
                let current_cell_state = self.get_cell(x, y).unwrap();
                let live_neighbors: u8 = self.count_live_neighbors(x, y);
                let index: usize = (y * self.width + x) as usize;

                next_cells[index] = match current_cell_state {
                    CellState::Alive => {
                        if live_neighbors < 2 || live_neighbors > 3 {
                            CellState::Dead
                        } else {
                            CellState::Alive
                        }
                    },
                    CellState::Dead => {
                        if live_neighbors == 3 {
                            CellState::Alive
                        } else {
                            CellState::Dead
                        }
                    },
                };
                x += 1;
            }
            assert((y + 1) * self.width == y * self.width + self.width) by (nonlinear_arith);
            y += 1;
        }
        assert(self.height * self.width == self.width * self.height) by (nonlinear_arith);
        assert(next_cells@ =~= self@.next_generation().cells);
        self.cells = next_cells;
    }

    /// Sets every cell that `pattern_points` lists to alive. A listed cell
    /// outside the grid is dropped.
    pub fn apply_pattern(&mut self, pattern_points: &[(i32, i32)])
        ensures
            final(self)@ == old(self)@.apply_pattern(cells_of(pattern_points@)),
            final(self)@.wf(),
    {
        proof {
            use_type_invariant(&*self);
            lemma_apply_none(self@, cells_of(pattern_points@));
        }
        let ghost points = cells_of(pattern_points@);
        let mut k: usize = 0;
        while k < pattern_points.len()
            invariant
                points == cells_of(pattern_points@),
                old(self)@.wf(),
                k <= pattern_points.len(),
                self@ == old(self)@.apply_pattern(points.take(k as int)),
            decreases pattern_points.len() - k,
        {
            let (x, y) = pattern_points[k];
            proof {
                lemma_apply_one_more(old(self)@, points, k as int);
            }
            self.set_cell(x, y, CellState::Alive);
            k += 1;
        }
        assert(points.take(points.len() as int) =~= points);
        proof {
            use_type_invariant(&*self);
        }
    }

    /// The colour that cells in `state` are shown in.
    pub fn get_color(&self, state: CellState) -> (color: Color)
        ensures
            color == self@.color_of(state),
    {
        match state {
            CellState::Alive => self.live_color,
            CellState::Dead => self.dead_color,
        }
    }
}

} // verus!
