//! Named seed patterns. Each is a fixed list of cells, moved by an offset
//! that must leave every cell's coordinates in the range of `i32`.

use vstd::prelude::*;

verus! {

/// The cells of a pattern as mathematical coordinates.
pub open spec fn cells_of(points: Seq<(i32, i32)>) -> Seq<(int, int)> {
    points.map_values(|p: (i32, i32)| (p.0 as int, p.1 as int))
}

/// The five cells of a glider.
pub open spec fn glider_cells(offset_x: int, offset_y: int) -> Seq<(int, int)> {
    seq![
        (1 + offset_x, 0 + offset_y),
        (2 + offset_x, 1 + offset_y),
        (0 + offset_x, 2 + offset_y),
        (1 + offset_x, 2 + offset_y),
        (2 + offset_x, 2 + offset_y),
    ]
}

/// The seven cells of a small exploder.
pub open spec fn small_exploder_cells(offset_x: int, offset_y: int) -> Seq<(int, int)> {
    seq![
        (1 + offset_x, 0 + offset_y),
        (0 + offset_x, 1 + offset_y),
        (1 + offset_x, 1 + offset_y),
        (2 + offset_x, 1 + offset_y),
        (0 + offset_x, 2 + offset_y),
        (2 + offset_x, 2 + offset_y),
        (1 + offset_x, 3 + offset_y),
    ]
}

/// Ten cells in a row.
pub open spec fn ten_cell_row_cells(offset_x: int, offset_y: int) -> Seq<(int, int)> {
    seq![
        (0 + offset_x, 0 + offset_y),
        (1 + offset_x, 0 + offset_y),
        (2 + offset_x, 0 + offset_y),
        (3 + offset_x, 0 + offset_y),
        (4 + offset_x, 0 + offset_y),
        (5 + offset_x, 0 + offset_y),
        (6 + offset_x, 0 + offset_y),
        (7 + offset_x, 0 + offset_y),
        (8 + offset_x, 0 + offset_y),
        (9 + offset_x, 0 + offset_y),
    ]
}

/// The five cells of an R-pentomino.
pub open spec fn r_pentomino_cells(offset_x: int, offset_y: int) -> Seq<(int, int)> {
    seq![
        (1 + offset_x, 0 + offset_y),
        (2 + offset_x, 0 + offset_y),
        (0 + offset_x, 1 + offset_y),
        (1 + offset_x, 1 + offset_y),
        (1 + offset_x, 2 + offset_y),
    ]
}

/// Three cells in a row.
pub open spec fn blinker_cells(offset_x: int, offset_y: int) -> Seq<(int, int)> {
    seq![(0 + offset_x, 0 + offset_y), (1 + offset_x, 0 + offset_y), (2 + offset_x, 0 + offset_y)]
}

/// A glider with its top left corner at `(offset_x, offset_y)`.
pub fn glider(offset_x: i32, offset_y: i32) -> (points: Vec<(i32, i32)>)
    requires
        offset_x + 2 <= i32::MAX,
        offset_y + 2 <= i32::MAX,
    ensures
        cells_of(points@) == glider_cells(offset_x as int, offset_y as int),
{
    let points = vec![
        (1 + offset_x, 0 + offset_y),
        (2 + offset_x, 1 + offset_y),
        (0 + offset_x, 2 + offset_y),
        (1 + offset_x, 2 + offset_y),
        (2 + offset_x, 2 + offset_y),
    ];
    assert(cells_of(points@) =~= glider_cells(offset_x as int, offset_y as int));
    points
}

/// A small exploder with its top left corner at `(offset_x, offset_y)`.
pub fn small_exploder(offset_x: i32, offset_y: i32) -> (points: Vec<(i32, i32)>)
    requires
        offset_x + 2 <= i32::MAX,
        offset_y + 3 <= i32::MAX,
    ensures
        cells_of(points@) == small_exploder_cells(offset_x as int, offset_y as int),
{
    let points = vec![
        (1 + offset_x, 0 + offset_y),
        (0 + offset_x, 1 + offset_y),
        (1 + offset_x, 1 + offset_y),
        (2 + offset_x, 1 + offset_y),
        (0 + offset_x, 2 + offset_y),
        (2 + offset_x, 2 + offset_y),
        (1 + offset_x, 3 + offset_y),
    ];
    assert(cells_of(points@) =~= small_exploder_cells(offset_x as int, offset_y as int));
    points
}

/// A row of ten cells that starts at `(offset_x, offset_y)`.
pub fn ten_cell_row(offset_x: i32, offset_y: i32) -> (points: Vec<(i32, i32)>)
    requires
        offset_x + 9 <= i32::MAX,
    ensures
        cells_of(points@) == ten_cell_row_cells(offset_x as int, offset_y as int),
{
    let points = vec![
        (0 + offset_x, 0 + offset_y),
        (1 + offset_x, 0 + offset_y),
        (2 + offset_x, 0 + offset_y),
        (3 + offset_x, 0 + offset_y),
        (4 + offset_x, 0 + offset_y),
        (5 + offset_x, 0 + offset_y),
        (6 + offset_x, 0 + offset_y),
        (7 + offset_x, 0 + offset_y),
        (8 + offset_x, 0 + offset_y),
        (9 + offset_x, 0 + offset_y),
    ];
    assert(cells_of(points@) =~= ten_cell_row_cells(offset_x as int, offset_y as int));
    points
}

/// An R-pentomino with its top left corner at `(offset_x, offset_y)`.
pub fn r_pentomino(offset_x: i32, offset_y: i32) -> (points: Vec<(i32, i32)>)
    requires
        offset_x + 2 <= i32::MAX,
        offset_y + 2 <= i32::MAX,
    ensures
        cells_of(points@) == r_pentomino_cells(offset_x as int, offset_y as int),
{
    let points = vec![
        (1 + offset_x, 0 + offset_y),
        (2 + offset_x, 0 + offset_y),
        (0 + offset_x, 1 + offset_y),
        (1 + offset_x, 1 + offset_y),
        (1 + offset_x, 2 + offset_y),
    ];
    assert(cells_of(points@) =~= r_pentomino_cells(offset_x as int, offset_y as int));
    points
}

/// A row of three cells that starts at `(offset_x, offset_y)`.
pub fn blinker(offset_x: i32, offset_y: i32) -> (points: Vec<(i32, i32)>)
    requires
        offset_x + 2 <= i32::MAX,
    ensures
        cells_of(points@) == blinker_cells(offset_x as int, offset_y as int),
{
    let points = vec![
        (0 + offset_x, 0 + offset_y),
        (1 + offset_x, 0 + offset_y),
        (2 + offset_x, 0 + offset_y),
    ];
    assert(cells_of(points@) =~= blinker_cells(offset_x as int, offset_y as int));
    points
}

} // verus!
