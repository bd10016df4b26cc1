//! Row-major addressing of a rectangle of `width` by `height` cells.
//!
//! Cell `(x, y)` lives at position `y * width + x` of a flat sequence of
//! `width * height` elements.

use vstd::prelude::*;

verus! {

/// Whether `(x, y)` names a cell of a `width` by `height` rectangle.
pub open spec fn in_bounds(width: int, height: int, x: int, y: int) -> bool {
    0 <= x < width && 0 <= y < height
}

/// Position of cell `(x, y)` in the flat sequence.
pub open spec fn index_of(width: int, x: int, y: int) -> int {
    y * width + x
}

/// Column of the cell stored at position `i`.
pub open spec fn column_of(width: int, i: int) -> int {
    i % width
}

/// Row of the cell stored at position `i`.
pub open spec fn row_of(width: int, i: int) -> int {
    i / width
}

/// Every cell of the rectangle has a position inside the flat sequence.
pub proof fn lemma_index_in_range(width: int, height: int, x: int, y: int)
    requires
        in_bounds(width, height, x, y),
    ensures
        0 <= y * width,
        0 <= index_of(width, x, y) < width * height,
{
    assert(0 <= y * width && y * width + width <= height * width) by (nonlinear_arith)
        requires
            0 <= y < height,
            0 < width,
    ;
    assert(height * width == width * height) by (nonlinear_arith);
}

/// The column and row of a cell's position are the cell's coordinates.
pub proof fn lemma_index_coords(width: int, height: int, x: int, y: int)
    requires
        in_bounds(width, height, x, y),
    ensures
        column_of(width, index_of(width, x, y)) == x,
        row_of(width, index_of(width, x, y)) == y,
{
    vstd::arithmetic::div_mod::lemma_fundamental_div_mod_converse(y * width + x, width, y, x);
}

/// Every position of the flat sequence belongs to exactly the cell given by
/// its column and row.
pub proof fn lemma_coords_index(width: int, height: int, i: int)
    requires
        0 <= i < width * height,
        0 <= width,
        0 <= height,
    ensures
        in_bounds(width, height, column_of(width, i), row_of(width, i)),
        index_of(width, column_of(width, i), row_of(width, i)) == i,
{
    assert(width > 0) by (nonlinear_arith)
        requires
            0 <= i < width * height,
            0 <= width,
    ;
    vstd::arithmetic::div_mod::lemma_fundamental_div_mod(i, width);
    vstd::arithmetic::div_mod::lemma_mod_bound(i, width);
    let q = i / width;
    let r = i % width;
    assert(i == width * q + r);
    assert(width * q == q * width) by (nonlinear_arith);
    assert(0 <= q < height) by (nonlinear_arith)
        requires
            0 <= r < width,
            0 <= q * width + r < width * height,
            0 <= height,
    ;
}

/// Two cells of the rectangle with the same position are the same cell.
pub proof fn lemma_index_injective(width: int, height: int, x1: int, y1: int, x2: int, y2: int)
    requires
        in_bounds(width, height, x1, y1),
        in_bounds(width, height, x2, y2),
        index_of(width, x1, y1) == index_of(width, x2, y2),
    ensures
        x1 == x2,
        y1 == y2,
{
    lemma_index_coords(width, height, x1, y1);
    lemma_index_coords(width, height, x2, y2);
}

/// The position of `(x, y)` if it names a cell of the rectangle.
pub(crate) fn position(width: i32, height: i32, x: i32, y: i32) -> (pos: Option<usize>)
    requires
        0 <= width,
        0 <= height,
        width * height <= i32::MAX,
    ensures
        pos == if in_bounds(width as int, height as int, x as int, y as int) {
            Some(index_of(width as int, x as int, y as int) as usize)
        } else {
            None
        },
        pos matches Some(i) ==> i == index_of(width as int, x as int, y as int) && i < width
            * height,
{
    if x >= 0 && x < width && y >= 0 && y < height {
        proof {
            lemma_index_in_range(width as int, height as int, x as int, y as int);
        }
        Some((y * width + x) as usize)
    } else {
        None
    }
}

} // verus!
