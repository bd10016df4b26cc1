//! Painting a grid into a framebuffer: the pixel at `(x, y)` shows the cell
//! at `(x, y)`.

use vstd::prelude::*;
use crate::framebuffer::{Framebuffer, FramebufferView};
use crate::game_of_life::{GameOfLifeGrid, GridView};
use crate::row_major::{column_of, row_of, index_of, lemma_index_in_range, lemma_index_coords};

verus! {

/// The framebuffer after the first `count` of its pixels, in row-major
/// order, have been painted: a pixel that has a cell of `grid` at its
/// coordinates takes the colour of that cell's state, any other pixel stays
/// as it is.
pub open spec fn painted_up_to(framebuffer: FramebufferView, grid: GridView, count: int)
    -> FramebufferView {
    FramebufferView {
        pixels: Seq::new(
            framebuffer.pixels.len(),
            |i: int|
                {
                    let x = column_of(framebuffer.width, i);
                    let y = row_of(framebuffer.width, i);
                    if i < count && grid.in_bounds(x, y) {
                        grid.color_of(grid.cell(x, y))
                    } else {
                        framebuffer.pixels[i]
                    }
                },
        ),
        ..framebuffer
    }
}

/// The framebuffer after `grid` has been painted into it.
pub open spec fn painted(framebuffer: FramebufferView, grid: GridView) -> FramebufferView {
    painted_up_to(framebuffer, grid, framebuffer.pixels.len() as int)
}

/// Painting pixel `(x, y)` after the pixels before it.
proof fn lemma_paint_one_more(framebuffer: FramebufferView, grid: GridView, x: int, y: int)
    requires
        framebuffer.wf(),
        framebuffer.in_bounds(x, y),
    ensures
        ({
            let count = index_of(framebuffer.width, x, y);
            let before = painted_up_to(framebuffer, grid, count);
            painted_up_to(framebuffer, grid, count + 1) == if grid.in_bounds(x, y) {
                before.set_pixel(x, y, grid.color_of(grid.cell(x, y)))
            } else {
                before
            }
        }),
{
    let count = index_of(framebuffer.width, x, y);
    let before = painted_up_to(framebuffer, grid, count);
    let after = painted_up_to(framebuffer, grid, count + 1);
    lemma_index_in_range(framebuffer.width, framebuffer.height, x, y);
    lemma_index_coords(framebuffer.width, framebuffer.height, x, y);
    if grid.in_bounds(x, y) {
        assert(after.pixels =~= before.set_pixel(x, y, grid.color_of(grid.cell(x, y))).pixels);
    } else {
        assert(after.pixels =~= before.pixels);
    }
}

/// Paints `grid` into `framebuffer`: every pixel that has a cell of the
/// grid at its coordinates takes the colour of that cell's state. A pixel
/// outside the grid stays as it is.
pub fn draw_grid(grid: &GameOfLifeGrid, framebuffer: &mut Framebuffer)
    ensures
        final(framebuffer)@ == painted(old(framebuffer)@, grid@),
        final(framebuffer)@.wf(),
{
    let width: i32 = framebuffer.width();
    let height: i32 = framebuffer.height();
    assert(painted_up_to(framebuffer@, grid@, 0).pixels =~= framebuffer@.pixels);
    let mut y: i32 = 0;
    while y < height
        invariant
            old(framebuffer)@.wf(),
            width == old(framebuffer)@.width,
            height == old(framebuffer)@.height,
            0 <= y <= height,
            framebuffer@ == painted_up_to(old(framebuffer)@, grid@, y * width),
        decreases height - y,
    {
        let mut x: i32 = 0;
        while x < width
            invariant
                old(framebuffer)@.wf(),
                width == old(framebuffer)@.width,
                height == old(framebuffer)@.height,
                0 <= y < height,
                0 <= x <= width,
                framebuffer@ == painted_up_to(old(framebuffer)@, grid@, y * width + x),
            decreases width - x,
        {
            proof {
                lemma_paint_one_more(old(framebuffer)@, grid@, x as int, y as int);
            }
            if let Some(cell_state) = grid.get_cell(x, y) {
                framebuffer.set_pixel(x, y, grid.get_color(cell_state));
            }
            x += 1;
        }
        assert((y + 1) * width == y * width + width) by (nonlinear_arith);
        y += 1;
    }
    assert(height * width == width * height) by (nonlinear_arith);
}

/// After a grid has been painted into a framebuffer, a pixel that has a
/// cell of the grid at its coordinates shows the colour of that cell's
/// state, and any other pixel is as it was.
pub proof fn lemma_painted_pixel(framebuffer: FramebufferView, grid: GridView, x: int, y: int)
    requires
        framebuffer.wf(),
        framebuffer.in_bounds(x, y),
    ensures
        painted(framebuffer, grid).get_pixel(x, y) == if grid.in_bounds(x, y) {
            Some(grid.color_of(grid.cell(x, y)))
        } else {
            framebuffer.get_pixel(x, y)
        },
{
    lemma_index_in_range(framebuffer.width, framebuffer.height, x, y);
    lemma_index_coords(framebuffer.width, framebuffer.height, x, y);
}

} // verus!
