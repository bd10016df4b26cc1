//! Conway's Game of Life on a fixed-size toroidal grid, and the pixel buffer
//! that its generations are painted into.

pub mod color;
pub mod framebuffer;
pub mod game_of_life;
pub mod render;
pub mod row_major;
