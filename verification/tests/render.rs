use game_of_life::color::Color;
use game_of_life::framebuffer::Framebuffer;
use game_of_life::game_of_life::patterns::blinker;
use game_of_life::game_of_life::{CellState, GameOfLifeGrid};
use game_of_life::render::draw_grid;

#[test]
fn draw_grid_paints_each_cell() {
    let night = Color::new(20, 20, 30, 255);
    let mut grid = GameOfLifeGrid::new(3, 2, Color::yellow(), night);
    grid.set_cell(1, 0, CellState::Alive);
    grid.set_cell(2, 1, CellState::Alive);
    let mut framebuffer = Framebuffer::new(3, 2);
    draw_grid(&grid, &mut framebuffer);
    assert_eq!(
        framebuffer.pixels(),
        &vec![night, Color::yellow(), night, night, night, Color::yellow()]
    );
}

#[test]
fn draw_grid_leaves_pixels_outside_the_grid() {
    let night = Color::new(20, 20, 30, 255);
    let mut grid = GameOfLifeGrid::new(2, 1, Color::yellow(), night);
    grid.set_cell(0, 0, CellState::Alive);
    let mut framebuffer = Framebuffer::new(3, 2);
    framebuffer.set_pixel(2, 0, Color::white());
    draw_grid(&grid, &mut framebuffer);
    assert_eq!(
        framebuffer.pixels(),
        &vec![
            Color::yellow(),
            night,
            Color::white(),
            Color::black(),
            Color::black(),
            Color::black()
        ]
    );
}

#[test]
fn draw_grid_drops_cells_outside_the_framebuffer() {
    let night = Color::new(20, 20, 30, 255);
    let mut grid = GameOfLifeGrid::new(4, 3, Color::yellow(), night);
    grid.apply_pattern(&blinker(1, 0));
    grid.set_cell(0, 2, CellState::Alive);
    let mut framebuffer = Framebuffer::new(2, 2);
    draw_grid(&grid, &mut framebuffer);
    assert_eq!(framebuffer.pixels(), &vec![night, Color::yellow(), night, night]);
}

#[test]
fn one_tick_of_the_display() {
    let night = Color::new(20, 20, 30, 255);
    let mut grid = GameOfLifeGrid::new(5, 5, Color::yellow(), night);
    let mut framebuffer = Framebuffer::new(5, 5);
    framebuffer.set_background_color(night);
    grid.apply_pattern(&blinker(1, 2));

    grid.next_generation();
    framebuffer.clear();
    draw_grid(&grid, &mut framebuffer);

    for y in 0..5 {
        for x in 0..5 {
            let expected = if x == 2 && (1..=3).contains(&y) { Color::yellow() } else { night };
            assert_eq!(framebuffer.get_pixel(x, y), Some(expected));
        }
    }
}
