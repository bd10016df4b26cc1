use game_of_life::color::Color;
use game_of_life::framebuffer::Framebuffer;

#[test]
fn new_framebuffer_is_black() {
    let framebuffer = Framebuffer::new(3, 2);
    assert_eq!(framebuffer.width(), 3);
    assert_eq!(framebuffer.height(), 2);
    assert_eq!(framebuffer.pixels().len(), 6);
    assert_eq!(framebuffer.pixels(), &vec![Color::new(0, 0, 0, 255); 6]);
    assert_eq!(framebuffer.background_color(), Color::new(0, 0, 0, 255));
    assert_eq!(framebuffer.current_color(), Color::new(255, 255, 255, 255));
}

#[test]
fn empty_framebuffer_has_no_pixels() {
    let mut framebuffer = Framebuffer::new(0, 7);
    assert_eq!(framebuffer.pixels().len(), 0);
    assert_eq!(framebuffer.get_pixel(0, 0), None);
    framebuffer.set_pixel(0, 0, Color::white());
    framebuffer.clear();
    assert_eq!(framebuffer.pixels().len(), 0);
    assert_eq!(framebuffer.image_pixels(), vec![]);
}

#[test]
fn set_pixel_writes_row_by_row() {
    let mut framebuffer = Framebuffer::new(3, 2);
    let red = Color::new(200, 0, 0, 255);
    framebuffer.set_pixel(1, 0, red);
    assert_eq!(framebuffer.pixels()[1], red);
    assert_eq!(framebuffer.get_pixel(1, 0), Some(red));
    assert_eq!(framebuffer.get_pixel(0, 1), Some(Color::black()));
    framebuffer.set_pixel(2, 1, Color::yellow());
    assert_eq!(framebuffer.pixels()[5], Color::yellow());
    assert_eq!(
        framebuffer.pixels(),
        &vec![
            Color::black(),
            red,
            Color::black(),
            Color::black(),
            Color::black(),
            Color::yellow()
        ]
    );
}

#[test]
fn set_pixel_out_of_bounds_changes_nothing() {
    let mut framebuffer = Framebuffer::new(3, 2);
    framebuffer.set_pixel(2, 1, Color::white());
    let before = framebuffer.pixels().clone();
    for (x, y) in [(-1, 0), (0, -1), (3, 0), (0, 2), (3, 2), (i32::MIN, i32::MIN), (i32::MAX, 0)] {
        framebuffer.set_pixel(x, y, Color::yellow());
        assert_eq!(framebuffer.get_pixel(x, y), None);
    }
    assert_eq!(framebuffer.pixels(), &before);
    assert_eq!(framebuffer.pixels().len(), 6);
    assert_eq!(framebuffer.width(), 3);
    assert_eq!(framebuffer.height(), 2);
}

#[test]
fn clear_overwrites_every_pixel() {
    let mut framebuffer = Framebuffer::new(4, 3);
    framebuffer.set_pixel(0, 0, Color::white());
    framebuffer.set_pixel(3, 2, Color::yellow());
    framebuffer.clear();
    for y in 0..3 {
        for x in 0..4 {
            assert_eq!(framebuffer.get_pixel(x, y), Some(Color::black()));
        }
    }
    assert_eq!(framebuffer.pixels().len(), 12);
}

#[test]
fn background_color_takes_effect_at_clear() {
    let mut framebuffer = Framebuffer::new(2, 2);
    let night = Color::new(20, 20, 30, 255);
    framebuffer.set_pixel(1, 1, Color::white());
    framebuffer.set_background_color(night);
    assert_eq!(framebuffer.background_color(), night);
    assert_eq!(framebuffer.get_pixel(0, 0), Some(Color::black()));
    assert_eq!(framebuffer.get_pixel(1, 1), Some(Color::white()));
    framebuffer.clear();
    assert_eq!(framebuffer.pixels(), &vec![night; 4]);
}

#[test]
fn current_color_repaints_nothing() {
    let mut framebuffer = Framebuffer::new(2, 1);
    framebuffer.set_current_color(Color::yellow());
    assert_eq!(framebuffer.current_color(), Color::yellow());
    assert_eq!(framebuffer.background_color(), Color::black());
    assert_eq!(framebuffer.pixels(), &vec![Color::black(); 2]);
    framebuffer.clear();
    assert_eq!(framebuffer.pixels(), &vec![Color::black(); 2]);
}

#[test]
fn image_pixels_go_row_by_row() {
    let mut framebuffer = Framebuffer::new(3, 2);
    let red = Color::new(200, 0, 0, 255);
    framebuffer.set_pixel(2, 0, red);
    framebuffer.set_pixel(0, 1, Color::white());
    assert_eq!(
        framebuffer.image_pixels(),
        vec![
            (0, 0, Color::black()),
            (1, 0, Color::black()),
            (2, 0, red),
            (0, 1, Color::white()),
            (1, 1, Color::black()),
            (2, 1, Color::black())
        ]
    );
}

#[test]
fn named_colors() {
    assert_eq!(Color::black(), Color { r: 0, g: 0, b: 0, a: 255 });
    assert_eq!(Color::white(), Color { r: 255, g: 255, b: 255, a: 255 });
    assert_eq!(Color::blank(), Color { r: 0, g: 0, b: 0, a: 0 });
    assert_eq!(Color::yellow(), Color { r: 255, g: 255, b: 0, a: 255 });
    assert_eq!(Color::new(1, 2, 3, 4), Color { r: 1, g: 2, b: 3, a: 4 });
}
