//! A pixel buffer of fixed size with bounds-checked writes.

use vstd::prelude::*;
use crate::color::Color;
use crate::row_major::{in_bounds, index_of, column_of, row_of, position, lemma_index_in_range,
    lemma_index_coords, lemma_coords_index};

verus! {

/// The mathematical content of a [`Framebuffer`].
pub struct FramebufferView {
    pub width: int,
    pub height: int,
    /// One colour per pixel, in row-major order.
    pub pixels: Seq<Color>,
    pub current_color: Color,
    pub background_color: Color,
}

impl FramebufferView {
    /// The buffer holds exactly one colour per pixel.
    pub open spec fn wf(self) -> bool {
        &&& 0 <= self.width
        &&& 0 <= self.height
        &&& self.pixels.len() == self.width * self.height
    }

    pub open spec fn in_bounds(self, x: int, y: int) -> bool {
        in_bounds(self.width, self.height, x, y)
    }

    /// The colour of pixel `(x, y)`; meaningful inside the buffer only.
    pub open spec fn pixel(self, x: int, y: int) -> Color {
        self.pixels[index_of(self.width, x, y)]
    }

    /// A freshly created buffer: every pixel black, white as current colour.
    pub open spec fn blank(width: int, height: int) -> FramebufferView {
        FramebufferView {
            width,
            height,
            pixels: Seq::new((width * height) as nat, |i: int| Color::black()),
            current_color: Color::white(),
            background_color: Color::black(),
        }
    }

    /// Reading pixel `(x, y)`.
    pub open spec fn get_pixel(self, x: int, y: int) -> Option<Color> {
        if self.in_bounds(x, y) {
            Some(self.pixel(x, y))
        } else {
            None
        }
    }

    /// The buffer after writing `color` at `(x, y)`: a write outside the
    /// buffer changes nothing.
    pub open spec fn set_pixel(self, x: int, y: int, color: Color) -> FramebufferView {
        if self.in_bounds(x, y) {
            FramebufferView { pixels: self.pixels.update(index_of(self.width, x, y), color), ..self }
        } else {
            self
        }
    }

    /// The buffer after every pixel has been overwritten with the background
    /// colour.
    pub open spec fn clear(self) -> FramebufferView {
        FramebufferView {
            pixels: Seq::new(self.pixels.len(), |i: int| self.background_color),
            ..self
        }
    }

    /// The pixels as an image: each with its column and row, row by row.
    pub open spec fn image_pixels(self) -> Seq<(int, int, Color)> {
        Seq::new(
            self.pixels.len(),
            |i: int| (column_of(self.width, i), row_of(self.width, i), self.pixels[i]),
        )
    }

    pub open spec fn set_background_color(self, color: Color) -> FramebufferView {
        FramebufferView { background_color: color, ..self }
    }

    pub open spec fn set_current_color(self, color: Color) -> FramebufferView {
        FramebufferView { current_color: color, ..self }
    }
}

/// A `width` by `height` buffer of colours with a background colour, used by
/// [`Framebuffer::clear`], and a current paint colour.
pub struct Framebuffer {
    width: i32,
    height: i32,
    pixels: Vec<Color>,
    current_color: Color,
    background_color: Color,
}

impl View for Framebuffer {
    type V = FramebufferView;

    closed spec fn view(&self) -> FramebufferView {
        FramebufferView {
            width: self.width as int,
            height: self.height as int,
            pixels: self.pixels@,
            current_color: self.current_color,
            background_color: self.background_color,
        }
    }
}

impl Framebuffer {
    #[verifier::type_invariant]
    spec fn inv(&self) -> bool {
        &&& 0 <= self.width
        &&& 0 <= self.height
        &&& self.width * self.height <= i32::MAX
        &&& self.pixels.len() == self.width * self.height
    }

    /// A buffer of `width` by `height` black pixels. Its current colour is
    /// white and its background colour black. Neither dimension may be
    /// negative, and the number of pixels must fit in an `i32`.
    pub fn new(width: i32, height: i32) -> (framebuffer: Framebuffer)
        requires
            0 <= width,
            0 <= height,
            width * height <= i32::MAX,
        ensures
            framebuffer@ == FramebufferView::blank(width as int, height as int),
            framebuffer@.wf(),
    {
        let background_color = Color::black();
        assert(0 <= width * height) by (nonlinear_arith)
            requires
                0 <= width,
                0 <= height,
        ;
        let framebuffer = Framebuffer {
            width,
            height,
            pixels: vec![background_color; (width * height) as usize],
            current_color: Color::white(),
            background_color,
        };
        assert(framebuffer@.pixels =~= FramebufferView::blank(width as int, height as int).pixels);
        framebuffer
    }

    /// Overwrites every pixel with the background colour.
    pub fn clear(&mut self)
        ensures
            final(self)@ == old(self)@.clear(),
            final(self)@.wf(),
    {
        proof {
            use_type_invariant(&*self);
        }
        let n = self.pixels.len();
        let mut i: usize = 0;
        while i < n
            invariant
                i <= n,
                n == self.pixels.len(),
                self.width == old(self).width,
                self.height == old(self).height,
                self.current_color == old(self).current_color,
                self.background_color == old(self).background_color,
                self.pixels.len() == old(self).pixels.len(),
                self.inv(),
                forall|j: int| 0 <= j < i ==> self.pixels@[j] == self.background_color,
            decreases n - i,
        {
            self.pixels[i] = self.background_color;
            i += 1;
        }
        assert(self@.pixels =~= old(self)@.clear().pixels);
    }

    /// Writes `color` at `(x, y)`. A write outside the buffer is ignored.
    pub fn set_pixel(&mut self, x: i32, y: i32, color: Color)
        ensures
            final(self)@ == old(self)@.set_pixel(x as int, y as int, color),
            final(self)@.wf(),
    {
        proof {
            use_type_invariant(&*self);
        }
        if let Some(index) = position(self.width, self.height, x, y) {
            self.pixels[index] = color;
        }
    }

    /// The colour at `(x, y)`, or `None` outside the buffer.
    pub fn get_pixel(&self, x: i32, y: i32) -> (pixel: Option<Color>)
        ensures
            pixel == self@.get_pixel(x as int, y as int),
    {
        proof {
            use_type_invariant(self);
        }
        match position(self.width, self.height, x, y) {
            Some(index) => Some(self.pixels[index]),
            None => None,
        }
    }

    /// Sets the colour that [`Framebuffer::clear`] fills the buffer with.
    /// The pixels stay as they are.
    pub fn set_background_color(&mut self, color: Color)
        ensures
            final(self)@ == old(self)@.set_background_color(color),
            final(self)@.wf(),
    {
        proof {
            use_type_invariant(&*self);
        }
        self.background_color = color;
    }

    /// Sets the current paint colour. The pixels stay as they are.
    pub fn set_current_color(&mut self, color: Color)
        ensures
            final(self)@ == old(self)@.set_current_color(color),
            final(self)@.wf(),
    {
        proof {
            use_type_invariant(&*self);
        }
        self.current_color = color;
    }

    pub fn width(&self) -> (width: i32)
        ensures
            width == self@.width,
            self@.wf(),
    {
        proof {
            use_type_invariant(self);
        }
        self.width
    }

    pub fn height(&self) -> (height: i32)
        ensures
            height == self@.height,
            self@.wf(),
    {
        proof {
            use_type_invariant(self);
        }
        self.height
    }

    /// The pixels in row-major order.
    pub fn pixels(&self) -> (pixels: &Vec<Color>)
        ensures
            pixels@ == self@.pixels,
            self@.wf(),
    {
        proof {
            use_type_invariant(self);
        }
        &self.pixels
    }

    pub fn current_color(&self) -> (color: Color)
        ensures
            color == self@.current_color,
    {
        self.current_color
    }

    pub fn background_color(&self) -> (color: Color)
        ensures
            color == self@.background_color,
    {
        self.background_color
    }

    /// The pixels as an image: every pixel with its column and row, row by
    /// row from the top, each row from the left.
    pub fn image_pixels(&self) -> (image: Vec<(i32, i32, Color)>)
        ensures
            image@.map_values(|p: (i32, i32, Color)| (p.0 as int, p.1 as int, p.2))
                == self@.image_pixels(),
    {
        proof {
            use_type_invariant(self);
        }
        let mut image: Vec<(i32, i32, Color)> = Vec::new();
        let mut y: i32 = 0;
        while y < self.height
            invariant
                self.inv(),
                0 <= y <= self.height,
                image.len() == y * self.width,
                forall|i: int|
                    0 <= i < image.len() ==> (#[trigger] image[i]) == (
                        column_of(self.width as int, i) as i32,
                        row_of(self.width as int, i) as i32,
                        self.pixels[i],
                    ),
            decreases self.height - y,
        {
            let mut x: i32 = 0;
            while x < self.width
                invariant
                    self.inv(),
                    0 <= y < self.height,
                    0 <= x <= self.width,
                    image.len() == y * self.width + x,
                    forall|i: int|
                        0 <= i < image.len() ==> (#[trigger] image[i]) == (
                            column_of(self.width as int, i) as i32,
                            row_of(self.width as int, i) as i32,
                            self.pixels[i],
                        ),
                decreases self.width - x,
            {
                proof {
                    lemma_index_in_range(self.width as int, self.height as int, x as int, y as int);
                    lemma_index_coords(self.width as int, self.height as int, x as int, y as int);
                }
                let index = (y * self.width + x) as usize;
                image.push((x, y, self.pixels[index]));
                x += 1;
            }
            assert((y + 1) * self.width == y * self.width + self.width) by (nonlinear_arith);
            y += 1;
        }
        proof {
            assert(image.len() == self.pixels.len()) by (nonlinear_arith)
                requires
                    image.len() == y * self.width,
                    y == self.height,
                    self.pixels.len() == self.width * self.height,
            ;
            assert forall|i: int| 0 <= i < image.len() implies (
                image[i].0 as int,
                image[i].1 as int,
                image[i].2,
            ) == self@.image_pixels()[i] by {
                lemma_coords_index(self.width as int, self.height as int, i);
            }
            assert(image@.map_values(|p: (i32, i32, Color)| (p.0 as int, p.1 as int, p.2))
                =~= self@.image_pixels());
        }
        image
    }
}

/// After [`Framebuffer::clear`], reading any pixel of the buffer gives the
/// background colour, whatever was written before.
pub proof fn lemma_clear_then_get(framebuffer: FramebufferView, x: int, y: int)
    requires
        framebuffer.wf(),
        framebuffer.in_bounds(x, y),
    ensures
        framebuffer.clear().get_pixel(x, y) == Some(framebuffer.background_color),
{
    lemma_index_in_range(framebuffer.width, framebuffer.height, x, y);
}

/// A pixel written before [`Framebuffer::clear`] is overwritten by it: the
/// buffer is the same as if the pixel had never been written.
pub proof fn lemma_clear_overwrites_set(
    framebuffer: FramebufferView,
    x: int,
    y: int,
    color: Color,
)
    requires
        framebuffer.wf(),
    ensures
        framebuffer.set_pixel(x, y, color).clear() == framebuffer.clear(),
{
    if framebuffer.in_bounds(x, y) {
        lemma_index_in_range(framebuffer.width, framebuffer.height, x, y);
    }
    assert(framebuffer.set_pixel(x, y, color).clear().pixels =~= framebuffer.clear().pixels);
}

/// Reading a pixel of the buffer after writing it gives the colour written.
pub proof fn lemma_set_then_get(framebuffer: FramebufferView, x: int, y: int, color: Color)
    requires
        framebuffer.wf(),
        framebuffer.in_bounds(x, y),
    ensures
        framebuffer.set_pixel(x, y, color).get_pixel(x, y) == Some(color),
{
    lemma_index_in_range(framebuffer.width, framebuffer.height, x, y);
}

/// Writing a pixel of the buffer changes no other pixel and no dimension.
pub proof fn lemma_set_keeps_others(
    framebuffer: FramebufferView,
    x: int,
    y: int,
    color: Color,
    other_x: int,
    other_y: int,
)
    requires
        framebuffer.wf(),
        other_x != x || other_y != y,
    ensures
        framebuffer.set_pixel(x, y, color).wf(),
        framebuffer.set_pixel(x, y, color).width == framebuffer.width,
        framebuffer.set_pixel(x, y, color).height == framebuffer.height,
        framebuffer.set_pixel(x, y, color).get_pixel(other_x, other_y) == framebuffer.get_pixel(
            other_x,
            other_y,
        ),
{
    if framebuffer.in_bounds(x, y) {
        lemma_index_in_range(framebuffer.width, framebuffer.height, x, y);
    }
    if framebuffer.in_bounds(x, y) && framebuffer.in_bounds(other_x, other_y) {
        lemma_index_in_range(framebuffer.width, framebuffer.height, other_x, other_y);
        if index_of(framebuffer.width, x, y) == index_of(framebuffer.width, other_x, other_y) {
            crate::row_major::lemma_index_injective(
                framebuffer.width,
                framebuffer.height,
                x,
                y,
                other_x,
                other_y,
            );
        }
    }
}

/// A write outside the buffer alters neither the length of the buffer nor
/// any pixel.
pub proof fn lemma_set_out_of_bounds(framebuffer: FramebufferView, x: int, y: int, color: Color)
    requires
        !framebuffer.in_bounds(x, y),
    ensures
        framebuffer.set_pixel(x, y, color) == framebuffer,
        framebuffer.set_pixel(x, y, color).pixels.len() == framebuffer.pixels.len(),
        forall|other_x: int, other_y: int|
            framebuffer.set_pixel(x, y, color).get_pixel(other_x, other_y)
                == framebuffer.get_pixel(other_x, other_y),
{
}

} // verus!
