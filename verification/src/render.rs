//! The per-pixel pipeline: pixel position to complex coordinate to escape
//! time to palette colour, and the rendering of one pixel column.

use vstd::prelude::*;
use crate::escape::{escape_time, escape_time_spec};
use crate::palette::{Color, MAX_ITERS, palette_entry, palette_ok};
use crate::view::{Viewport, axis_coord, viewport_valid, pixel_to_complex};

verus! {

/// The colour of pixel (x, y): the palette entry of the escape time of its
/// complex coordinate, with iteration budget `MAX_ITERS - 1`.  A function of
/// the pixel, the viewport and the surface size alone.
pub open spec fn pixel_color_spec(x: int, y: int, v: Viewport, width: int, height: int) -> Color {
    palette_entry(
        escape_time_spec(
            axis_coord(x, v.x_min as int, v.x_max as int, width),
            axis_coord(y, v.y_min as int, v.y_max as int, height),
            (MAX_ITERS - 1) as nat,
        ) as int,
    )
}

/// Computes the colour of one pixel.  The escape time is at most
/// `MAX_ITERS - 1`, so it always indexes the palette in bounds.
pub fn pixel_color(
    x: u32,
    y: u32,
    v: &Viewport,
    width: u32,
    height: u32,
    palette: &Vec<Color>,
) -> (col: Color)
    requires
        x < width,
        y < height,
        viewport_valid(*v),
        palette_ok(palette@),
    ensures
        col == pixel_color_spec(x as int, y as int, *v, width as int, height as int),
{
    let c = pixel_to_complex(x, y, v, width, height);
    let budget: u32 = (MAX_ITERS - 1) as u32;
    let t = escape_time(c, budget);
    palette[t as usize]
}

/// Renders one pixel column: the colours of pixels (x, 0) up to
/// (x, height - 1), in row order.
pub fn render_column(
    x: u32,
    v: &Viewport,
    width: u32,
    height: u32,
    palette: &Vec<Color>,
) -> (col: Vec<Color>)
    requires
        x < width,
        viewport_valid(*v),
        palette_ok(palette@),
    ensures
        col@.len() == height,
        forall|y: int| 0 <= y < height
            ==> #[trigger] col@[y] == pixel_color_spec(x as int, y, *v, width as int, height as int),
{
    let mut col: Vec<Color> = Vec::new();
    let mut y: u32 = 0;
    while y < height
        invariant
            y <= height,
            col@.len() == y,
            x < width,
            viewport_valid(*v),
            palette_ok(palette@),
            forall|j: int| 0 <= j < y
                ==> col@[j] == pixel_color_spec(x as int, j, *v, width as int, height as int),
        decreases height - y,
    {
        let pc = pixel_color(x, y, v, width, height, palette);
        col.push(pc);
        y = y + 1;
    }
    col
}

} // verus!
