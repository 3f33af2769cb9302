use mandelbrot::complex::SCALE;
use mandelbrot::escape::escape_time;
use mandelbrot::palette::{build_palette, Color};
use mandelbrot::render::{pixel_color, render_column};
use mandelbrot::view::{map_axis, pixel_to_complex, standard_viewport};

#[test]
fn standard_viewport_bounds() {
    let v = standard_viewport();
    assert_eq!(v.x_min, -2 * SCALE);
    assert_eq!(v.x_max, 2 * SCALE);
    assert_eq!(v.y_min, -2 * SCALE);
    assert_eq!(v.y_max, 2 * SCALE);
}

#[test]
fn map_axis_endpoints() {
    let v = standard_viewport();
    assert_eq!(map_axis(0, v.x_min, v.x_max, 800), -2 * SCALE);
    assert!(map_axis(799, v.x_min, v.x_max, 800) < 2 * SCALE);
}

#[test]
fn center_pixel_maps_to_origin() {
    // On the standard [-2, 2] x [-2, 2] viewport over 800 x 600 pixels,
    // pixel (400, 300) lands exactly on 0 + 0i, which never escapes:
    // the escape time is the whole budget, MAX_ITERS - 1 = 255.
    let v = standard_viewport();
    let c = pixel_to_complex(400, 300, &v, 800, 600);
    assert_eq!(c.re, 0);
    assert_eq!(c.im, 0);
    assert_eq!(escape_time(c, 255), 255);
}

#[test]
fn center_pixel_color() {
    let v = standard_viewport();
    let p = build_palette();
    let col = pixel_color(400, 300, &v, 800, 600, &p);
    assert_eq!(col, p[255]);
    assert_eq!(col, Color { r: 96, g: 224, b: 224 });
}

#[test]
fn corner_pixel_color() {
    // Pixel (0, 0) maps to -2 - 2i, which escapes after one iteration.
    let v = standard_viewport();
    let p = build_palette();
    let col = pixel_color(0, 0, &v, 800, 600, &p);
    assert_eq!(col, p[1]);
    assert_eq!(col, Color { r: 0, g: 0, b: 32 });
}

#[test]
fn pixel_color_idempotent() {
    // The pipeline has no hidden state: the same pixel, viewport and budget
    // always give the same colour.
    let v = standard_viewport();
    let p = build_palette();
    let a = pixel_color(123, 456, &v, 800, 600, &p);
    let b = pixel_color(123, 456, &v, 800, 600, &p);
    assert_eq!(a, b);
    let p2 = build_palette();
    let c = pixel_color(123, 456, &v, 800, 600, &p2);
    assert_eq!(a, c);
}

#[test]
fn render_column_matches_pixel_colors() {
    let v = standard_viewport();
    let p = build_palette();
    let col = render_column(400, &v, 800, 600, &p);
    assert_eq!(col.len(), 600);
    assert_eq!(col[300], pixel_color(400, 300, &v, 800, 600, &p));
    assert_eq!(col[0], pixel_color(400, 0, &v, 800, 600, &p));
    assert_eq!(col[599], pixel_color(400, 599, &v, 800, 600, &p));
}

#[test]
fn tiny_surface_renders() {
    // A 2 x 2 surface: the corners of the standard viewport escape at once,
    // the pixel at the exact center never does.
    let v = standard_viewport();
    let p = build_palette();
    let top_left = pixel_color(0, 0, &v, 2, 2, &p);
    assert_eq!(top_left, p[1]);
    let center = pixel_color(1, 1, &v, 2, 2, &p);
    assert_eq!(center, p[255]);
}
