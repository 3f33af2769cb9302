use mandelbrot::palette::{build_palette, Color, MAX_ITERS};

#[test]
fn palette_has_max_iters_entries() {
    let p = build_palette();
    assert_eq!(p.len(), MAX_ITERS);
}

#[test]
fn palette_deterministic() {
    let a = build_palette();
    let b = build_palette();
    assert_eq!(a, b);
}

#[test]
fn palette_first_entry_is_black() {
    let p = build_palette();
    assert_eq!(p[0], Color { r: 0, g: 0, b: 0 });
}

#[test]
fn palette_last_entry() {
    // 255 = 0b11111111: green and blue keys are 0b111 (level 224), while the
    // red key, bits 6 and up, is 0b011 (level 96).
    let p = build_palette();
    assert_eq!(p[255], Color { r: 96, g: 224, b: 224 });
}

#[test]
fn palette_channels_are_levels_of_32() {
    let p = build_palette();
    for c in p {
        assert!(c.r % 32 == 0 && c.r <= 224);
        assert!(c.g % 32 == 0 && c.g <= 224);
        assert!(c.b % 32 == 0 && c.b <= 224);
    }
}

#[test]
fn palette_spot_values() {
    let p = build_palette();
    // 7 = 0b00000111: blue key 7, others 0.
    assert_eq!(p[7], Color { r: 0, g: 0, b: 224 });
    // 8 = 0b00001000: green key 1.
    assert_eq!(p[8], Color { r: 0, g: 32, b: 0 });
    // 64 = 0b01000000: red key 1.
    assert_eq!(p[64], Color { r: 32, g: 0, b: 0 });
}
