//! The fixed 256-entry colour palette, indexed by iteration count.

use vstd::prelude::*;

verus! {

/// Number of palette entries.  Iteration counts handed to the palette run
/// over `[0, MAX_ITERS - 1]`, because the escape-time budget of the renderer
/// is `MAX_ITERS - 1`.
pub const MAX_ITERS: usize = 256;

/// An RGB colour with 8-bit channels.
#[derive(Clone, Copy, PartialEq, Eq, Structural, Debug)]
pub struct Color {
    pub r: u8,
    pub g: u8,
    pub b: u8,
}

/// The palette entry for index `i`: three 3-bit fields sliced out of `i`
/// (bits 6 and up for red, bits 3 to 5 for green, bits 0 to 2 for blue),
/// each spread over the channel range by a factor of 32.
pub open spec fn palette_entry(i: int) -> Color {
    Color {
        r: (((i / 64) % 8) * 32) as u8,
        g: (((i / 8) % 8) * 32) as u8,
        b: ((i % 8) * 32) as u8,
    }
}

/// A sequence is the palette table: 256 entries, entry `i` equal to
/// `palette_entry(i)`.  This is exactly what `build_palette` ensures.
pub open spec fn palette_ok(p: Seq<Color>) -> bool {
    &&& p.len() == MAX_ITERS
    &&& forall|i: int| 0 <= i < MAX_ITERS ==> #[trigger] p[i] == palette_entry(i)
}

/// Builds the palette table: 256 entries, entry `i` equal to
/// `palette_entry(i)`.  The table is built once at startup and read only
/// afterwards.
pub fn build_palette() -> (p: Vec<Color>)
    ensures
        palette_ok(p@),
{
    let mut p: Vec<Color> = Vec::new();
    let mut i: usize = 0;
    while i < MAX_ITERS
        invariant
            i <= MAX_ITERS,
            p@.len() == i,
            forall|j: int| 0 <= j < i ==> #[trigger] p@[j] == palette_entry(j),
        decreases MAX_ITERS - i,
    {
        let idx: u32 = i as u32;
        let r: u32 = ((idx & 0x1c0) >> 6) << 5;
        let g: u32 = ((idx & 0x038) >> 3) << 5;
        let b: u32 = (idx & 0x007) << 5;
        proof {
            assert(((idx & 0x1c0) >> 6u32) << 5u32 == ((idx / 64) % 8) * 32)
                by (bit_vector)
                requires idx < 256;
            assert(((idx & 0x038) >> 3u32) << 5u32 == ((idx / 8) % 8) * 32)
                by (bit_vector)
                requires idx < 256;
            assert((idx & 0x007) << 5u32 == (idx % 8) * 32)
                by (bit_vector)
                requires idx < 256;
        }
        p.push(Color { r: r as u8, g: g as u8, b: b as u8 });
        i = i + 1;
    }
    p
}

/// The palette is determined: any two tables that `build_palette` can have
/// produced are equal, entry by entry.
pub proof fn lemma_palette_determined(a: Seq<Color>, b: Seq<Color>)
    requires
        palette_ok(a),
        palette_ok(b),
    ensures
        a == b,
{
    assert forall|i: int| 0 <= i < a.len() implies a[i] == b[i] by {
        assert(a[i] == palette_entry(i));
        assert(b[i] == palette_entry(i));
    }
    assert(a =~= b);
}

/// Every channel of every palette entry is one of the eight levels
/// 0, 32, ..., 224: a multiple of 32 and at most 224.
pub proof fn lemma_palette_channel_bounds(i: int)
    requires
        0 <= i < MAX_ITERS,
    ensures
        palette_entry(i).r % 32 == 0 && palette_entry(i).r <= 224,
        palette_entry(i).g % 32 == 0 && palette_entry(i).g <= 224,
        palette_entry(i).b % 32 == 0 && palette_entry(i).b <= 224,
{
    let rk = (i / 64) % 8;
    let gk = (i / 8) % 8;
    let bk = i % 8;
    assert(0 <= rk < 8 && 0 <= gk < 8 && 0 <= bk < 8);
    assert((rk * 32) % 32 == 0 && (gk * 32) % 32 == 0 && (bk * 32) % 32 == 0)
        by (nonlinear_arith)
        requires 0 <= rk && 0 <= gk && 0 <= bk;
}

} // verus!
