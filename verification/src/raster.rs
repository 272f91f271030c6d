//! Integer core of the 2D Mandelbrot rasterizer: the byte palettes, the
//! anchor-color lookup that palette interpolation rests on, and the packing of
//! per-pixel colors into a row-major RGBA byte buffer.

use vstd::prelude::*;

verus! {

/// The byte palette selected by palette id 0.
pub open spec fn spec_byte_palette0() -> Seq<(u8, u8, u8)> {
    seq![
        (0u8, 255u8, 255u8),   // cyan
        (255u8, 0u8, 255u8),   // magenta
        (128u8, 0u8, 255u8),   // purple
        (0u8, 128u8, 255u8),   // blue
        (255u8, 255u8, 0u8),   // yellow
    ]
}

/// The byte palette selected by every nonzero palette id.
pub open spec fn spec_byte_palette1() -> Seq<(u8, u8, u8)> {
    seq![
        (255u8, 0u8, 128u8),   // hot pink
        (0u8, 255u8, 128u8),   // electric green
        (128u8, 0u8, 255u8),   // deep purple
        (0u8, 128u8, 255u8),   // tech blue
        (255u8, 128u8, 0u8),   // neon orange
    ]
}

/// Byte palette selection: id 0 picks its own table, every other id falls
/// back to the table of id 1.
pub open spec fn spec_byte_palette(palette_id: u32) -> Seq<(u8, u8, u8)> {
    if palette_id == 0 {
        spec_byte_palette0()
    } else {
        spec_byte_palette1()
    }
}

/// Returns the five-entry byte palette for `palette_id`.
pub fn byte_palette(palette_id: u32) -> (v: Vec<(u8, u8, u8)>)
    ensures
        v@ == spec_byte_palette(palette_id),
{
    let mut v: Vec<(u8, u8, u8)> = Vec::new();
    if palette_id == 0 {
        v.push((0, 255, 255));
        v.push((255, 0, 255));
        v.push((128, 0, 255));
        v.push((0, 128, 255));
        v.push((255, 255, 0));
        proof {
            assert(v@ =~= spec_byte_palette0());
        }
    } else {
        v.push((255, 0, 128));
        v.push((0, 255, 128));
        v.push((128, 0, 255));
        v.push((0, 128, 255));
        v.push((255, 128, 0));
        proof {
            assert(v@ =~= spec_byte_palette1());
        }
    }
    v
}

/// The two anchor colors that palette interpolation blends between: the entry
/// at `idx1` and its successor, clamped to the last entry.
pub fn interpolation_endpoints(palette_id: u32, idx1: usize) -> (pair: ((u8, u8, u8), (u8, u8, u8)))
    requires
        idx1 < 5,
    ensures
        pair.0 == spec_byte_palette(palette_id)[idx1 as int],
        pair.1 == spec_byte_palette(palette_id)[if idx1 < 4 { idx1 + 1 } else { 4int }],
{
    let palette = byte_palette(palette_id);
    let idx2: usize = if idx1 + 1 < 5 { idx1 + 1 } else { 4 };
    (palette[idx1], palette[idx2])
}

/// The RGBA byte stream for a sequence of RGB pixels: four bytes per pixel,
/// red, green, blue, then a fully opaque alpha of 255.
pub open spec fn spec_rgba_bytes(pixels: Seq<(u8, u8, u8)>) -> Seq<u8> {
    Seq::new(
        pixels.len() * 4,
        |j: int|
            {
                let p = pixels[j / 4];
                if j % 4 == 0 {
                    p.0
                } else if j % 4 == 1 {
                    p.1
                } else if j % 4 == 2 {
                    p.2
                } else {
                    255u8
                }
            },
    )
}

/// Packs one RGB triple per pixel, given in row-major order, into the RGBA
/// image buffer of a `width` by `height` image: `width * height * 4` bytes,
/// no padding between rows, alpha 255 for every pixel.
pub fn assemble_rgba(width: u32, height: u32, pixels: &Vec<(u8, u8, u8)>) -> (buf: Vec<u8>)
    requires
        pixels@.len() == width * height,
        width * height * 4 <= usize::MAX,
    ensures
        buf@ == spec_rgba_bytes(pixels@),
        buf@.len() == width * height * 4,
        forall|j: int| 0 <= j < buf@.len() && j % 4 == 3 ==> buf@[j] == 255,
{
    let mut buf: Vec<u8> = Vec::new();
    let mut i: usize = 0;
    while i < pixels.len()
        invariant
            i <= pixels@.len(),
            buf@.len() == i * 4,
            forall|j: int| 0 <= j < i * 4 ==> buf@[j] == spec_rgba_bytes(pixels@)[j],
        decreases pixels@.len() - i,
    {
        let p = pixels[i];
        buf.push(p.0);
        buf.push(p.1);
        buf.push(p.2);
        buf.push(255);
        proof {
            assert forall|j: int| 0 <= j < (i + 1) * 4 implies buf@[j] == spec_rgba_bytes(
                pixels@,
            )[j] by {
                if j >= i * 4 {
                    assert(j / 4 == i);
                }
            }
        }
        i = i + 1;
    }
    proof {
        assert(buf@ =~= spec_rgba_bytes(pixels@));
        assert forall|j: int| 0 <= j < buf@.len() && j % 4 == 3 implies buf@[j] == 255 by {
            assert(buf@[j] == spec_rgba_bytes(pixels@)[j]);
        }
    }
    buf
}

} // verus!
