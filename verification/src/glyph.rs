//! The fixed 16-glyph palette and the luminance-to-glyph mapper.

use vstd::prelude::*;

verus! {

/// Number of glyphs in the palette.
pub open spec fn palette_len() -> int {
    16
}

/// The fixed palette, ordered from darkest/emptiest to brightest/densest:
/// the bytes of `" .:-=+*#%@8BMWS&"`.
pub open spec fn spec_palette(i: int) -> u8 {
    if i == 0 {
        32u8  // ' '
    } else if i == 1 {
        46u8  // '.'
    } else if i == 2 {
        58u8  // ':'
    } else if i == 3 {
        45u8  // '-'
    } else if i == 4 {
        61u8  // '='
    } else if i == 5 {
        43u8  // '+'
    } else if i == 6 {
        42u8  // '*'
    } else if i == 7 {
        35u8  // '#'
    } else if i == 8 {
        37u8  // '%'
    } else if i == 9 {
        64u8  // '@'
    } else if i == 10 {
        56u8  // '8'
    } else if i == 11 {
        66u8  // 'B'
    } else if i == 12 {
        77u8  // 'M'
    } else if i == 13 {
        87u8  // 'W'
    } else if i == 14 {
        83u8  // 'S'
    } else {
        38u8  // '&'
    }
}

/// The glyph at a palette index.
pub fn palette_glyph(i: usize) -> (g: u8)
    requires
        0 <= i < palette_len(),
    ensures
        g == spec_palette(i as int),
{
    if i == 0 {
        32
    } else if i == 1 {
        46
    } else if i == 2 {
        58
    } else if i == 3 {
        45
    } else if i == 4 {
        61
    } else if i == 5 {
        43
    } else if i == 6 {
        42
    } else if i == 7 {
        35
    } else if i == 8 {
        37
    } else if i == 9 {
        64
    } else if i == 10 {
        56
    } else if i == 11 {
        66
    } else if i == 12 {
        77
    } else if i == 13 {
        87
    } else if i == 14 {
        83
    } else {
        38
    }
}

/// Palette index of a luminance value: `v * 15 / 255`, which quantizes the
/// byte range onto the sixteen palette entries.
pub open spec fn spec_glyph_index(v: u8) -> int {
    v * 15 / 255
}

/// The luminance-policy glyph for a luminance value.
pub open spec fn spec_luminance_glyph(v: u8) -> u8 {
    spec_palette(spec_glyph_index(v))
}

/// Palette index of a luminance value.
pub fn glyph_index(v: u8) -> (i: usize)
    ensures
        i == spec_glyph_index(v),
        0 <= i < palette_len(),
{
    (v as usize) * 15 / 255
}

/// The luminance-policy glyph for a luminance value.
pub fn luminance_glyph(v: u8) -> (g: u8)
    ensures
        g == spec_luminance_glyph(v),
{
    palette_glyph(glyph_index(v))
}

/// The palette index is always within `[0, 15]` and is monotonically
/// non-decreasing in the luminance value.
pub proof fn lemma_glyph_index_monotone(v1: u8, v2: u8)
    ensures
        0 <= spec_glyph_index(v1) < palette_len(),
        v1 <= v2 ==> spec_glyph_index(v1) <= spec_glyph_index(v2),
{
    assert(0 <= spec_glyph_index(v1) < 16) by {
        assert(v1 * 15 <= 255 * 15);
        vstd::arithmetic::div_mod::lemma_div_is_ordered(v1 * 15, (255 * 15) as int, 255);
    }
    if v1 <= v2 {
        assert(v1 * 15 <= v2 * 15);
        vstd::arithmetic::div_mod::lemma_div_is_ordered(v1 * 15, v2 * 15, 255);
    }
}

/// A fully transparent sample maps, under the luminance policy, to the
/// darkest glyph of the palette.
pub proof fn lemma_transparent_darkest(r: u8, g: u8, b: u8)
    ensures
        crate::pixel::spec_luminance(r, g, b, 0) == 0,
        spec_luminance_glyph(crate::pixel::spec_luminance(r, g, b, 0)) == spec_palette(0),
{
}

/// The 256-entry lookup table from luminance to palette index, built once
/// per run.
pub fn build_lut() -> (lut: Vec<u8>)
    ensures
        lut@.len() == 256,
        forall|v: int| 0 <= v < 256 ==> lut@[v] == spec_glyph_index(v as u8),
{
    let mut lut: Vec<u8> = Vec::new();
    let mut i: usize = 0;
    while i < 256
        invariant
            i <= 256,
            lut@.len() == i,
            forall|v: int| 0 <= v < i ==> lut@[v] == spec_glyph_index(v as u8),
        decreases 256 - i,
    {
        lut.push((i * 15 / 255) as u8);
        i = i + 1;
    }
    lut
}

} // verus!
