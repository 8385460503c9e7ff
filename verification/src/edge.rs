//! Edge analysis: 3x3 Sobel gradients over the luminance of a pixel buffer,
//! with replicate-edge boundary handling, and the classification of a
//! gradient into one of four stroke glyphs.
//!
//! Everything is exact integer arithmetic. The gradient magnitude is compared
//! through its square (`mag > t` iff `mag^2 > t^2` for non-negative values),
//! and the angle buckets of the classification are expressed through the
//! rational slope bound `408/985`, a convergent of `tan(22.5 degrees)`.

use vstd::prelude::*;
use crate::pixel::spec_luminance;
use crate::pixel::luminance;

verus! {

/// Clamp a coordinate to `[0, hi - 1]` (replicate-edge boundary).
pub open spec fn clamp_coord(v: int, hi: int) -> int {
    if v < 0 {
        0
    } else if v >= hi {
        hi - 1
    } else {
        v
    }
}

/// Luminance of the sample at `(x, y)`, with coordinates outside the buffer
/// clamped to the nearest edge pixel.
pub open spec fn spec_sample_lum(pix: Seq<u8>, w: int, h: int, x: int, y: int) -> u8 {
    let cx = clamp_coord(x, w);
    let cy = clamp_coord(y, h);
    let i = 4 * (cy * w + cx);
    spec_luminance(pix[i], pix[i + 1], pix[i + 2], pix[i + 3])
}

/// Horizontal Sobel response at `(x, y)`: kernel `[-1 0 1; -2 0 2; -1 0 1]`.
pub open spec fn spec_gx(pix: Seq<u8>, w: int, h: int, x: int, y: int) -> int {
    - spec_sample_lum(pix, w, h, x - 1, y - 1) + spec_sample_lum(pix, w, h, x + 1, y - 1)
    - 2 * spec_sample_lum(pix, w, h, x - 1, y) + 2 * spec_sample_lum(pix, w, h, x + 1, y)
    - spec_sample_lum(pix, w, h, x - 1, y + 1) + spec_sample_lum(pix, w, h, x + 1, y + 1)
}

/// Vertical Sobel response at `(x, y)`: kernel `[-1 -2 -1; 0 0 0; 1 2 1]`.
pub open spec fn spec_gy(pix: Seq<u8>, w: int, h: int, x: int, y: int) -> int {
    - spec_sample_lum(pix, w, h, x - 1, y - 1) - 2 * spec_sample_lum(pix, w, h, x, y - 1)
    - spec_sample_lum(pix, w, h, x + 1, y - 1) + spec_sample_lum(pix, w, h, x - 1, y + 1)
    + 2 * spec_sample_lum(pix, w, h, x, y + 1) + spec_sample_lum(pix, w, h, x + 1, y + 1)
}

/// Squared gradient magnitude at `(x, y)`.
pub open spec fn spec_mag2(pix: Seq<u8>, w: int, h: int, x: int, y: int) -> int {
    let gx = spec_gx(pix, w, h, x, y);
    let gy = spec_gy(pix, w, h, x, y);
    gx * gx + gy * gy
}

/// Squared magnitude threshold above which the edge override applies:
/// `120^2`, for a threshold of 120 on the 0-255 luminance scale.
pub open spec fn edge_threshold_sq() -> int {
    14400
}

/// Stroke glyph for a gradient `(gx, gy)`.
///
/// The edge runs perpendicular to the gradient. With the edge orientation
/// taken in `[0, 180)` degrees, the buckets are: under 22.5 or at least
/// 157.5 -> `-`; 22.5 to 67.5 -> `/`; 67.5 to 112.5 -> `|`;
/// 112.5 to 157.5 -> `\`. In terms of the gradient, a near-horizontal
/// gradient (slope below tan 22.5, approximated by 408/985) is a vertical
/// edge `|`, a near-vertical gradient is `-`, and the two diagonals are told
/// apart by whether the gradient components share a sign.
pub open spec fn spec_direction_glyph(gx: int, gy: int) -> u8 {
    let ax = if gx < 0 { -gx } else { gx };
    let ay = if gy < 0 { -gy } else { gy };
    if 985 * ay < 408 * ax {
        124u8  // '|'
    } else if 985 * ax < 408 * ay {
        45u8  // '-'
    } else if (gx >= 0) == (gy >= 0) {
        92u8  // '\'
    } else {
        47u8  // '/'
    }
}

/// Luminance of the sample at possibly out-of-range coordinates `(x, y)`,
/// clamped to the buffer.
fn sample_lum(pix: &Vec<u8>, w: usize, h: usize, x: i64, y: i64) -> (l: u8)
    requires
        1 <= w,
        1 <= h,
        pix@.len() == 4 * w * h,
        4 * w * h <= usize::MAX,
        w < 0x4000_0000_0000_0000,
        h < 0x4000_0000_0000_0000,
    ensures
        l == spec_sample_lum(pix@, w as int, h as int, x as int, y as int),
{
    let cx: usize = if x < 0 {
        0
    } else if x >= w as i64 {
        w - 1
    } else {
        x as usize
    };
    let cy: usize = if y < 0 {
        0
    } else if y >= h as i64 {
        h - 1
    } else {
        y as usize
    };
    proof {
        assert(4 * (cy * w + cx) + 3 < 4 * w * h && 0 <= cy * w <= 4 * w * h) by (nonlinear_arith)
            requires
                0 <= cx < w,
                0 <= cy < h,
        ;
    }
    let i: usize = 4 * (cy * w + cx);
    luminance(pix[i], pix[i + 1], pix[i + 2], pix[i + 3])
}

/// Sobel gradient pair at cell `(x, y)` of a `w x h` buffer.
pub fn sobel_at(pix: &Vec<u8>, w: usize, h: usize, x: usize, y: usize) -> (g: (i32, i32))
    requires
        1 <= w,
        1 <= h,
        x < w,
        y < h,
        pix@.len() == 4 * w * h,
    ensures
        g.0 == spec_gx(pix@, w as int, h as int, x as int, y as int),
        g.1 == spec_gy(pix@, w as int, h as int, x as int, y as int),
        -1020 <= g.0 <= 1020,
        -1020 <= g.1 <= 1020,
{
    let n: usize = pix.len();
    proof {
        assert(w < 0x4000_0000_0000_0000 && h < 0x4000_0000_0000_0000) by (nonlinear_arith)
            requires
                1 <= w,
                1 <= h,
                4 * w * h <= usize::MAX,
                usize::MAX <= 0xffff_ffff_ffff_ffff,
        ;
    }
    let xi: i64 = x as i64;
    let yi: i64 = y as i64;
    let l00 = sample_lum(pix, w, h, xi - 1, yi - 1) as i32;
    let l10 = sample_lum(pix, w, h, xi, yi - 1) as i32;
    let l20 = sample_lum(pix, w, h, xi + 1, yi - 1) as i32;
    let l01 = sample_lum(pix, w, h, xi - 1, yi) as i32;
    let l21 = sample_lum(pix, w, h, xi + 1, yi) as i32;
    let l02 = sample_lum(pix, w, h, xi - 1, yi + 1) as i32;
    let l12 = sample_lum(pix, w, h, xi, yi + 1) as i32;
    let l22 = sample_lum(pix, w, h, xi + 1, yi + 1) as i32;
    let gx: i32 = -l00 + l20 - 2 * l01 + 2 * l21 - l02 + l22;
    let gy: i32 = -l00 - 2 * l10 - l20 + l02 + 2 * l12 + l22;
    (gx, gy)
}

/// Squared magnitude of a Sobel gradient pair.
pub fn gradient_mag2(gx: i32, gy: i32) -> (m: i32)
    requires
        -1020 <= gx <= 1020,
        -1020 <= gy <= 1020,
    ensures
        m == gx * gx + gy * gy,
        0 <= m <= 2080800,
{
    proof {
        assert(0 <= gx * gx <= 1040400 && 0 <= gy * gy <= 1040400) by (nonlinear_arith)
            requires
                -1020 <= gx <= 1020,
                -1020 <= gy <= 1020,
        ;
    }
    gx * gx + gy * gy
}

/// Stroke glyph for a gradient pair.
pub fn direction_glyph(gx: i32, gy: i32) -> (g: u8)
    requires
        -1020 <= gx <= 1020,
        -1020 <= gy <= 1020,
    ensures
        g == spec_direction_glyph(gx as int, gy as int),
{
    let ax: i32 = if gx < 0 { -gx } else { gx };
    let ay: i32 = if gy < 0 { -gy } else { gy };
    if 985 * ay < 408 * ax {
        124
    } else if 985 * ax < 408 * ay {
        45
    } else if (gx >= 0) == (gy >= 0) {
        92
    } else {
        47
    }
}

/// Every sample of a uniform buffer has the same RGBA bytes as sample 0.
pub open spec fn spec_uniform(pix: Seq<u8>, w: int, h: int) -> bool {
    forall|i: int|
        0 <= i < w * h ==> #[trigger] pix[4 * i] == pix[0] && pix[4 * i + 1] == pix[1] && pix[4 * i
            + 2] == pix[2] && pix[4 * i + 3] == pix[3]
}

/// On a uniform buffer the clamped sample luminance is the same everywhere.
proof fn lemma_sample_lum_uniform(pix: Seq<u8>, w: int, h: int, x: int, y: int)
    requires
        1 <= w,
        1 <= h,
        pix.len() == 4 * w * h,
        spec_uniform(pix, w, h),
    ensures
        spec_sample_lum(pix, w, h, x, y) == spec_luminance(pix[0], pix[1], pix[2], pix[3]),
{
    let cx = clamp_coord(x, w);
    let cy = clamp_coord(y, h);
    let i = cy * w + cx;
    assert(0 <= i < w * h) by (nonlinear_arith)
        requires
            0 <= cx < w,
            0 <= cy < h,
            i == cy * w + cx,
    ;
    assert(pix[4 * i] == pix[0]);
    assert(pix[4 * i + 1] == pix[1]);
    assert(pix[4 * i + 2] == pix[2]);
    assert(pix[4 * i + 3] == pix[3]);
}

/// A buffer that is constant along every column: each sample equal to the
/// top sample of its own column. A hard vertical edge is such a buffer.
pub open spec fn spec_column_constant(pix: Seq<u8>, w: int, h: int) -> bool {
    forall|x: int, y: int|
        0 <= x < w && 0 <= y < h ==> #[trigger] pix[4 * (y * w + x)] == pix[4 * x] && pix[4 * (y * w
            + x) + 1] == pix[4 * x + 1] && pix[4 * (y * w + x) + 2] == pix[4 * x + 2] && pix[4 * (y
            * w + x) + 3] == pix[4 * x + 3]
}

/// On a column-constant buffer the clamped sample luminance does not
/// depend on the row.
proof fn lemma_sample_lum_column(pix: Seq<u8>, w: int, h: int, x: int, y: int)
    requires
        1 <= w,
        1 <= h,
        pix.len() == 4 * w * h,
        spec_column_constant(pix, w, h),
    ensures
        spec_sample_lum(pix, w, h, x, y) == spec_sample_lum(pix, w, h, x, 0),
{
    let cx = clamp_coord(x, w);
    let cy = clamp_coord(y, h);
    assert(pix[4 * (cy * w + cx)] == pix[4 * cx]);
    assert(pix[4 * (0 * w + cx)] == pix[4 * cx]);
    assert(4 * (0 * w + cx) == 4 * cx);
}

/// On a column-constant buffer the vertical Sobel response is zero at
/// every cell: its three kernel rows read identical luminance and cancel.
pub proof fn lemma_column_constant_gy_zero(pix: Seq<u8>, w: int, h: int, x: int, y: int)
    requires
        1 <= w,
        1 <= h,
        pix.len() == 4 * w * h,
        spec_column_constant(pix, w, h),
    ensures
        spec_gy(pix, w, h, x, y) == 0,
{
    lemma_sample_lum_column(pix, w, h, x - 1, y - 1);
    lemma_sample_lum_column(pix, w, h, x, y - 1);
    lemma_sample_lum_column(pix, w, h, x + 1, y - 1);
    lemma_sample_lum_column(pix, w, h, x - 1, y + 1);
    lemma_sample_lum_column(pix, w, h, x, y + 1);
    lemma_sample_lum_column(pix, w, h, x + 1, y + 1);
}

/// On a column-constant buffer, every cell at which the edge override
/// fires is classified as the vertical stroke: the gradient there is
/// purely horizontal.
pub proof fn lemma_vertical_edge_stroke(pix: Seq<u8>, w: int, h: int, x: int, y: int)
    requires
        1 <= w,
        1 <= h,
        pix.len() == 4 * w * h,
        spec_column_constant(pix, w, h),
        spec_mag2(pix, w, h, x, y) > edge_threshold_sq(),
    ensures
        spec_direction_glyph(spec_gx(pix, w, h, x, y), spec_gy(pix, w, h, x, y)) == 124,
{
    lemma_column_constant_gy_zero(pix, w, h, x, y);
    let gx = spec_gx(pix, w, h, x, y);
    assert(gx * gx > 14400);
    assert(gx != 0);
    let ax = if gx < 0 { -gx } else { gx };
    assert(985 * 0 < 408 * ax);
}

/// Edge analysis of a buffer of identical pixels reports gradient zero, and
/// so squared magnitude zero, at every cell.
pub proof fn lemma_uniform_zero_gradient(pix: Seq<u8>, w: int, h: int, x: int, y: int)
    requires
        1 <= w,
        1 <= h,
        pix.len() == 4 * w * h,
        spec_uniform(pix, w, h),
    ensures
        spec_gx(pix, w, h, x, y) == 0,
        spec_gy(pix, w, h, x, y) == 0,
        spec_mag2(pix, w, h, x, y) == 0,
{
    lemma_sample_lum_uniform(pix, w, h, x - 1, y - 1);
    lemma_sample_lum_uniform(pix, w, h, x, y - 1);
    lemma_sample_lum_uniform(pix, w, h, x + 1, y - 1);
    lemma_sample_lum_uniform(pix, w, h, x - 1, y);
    lemma_sample_lum_uniform(pix, w, h, x + 1, y);
    lemma_sample_lum_uniform(pix, w, h, x - 1, y + 1);
    lemma_sample_lum_uniform(pix, w, h, x, y + 1);
    lemma_sample_lum_uniform(pix, w, h, x + 1, y + 1);
}

} // verus!
