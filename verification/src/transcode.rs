//! The transcoding pipeline: resample the source to the target grid size,
//! then map every cell, row by row, through the luminance model, the edge
//! analyzer and the glyph mapper.

use vstd::prelude::*;
use crate::pixel::PixelBuffer;
use crate::pixel::spec_luminance;
use crate::pixel::luminance;
use crate::glyph::spec_luminance_glyph;
use crate::glyph::spec_glyph_index;
use crate::glyph::palette_glyph;
use crate::glyph::build_lut;
use crate::glyph::lemma_glyph_index_monotone;
use crate::edge::spec_gx;
use crate::edge::spec_gy;
use crate::edge::spec_mag2;
use crate::edge::spec_direction_glyph;
use crate::edge::edge_threshold_sq;
use crate::edge::sobel_at;
use crate::edge::gradient_mag2;
use crate::edge::direction_glyph;
use crate::grid::GlyphCell;
use crate::grid::GlyphGrid;
use crate::grid::spec_grid_rows;
use crate::grid::grid_rows;
use rayon::iter::IntoParallelIterator;
use rayon::iter::ParallelIterator;

verus! {

/// The RGBA bytes that `image::imageops::resize` with the `Triangle`
/// (bilinear) filter produces for a `w x h` source resized to `nw x nh`:
/// a pure function of the source bytes and the four dimensions.
pub uninterp spec fn spec_resample(src: Seq<u8>, w: int, h: int, nw: int, nh: int) -> Seq<u8>;

/// Relies on `image::imageops::resize`: resampling a `w x h` RGBA buffer to
/// exactly `nw x nh` with the `Triangle` filter, a deterministic function of
/// the source bytes and the dimensions alone. The resize goes through an
/// intermediate buffer of the source width by the target height, so that
/// sample count must fit the machine as well as the output's.
#[verifier::external_body]
fn resample_rgba(src: &Vec<u8>, w: u32, h: u32, nw: u32, nh: u32) -> (r: Vec<u8>)
    requires
        w >= 1,
        h >= 1,
        nw >= 1,
        nh >= 1,
        src@.len() == 4 * w * h,
        4 * nw * nh <= usize::MAX,
        4 * w * nh <= usize::MAX,
    ensures
        r@.len() == 4 * nw * nh,
        r@ == spec_resample(src@, w as int, h as int, nw as int, nh as int),
{
    let img: image::RgbaImage = image::ImageBuffer::from_raw(w, h, src.clone()).unwrap();
    let out = image::imageops::resize(&img, nw, nh, image::imageops::FilterType::Triangle);
    out.into_raw()
}

/// Options of one transcoding run.
#[derive(Clone, Copy, PartialEq, Eq, Structural, Debug)]
pub struct TranscodeOptions {
    pub edge_detection: bool,
}

/// Errors of the transcoding pipeline.
#[derive(Clone, Copy, PartialEq, Eq, Structural, Debug)]
pub enum TranscodeError {
    /// The source has zero width or height, zero columns were requested, or
    /// the requested grid does not fit the machine's address space.
    InvalidDimensions,
}

/// The cell at `(x, y)` of a transcoded `w x h` buffer: the source color
/// with the glyph chosen by the edge override (when enabled and the squared
/// Sobel magnitude exceeds the threshold) or else by the luminance policy.
pub open spec fn spec_cell(pix: Seq<u8>, w: int, h: int, x: int, y: int, edge: bool) -> GlyphCell {
    let i = 4 * (y * w + x);
    let lum = spec_luminance(pix[i], pix[i + 1], pix[i + 2], pix[i + 3]);
    let glyph = if edge && spec_mag2(pix, w, h, x, y) > edge_threshold_sq() {
        spec_direction_glyph(spec_gx(pix, w, h, x, y), spec_gy(pix, w, h, x, y))
    } else {
        spec_luminance_glyph(lum)
    };
    GlyphCell { glyph, red: pix[i], green: pix[i + 1], blue: pix[i + 2] }
}

/// Row `y` of a transcoded `w x h` buffer.
pub open spec fn spec_row(pix: Seq<u8>, w: int, h: int, y: int, edge: bool) -> Seq<GlyphCell> {
    Seq::new(w as nat, |x: int| spec_cell(pix, w, h, x, y, edge))
}

/// All rows of a transcoded `w x h` buffer.
pub open spec fn spec_rows(pix: Seq<u8>, w: int, h: int, edge: bool) -> Seq<Seq<GlyphCell>> {
    Seq::new(h as nat, |y: int| spec_row(pix, w, h, y, edge))
}

/// The precomputed 256-entry luminance-to-palette-index table.
pub open spec fn lut_wf(lut: Seq<u8>) -> bool {
    lut.len() == 256 && forall|v: int| 0 <= v < 256 ==> lut[v] == spec_glyph_index(v as u8)
}

/// Transcode one row: every cell of row `y`, left to right, looking
/// luminance glyphs up in the precomputed table.
pub fn transcode_row(pix: &Vec<u8>, w: usize, h: usize, y: usize, edge: bool, lut: &Vec<u8>) -> (row:
    Vec<GlyphCell>)
    requires
        1 <= w,
        1 <= h,
        y < h,
        pix@.len() == 4 * w * h,
        lut_wf(lut@),
    ensures
        row@ == spec_row(pix@, w as int, h as int, y as int, edge),
{
    let n: usize = pix.len();
    let mut row: Vec<GlyphCell> = Vec::new();
    let mut x: usize = 0;
    while x < w
        invariant
            1 <= w,
            1 <= h,
            y < h,
            x <= w,
            pix@.len() == 4 * w * h,
            4 * w * h <= usize::MAX,
            lut_wf(lut@),
            row@.len() == x,
            forall|j: int|
                0 <= j < x ==> row@[j] == spec_cell(pix@, w as int, h as int, j, y as int, edge),
        decreases w - x,
    {
        proof {
            assert(4 * (y * w + x) + 3 < 4 * w * h && 0 <= y * w <= 4 * w * h) by (
            nonlinear_arith)
                requires
                    0 <= x < w,
                    0 <= y < h,
            ;
        }
        let i: usize = 4 * (y * w + x);
        let red = pix[i];
        let green = pix[i + 1];
        let blue = pix[i + 2];
        let alpha = pix[i + 3];
        let lum = luminance(red, green, blue, alpha);
        proof {
            lemma_glyph_index_monotone(lum, lum);
        }
        let pal_idx = lut[lum as usize];
        let lum_glyph = palette_glyph(pal_idx as usize);
        let glyph: u8 = if edge {
            let (gx, gy) = sobel_at(pix, w, h, x, y);
            let m = gradient_mag2(gx, gy);
            if m > 14400 {
                direction_glyph(gx, gy)
            } else {
                lum_glyph
            }
        } else {
            lum_glyph
        };
        row.push(GlyphCell { glyph, red, green, blue });
        x = x + 1;
    }
    proof {
        assert(row@ =~= spec_row(pix@, w as int, h as int, y as int, edge));
    }
    row
}

/// Relies on `rayon`'s `into_par_iter().map(..).collect()` over the row
/// range `0..h`: the collected vector has one entry per row, in index
/// order, each the result of the mapped call of `transcode_row` on its own
/// row index.
#[verifier::external_body]
fn par_transcode_rows(
    pix: &Vec<u8>,
    w: usize,
    h: usize,
    edge: bool,
    lut: &Vec<u8>,
) -> (rows: Vec<Vec<GlyphCell>>)
    requires
        1 <= w,
        1 <= h,
        pix@.len() == 4 * w * h,
        lut_wf(lut@),
    ensures
        rows@.len() == h,
        forall|y: int|
            0 <= y < h ==> (#[trigger] rows@[y])@ == spec_row(
                pix@,
                w as int,
                h as int,
                y,
                edge,
            ),
{
    (0..h).into_par_iter().map(|y| transcode_row(pix, w, h, y, edge, lut)).collect()
}

/// Whether a transcoding request is accepted: a nonempty source, at least
/// one column, and a target grid whose dimensions and byte count fit the
/// machine.
pub open spec fn spec_transcode_valid(w: int, h: int, cols: int) -> bool {
    let rows = spec_grid_rows(cols, w, h);
    &&& w >= 1
    &&& h >= 1
    &&& cols >= 1
    &&& rows <= u32::MAX
    &&& 4 * cols * rows <= usize::MAX
    &&& 4 * w * rows <= usize::MAX
}

/// The grid that transcoding a `w x h` source at `cols` columns produces:
/// the resampled buffer of `spec_grid_rows` rows, transcoded cell by cell.
pub open spec fn spec_transcode(src: Seq<u8>, w: int, h: int, cols: int, edge: bool) -> Seq<
    Seq<GlyphCell>,
> {
    let rows = spec_grid_rows(cols, w, h);
    spec_rows(spec_resample(src, w, h, cols, rows), cols, rows, edge)
}

/// Transcoding is deterministic: two grids produced from the same source
/// bytes, dimensions and options are the same grid, and serialize to the
/// same text.
pub proof fn lemma_transcode_deterministic(
    g1: GlyphGrid,
    g2: GlyphGrid,
    src: Seq<u8>,
    w: int,
    h: int,
    cols: int,
    edge: bool,
)
    requires
        g1@ == spec_transcode(src, w, h, cols, edge),
        g2@ == spec_transcode(src, w, h, cols, edge),
    ensures
        g1@ == g2@,
        crate::text::spec_grid_text(g1@) == crate::text::spec_grid_text(g2@),
{
}

/// Transcode a pixel buffer into a glyph grid of `cols` columns.
///
/// The result is a function of the buffer bytes, the dimensions and the
/// options alone: two runs on the same input return the same grid. Fails
/// with `InvalidDimensions` exactly when the source is zero-sized, no
/// columns are requested, or the target grid would not fit the machine.
pub fn transcode(src: &PixelBuffer, cols: u32, opts: TranscodeOptions) -> (res: Result<
    GlyphGrid,
    TranscodeError,
>)
    requires
        src.wf(),
    ensures
        match res {
            Ok(grid) => spec_transcode_valid(src.width as int, src.height as int, cols as int)
                && grid.wf() && grid@ == spec_transcode(
                src.data@,
                src.width as int,
                src.height as int,
                cols as int,
                opts.edge_detection,
            ) && grid@.len() == spec_grid_rows(cols as int, src.width as int, src.height as int)
                && grid@[0].len() == cols,
            Err(e) => e == TranscodeError::InvalidDimensions && !spec_transcode_valid(
                src.width as int,
                src.height as int,
                cols as int,
            ),
        },
{
    if src.width == 0 || src.height == 0 || cols == 0 {
        return Err(TranscodeError::InvalidDimensions);
    }
    let rows64: u64 = grid_rows(cols, src.width, src.height);
    if rows64 > 0xffff_ffff {
        return Err(TranscodeError::InvalidDimensions);
    }
    let rows: u32 = rows64 as u32;
    proof {
        assert(4 * (cols as int) * (rows as int) <= 0x4_0000_0000_0000_0000) by (nonlinear_arith)
            requires
                rows <= 0xffff_ffff,
                cols <= 0xffff_ffff,
        ;
    }
    let total: u128 = 4 * (cols as u128) * (rows as u128);
    proof {
        assert(total == 4 * cols * rows64) by (nonlinear_arith)
            requires
                total == 4 * (cols as u128) * (rows as u128),
                rows == rows64,
                rows64 <= 0xffff_ffff,
                cols <= 0xffff_ffff,
        ;
    }
    if total > usize::MAX as u128 {
        return Err(TranscodeError::InvalidDimensions);
    }
    proof {
        assert(4 * (src.width as int) * (rows as int) <= 0x4_0000_0000_0000_0000) by (
        nonlinear_arith)
            requires
                src.width <= 0xffff_ffff,
                rows <= 0xffff_ffff,
        ;
    }
    let mid: u128 = 4 * (src.width as u128) * (rows as u128);
    proof {
        assert(mid == 4 * src.width * rows64) by (nonlinear_arith)
            requires
                mid == 4 * (src.width as u128) * (rows as u128),
                rows == rows64,
                rows64 <= 0xffff_ffff,
                src.width <= 0xffff_ffff,
        ;
    }
    if mid > usize::MAX as u128 {
        return Err(TranscodeError::InvalidDimensions);
    }
    let lut = build_lut();
    let pix = resample_rgba(&src.data, src.width, src.height, cols, rows);
    let cells = par_transcode_rows(&pix, cols as usize, rows as usize, opts.edge_detection, &lut);
    let grid = GlyphGrid { cells };
    proof {
        let w = src.width as int;
        let h = src.height as int;
        let r = spec_grid_rows(cols as int, w, h);
        assert(grid@ =~= spec_rows(pix@, cols as int, r, opts.edge_detection)) by {
            assert(forall|y: int|
                0 <= y < r ==> grid@[y] == (#[trigger] grid.cells@[y])@);
        }
        assert(grid@[0].len() == cols);
    }
    Ok(grid)
}

} // verus!
