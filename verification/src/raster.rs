//! The glyph rasterizer: renders a glyph grid into an RGB raster image,
//! one fixed-size cell per glyph, through a loaded font. Cell size comes
//! from integer pixel metrics of the font at the chosen point size; the
//! caller measures the font and hands the metrics in.

use vstd::prelude::*;
use crate::grid::GlyphCell;
use crate::grid::GlyphGrid;

verus! {

#[verifier::external_type_specification]
#[verifier::external_body]
pub struct ExFontArc(ab_glyph::FontArc);

#[verifier::external_type_specification]
#[verifier::external_body]
pub struct ExPxScale(ab_glyph::PxScale);

/// An RGB raster image, produced by the rasterizer. The pixel buffer
/// itself is opaque here; callers reach it through the `img` field.
#[verifier::external_body]
pub struct RasterImage {
    pub img: image::RgbImage,
}

/// Pixel width of a raster image.
pub uninterp spec fn image_width(img: RasterImage) -> u32;

/// Pixel height of a raster image.
pub uninterp spec fn image_height(img: RasterImage) -> u32;

/// The blank `w x h` image that `image::ImageBuffer::new` returns.
pub uninterp spec fn blank_of(w: u32, h: u32) -> RasterImage;

/// The image that `imageproc::drawing::draw_text_mut` leaves behind after
/// drawing one glyph at `(x, y)`: a pure function of the prior canvas and
/// of the call's arguments.
pub uninterp spec fn draw_of(
    img: RasterImage,
    x: i32,
    y: i32,
    scale: ab_glyph::PxScale,
    font: ab_glyph::FontArc,
    glyph: u8,
    red: u8,
    green: u8,
    blue: u8,
) -> RasterImage;

/// Integer pixel metrics of a font at one point scale: the advance width
/// of a representative wide glyph, and the ascent and descent (both as
/// non-negative pixel counts) that together give the line height.
#[derive(Clone, Copy, PartialEq, Eq, Structural, Debug)]
pub struct FontMetrics {
    pub advance_width: u32,
    pub ascent: u32,
    pub descent: u32,
}

/// Errors of rasterization.
#[derive(Clone, Copy, PartialEq, Eq, Structural, Debug)]
pub enum RasterError {
    /// No usable font resource was obtained.
    FontUnavailable,
    /// The output image would not fit the machine's coordinate or address
    /// space.
    ImageTooLarge,
}

/// Height of one glyph cell: ascent plus descent.
pub open spec fn spec_cell_height(m: FontMetrics) -> int {
    m.ascent + m.descent
}

/// Pixel width of the rasterized grid: columns times advance width.
pub open spec fn spec_raster_width(g: Seq<Seq<GlyphCell>>, m: FontMetrics) -> int {
    g[0].len() * m.advance_width
}

/// Pixel height of the rasterized grid: rows times cell height.
pub open spec fn spec_raster_height(g: Seq<Seq<GlyphCell>>, m: FontMetrics) -> int {
    g.len() * spec_cell_height(m)
}

/// Whether the rasterized image fits the machine: drawing coordinates stay
/// within `i32`, and the RGB byte buffer within the address space.
pub open spec fn spec_raster_fits(g: Seq<Seq<GlyphCell>>, m: FontMetrics) -> bool {
    &&& spec_raster_width(g, m) <= i32::MAX
    &&& spec_raster_height(g, m) <= i32::MAX
    &&& 3 * spec_raster_width(g, m) * spec_raster_height(g, m) <= usize::MAX
}

/// The canvas after drawing the first `x` cells of row `y`, left to right,
/// each at `(column * advance_width, y * cell_height)` in its cell's color.
pub open spec fn spec_draw_row(
    img: RasterImage,
    row: Seq<GlyphCell>,
    y: int,
    m: FontMetrics,
    scale: ab_glyph::PxScale,
    font: ab_glyph::FontArc,
    x: int,
) -> RasterImage
    decreases x,
{
    if x <= 0 {
        img
    } else {
        let c = row[x - 1];
        draw_of(
            spec_draw_row(img, row, y, m, scale, font, x - 1),
            ((x - 1) * m.advance_width) as i32,
            (y * spec_cell_height(m)) as i32,
            scale,
            font,
            c.glyph,
            c.red,
            c.green,
            c.blue,
        )
    }
}

/// The canvas after drawing the first `y` rows of the grid completely, in
/// row-major order.
pub open spec fn spec_draw_grid(
    img: RasterImage,
    g: Seq<Seq<GlyphCell>>,
    m: FontMetrics,
    scale: ab_glyph::PxScale,
    font: ab_glyph::FontArc,
    y: int,
) -> RasterImage
    decreases y,
{
    if y <= 0 {
        img
    } else {
        spec_draw_row(
            spec_draw_grid(img, g, m, scale, font, y - 1),
            g[y - 1],
            y - 1,
            m,
            scale,
            font,
            g[y - 1].len() as int,
        )
    }
}

/// Relies on `image::ImageBuffer::new`: a `w x h` image, every pixel zero,
/// a function of the dimensions alone.
#[verifier::external_body]
fn new_rgb_image(w: u32, h: u32) -> (img: RasterImage)
    requires
        3 * w * h <= usize::MAX,
    ensures
        image_width(img) == w,
        image_height(img) == h,
        img == blank_of(w, h),
{
    RasterImage { img: image::ImageBuffer::new(w, h) }
}

/// Relies on `imageproc::drawing::draw_text_mut`: draws the glyph onto the
/// canvas pixel by pixel, a pure function of the canvas and the arguments,
/// leaving the canvas dimensions unchanged.
///
/// Its text layout asserts that the scaled text box is non-negative: a
/// scale that is not a finite non-negative number, or a font whose ascent
/// lies below its descent, makes the call panic. A pixel scale can be
/// neither built nor inspected here (floating point stays outside this
/// library), so that exclusion cannot be a `requires`; callers must hand a
/// scale made from a finite non-negative pixel size, as the front end does.
#[verifier::external_body]
fn draw_glyph(
    img: &mut RasterImage,
    x: i32,
    y: i32,
    scale: ab_glyph::PxScale,
    font: &ab_glyph::FontArc,
    glyph: u8,
    red: u8,
    green: u8,
    blue: u8,
)
    ensures
        image_width(*final(img)) == image_width(*old(img)),
        image_height(*final(img)) == image_height(*old(img)),
        *final(img) == draw_of(*old(img), x, y, scale, *font, glyph, red, green, blue),
{
    let text = (glyph as char).to_string();
    imageproc::drawing::draw_text_mut(
        &mut img.img,
        image::Rgb([red, green, blue]),
        x,
        y,
        scale,
        font,
        &text,
    );
}

/// Pixel dimensions of the image that rasterizing `grid` with `metrics`
/// would produce: `Some((width, height))` exactly when the image fits the
/// machine, `None` otherwise.
pub fn raster_dimensions(grid: &GlyphGrid, metrics: &FontMetrics) -> (d: Option<(u32, u32)>)
    requires
        grid.wf(),
    ensures
        match d {
            Some(wh) => spec_raster_fits(grid@, *metrics) && wh.0 == spec_raster_width(
                grid@,
                *metrics,
            ) && wh.1 == spec_raster_height(grid@, *metrics),
            None => !spec_raster_fits(grid@, *metrics),
        },
{
    let cols = grid.cols();
    let rows = grid.rows();
    let ch64: u64 = metrics.ascent as u64 + metrics.descent as u64;
    proof {
        assert(cols * metrics.advance_width < 0x1_0000_0000_0000_0000_0000_0000) by (
        nonlinear_arith)
            requires
                cols <= 0xffff_ffff_ffff_ffff,
                metrics.advance_width <= 0xffff_ffff,
        ;
        assert(rows * ch64 < 0x4_0000_0000_0000_0000_0000_0000) by (nonlinear_arith)
            requires
                rows <= 0xffff_ffff_ffff_ffff,
                ch64 <= 0x1_ffff_fffe,
        ;
    }
    let w128: u128 = cols as u128 * metrics.advance_width as u128;
    let h128: u128 = rows as u128 * ch64 as u128;
    if w128 > 0x7fff_ffff || h128 > 0x7fff_ffff {
        return None;
    }
    proof {
        assert(3 * w128 * h128 == 3 * (cols * metrics.advance_width) * (rows * ch64)) by (
        nonlinear_arith)
            requires
                w128 == cols * metrics.advance_width,
                h128 == rows * ch64,
        ;
        assert(3 * w128 * h128 <= 3 * 0x7fff_ffff * 0x7fff_ffff) by (nonlinear_arith)
            requires
                w128 <= 0x7fff_ffff,
                h128 <= 0x7fff_ffff,
        ;
    }
    let bytes: u128 = 3 * w128 * h128;
    if bytes > usize::MAX as u128 {
        return None;
    }
    Some((w128 as u32, h128 as u32))
}

/// Rasterize a glyph grid: allocate a blank image of
/// `cols * advance_width` by `rows * (ascent + descent)` pixels and draw
/// every cell's glyph once, in row-major order, at its cell origin, tinted
/// with the cell's color. The result is exactly that sequence of draws on
/// the blank canvas.
///
/// Fails with `FontUnavailable` exactly when no font was obtained, and
/// with `ImageTooLarge` exactly when the output image would not fit the
/// machine; text output does not depend on this function succeeding.
pub fn rasterize(
    grid: &GlyphGrid,
    font: Option<&ab_glyph::FontArc>,
    scale: ab_glyph::PxScale,
    metrics: &FontMetrics,
) -> (r: Result<RasterImage, RasterError>)
    requires
        grid.wf(),
    ensures
        match r {
            Ok(img) => {
                &&& font is Some
                &&& spec_raster_fits(grid@, *metrics)
                &&& image_width(img) == spec_raster_width(grid@, *metrics)
                &&& image_height(img) == spec_raster_height(grid@, *metrics)
                &&& img == spec_draw_grid(
                    blank_of(
                        spec_raster_width(grid@, *metrics) as u32,
                        spec_raster_height(grid@, *metrics) as u32,
                    ),
                    grid@,
                    *metrics,
                    scale,
                    *font.unwrap(),
                    grid@.len() as int,
                )
            },
            Err(e) => match e {
                RasterError::FontUnavailable => font is None,
                RasterError::ImageTooLarge => font is Some && !spec_raster_fits(grid@, *metrics),
            },
        },
{
    let f = match font {
        Some(f) => f,
        None => {
            return Err(RasterError::FontUnavailable);
        },
    };
    let (img_w, img_h) = match raster_dimensions(grid, metrics) {
        Some(wh) => wh,
        None => {
            return Err(RasterError::ImageTooLarge);
        },
    };
    let mut img = new_rgb_image(img_w, img_h);
    let ghost blank = img;
    let cols = grid.cols();
    let rows = grid.rows();
    let cell_w = metrics.advance_width;
    let ch64: u64 = metrics.ascent as u64 + metrics.descent as u64;
    let mut y: usize = 0;
    while y < rows
        invariant
            grid.wf(),
            rows == grid@.len(),
            cols == grid@[0].len(),
            cell_w == metrics.advance_width,
            ch64 == spec_cell_height(*metrics),
            spec_raster_fits(grid@, *metrics),
            image_width(img) == spec_raster_width(grid@, *metrics),
            image_height(img) == spec_raster_height(grid@, *metrics),
            img == spec_draw_grid(blank, grid@, *metrics, scale, *f, y as int),
            y <= rows,
        decreases rows - y,
    {
        let mut x: usize = 0;
        while x < cols
            invariant
                grid.wf(),
                rows == grid@.len(),
                cols == grid@[0].len(),
                cell_w == metrics.advance_width,
                ch64 == spec_cell_height(*metrics),
                spec_raster_fits(grid@, *metrics),
                image_width(img) == spec_raster_width(grid@, *metrics),
                image_height(img) == spec_raster_height(grid@, *metrics),
                img == spec_draw_row(
                    spec_draw_grid(blank, grid@, *metrics, scale, *f, y as int),
                    grid@[y as int],
                    y as int,
                    *metrics,
                    scale,
                    *f,
                    x as int,
                ),
                y < rows,
                x <= cols,
            decreases cols - x,
        {
            proof {
                assert(x * cell_w <= (grid@[0].len() - 1) * metrics.advance_width
                    && (grid@[0].len() - 1) * metrics.advance_width <= spec_raster_width(
                    grid@,
                    *metrics,
                )) by (nonlinear_arith)
                    requires
                        0 <= x < grid@[0].len(),
                        cell_w == metrics.advance_width,
                        0 <= metrics.advance_width,
                ;
                assert(y * ch64 <= (grid@.len() - 1) * spec_cell_height(*metrics)
                    && (grid@.len() - 1) * spec_cell_height(*metrics) <= spec_raster_height(
                    grid@,
                    *metrics,
                )) by (nonlinear_arith)
                    requires
                        0 <= y < grid@.len(),
                        ch64 == spec_cell_height(*metrics),
                        0 <= spec_cell_height(*metrics),
                ;
            }
            let px: i32 = (x as u64 * cell_w as u64) as i32;
            let py: i32 = (y as u64 * ch64) as i32;
            let c = grid.cell(y, x);
            draw_glyph(&mut img, px, py, scale, f, c.glyph, c.red, c.green, c.blue);
            x = x + 1;
        }
        proof {
            assert(grid@[y as int].len() == cols);
        }
        y = y + 1;
    }
    proof {
        assert(img_w == spec_raster_width(grid@, *metrics) as u32);
        assert(img_h == spec_raster_height(grid@, *metrics) as u32);
    }
    Ok(img)
}

} // verus!
