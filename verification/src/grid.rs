//! The glyph grid data model and the aspect-preserving row count of the
//! grid sampler.

use vstd::prelude::*;

verus! {

/// Grid row count for a requested column count over a `w x h` source:
/// `max(1, round(cols * (h/w) * FONT_RATIO))` with `FONT_RATIO = 1/2`, the
/// usual height:width compensation for monospace glyphs. Rounding is
/// round-half-up, written exactly over the integers as
/// `(cols*h + w) / (2*w)`.
pub open spec fn spec_grid_rows(cols: int, w: int, h: int) -> int {
    let r = (cols * h + w) / (2 * w);
    if r < 1 {
        1
    } else {
        r
    }
}

/// Row count of the glyph grid for a `w x h` source at `cols` columns.
pub fn grid_rows(cols: u32, w: u32, h: u32) -> (r: u64)
    requires
        w >= 1,
    ensures
        r == spec_grid_rows(cols as int, w as int, h as int),
        r >= 1,
{
    proof {
        assert(cols * h + w <= u64::MAX) by (nonlinear_arith)
            requires
                cols <= 0xffff_ffff,
                h <= 0xffff_ffff,
                w <= 0xffff_ffff,
        ;
    }
    let num: u64 = cols as u64 * h as u64;
    let q: u64 = (num + w as u64) / (2 * w as u64);
    if q < 1 {
        1
    } else {
        q
    }
}

/// One cell of a glyph grid: a glyph from the palette (or a stroke glyph
/// from the edge override) and the RGB color of its source sample.
#[derive(Clone, Copy, PartialEq, Eq, Structural, Debug)]
pub struct GlyphCell {
    pub glyph: u8,
    pub red: u8,
    pub green: u8,
    pub blue: u8,
}

/// A rectangular grid of glyph cells: at least one row, every row of the
/// same positive length.
pub struct GlyphGrid {
    pub cells: Vec<Vec<GlyphCell>>,
}

impl View for GlyphGrid {
    type V = Seq<Seq<GlyphCell>>;

    open spec fn view(&self) -> Seq<Seq<GlyphCell>> {
        Seq::new(self.cells@.len(), |y: int| self.cells@[y]@)
    }
}

/// A sequence of rows is rectangular: nonempty, every row of the same
/// positive length.
pub open spec fn rectangular(g: Seq<Seq<GlyphCell>>) -> bool {
    g.len() >= 1 && g[0].len() >= 1 && forall|y: int|
        0 <= y < g.len() ==> (#[trigger] g[y]).len() == g[0].len()
}

impl GlyphGrid {
    /// The grid is rectangular.
    pub open spec fn wf(self) -> bool {
        rectangular(self@)
    }

    /// Number of rows.
    pub fn rows(&self) -> (n: usize)
        ensures
            n == self@.len(),
    {
        self.cells.len()
    }

    /// Number of columns.
    pub fn cols(&self) -> (n: usize)
        requires
            self.wf(),
        ensures
            n == self@[0].len(),
    {
        self.cells[0].len()
    }

    /// The cell at row `y`, column `x`.
    pub fn cell(&self, y: usize, x: usize) -> (c: GlyphCell)
        requires
            self.wf(),
            y < self@.len(),
            x < self@[0].len(),
        ensures
            c == self@[y as int][x as int],
    {
        proof {
            assert(self@[y as int] == self.cells@[y as int]@);
        }
        self.cells[y][x]
    }
}

} // verus!
