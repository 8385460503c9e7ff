//! Plain-text serialization of a glyph grid, one row per line, and the
//! reader that splits such text back into glyph rows. Color is not part of
//! the text form: re-reading reproduces the glyphs alone.

use vstd::prelude::*;
use crate::grid::GlyphCell;
use crate::grid::GlyphGrid;

verus! {

/// The text of one row: its glyphs followed by a newline.
pub open spec fn spec_row_text(row: Seq<GlyphCell>) -> Seq<u8> {
    row.map_values(|c: GlyphCell| c.glyph).push(10u8)
}

/// The text of a grid: the text of every row, in order.
pub open spec fn spec_grid_text(g: Seq<Seq<GlyphCell>>) -> Seq<u8>
    decreases g.len(),
{
    if g.len() == 0 {
        Seq::empty()
    } else {
        spec_row_text(g[0]) + spec_grid_text(g.skip(1))
    }
}

/// Index of the first newline of `t`, or `t.len()` if there is none.
pub open spec fn spec_find_nl(t: Seq<u8>) -> nat
    decreases t.len(),
{
    if t.len() == 0 {
        0
    } else if t[0] == 10 {
        0
    } else {
        1 + spec_find_nl(t.skip(1))
    }
}

/// The lines of `t`: segments separated by newlines, a trailing
/// unterminated nonempty segment counting as a line of its own.
pub open spec fn spec_parse_lines(t: Seq<u8>) -> Seq<Seq<u8>>
    decreases t.len(),
    via spec_parse_lines_dec
{
    if t.len() == 0 {
        Seq::empty()
    } else {
        let i = spec_find_nl(t) as int;
        if i == t.len() {
            seq![t]
        } else {
            seq![t.take(i)] + spec_parse_lines(t.skip(i + 1))
        }
    }
}

proof fn lemma_find_nl_le(t: Seq<u8>)
    ensures
        spec_find_nl(t) <= t.len(),
    decreases t.len(),
{
    if t.len() > 0 && t[0] != 10 {
        lemma_find_nl_le(t.skip(1));
    }
}

#[via_fn]
proof fn spec_parse_lines_dec(t: Seq<u8>) {
    lemma_find_nl_le(t);
}

/// The glyphs of a grid, row by row, without the colors.
pub open spec fn spec_glyphs(g: Seq<Seq<GlyphCell>>) -> Seq<Seq<u8>> {
    g.map_values(|row: Seq<GlyphCell>| row.map_values(|c: GlyphCell| c.glyph))
}

/// No glyph of the grid is a newline byte.
pub open spec fn no_newline_glyphs(g: Seq<Seq<GlyphCell>>) -> bool {
    forall|y: int, x: int|
        0 <= y < g.len() && 0 <= x < g[y].len() ==> (#[trigger] g[y][x]).glyph != 10
}

proof fn lemma_find_nl_no_nl(s: Seq<u8>)
    requires
        forall|i: int| 0 <= i < s.len() ==> s[i] != 10,
    ensures
        spec_find_nl(s) == s.len(),
    decreases s.len(),
{
    if s.len() > 0 {
        lemma_find_nl_no_nl(s.skip(1));
    }
}

proof fn lemma_find_nl_terminated(s: Seq<u8>, r: Seq<u8>)
    requires
        forall|i: int| 0 <= i < s.len() ==> s[i] != 10,
    ensures
        spec_find_nl(s.push(10u8) + r) == s.len(),
    decreases s.len(),
{
    let t = s.push(10u8) + r;
    if s.len() == 0 {
        assert(t[0] == 10);
    } else {
        assert(t[0] == s[0]);
        lemma_find_nl_terminated(s.skip(1), r);
        assert(t.skip(1) =~= s.skip(1).push(10u8) + r);
    }
}

/// Every glyph of a transcoded grid comes from the palette or from the
/// four stroke glyphs, none of which is a newline: its text form can be
/// re-read row for row.
pub proof fn lemma_transcode_printable(src: Seq<u8>, w: int, h: int, cols: int, edge: bool)
    ensures
        no_newline_glyphs(crate::transcode::spec_transcode(src, w, h, cols, edge)),
{
    let g = crate::transcode::spec_transcode(src, w, h, cols, edge);
    let rows = crate::grid::spec_grid_rows(cols, w, h);
    let pix = crate::transcode::spec_resample(src, w, h, cols, rows);
    assert forall|y: int, x: int|
        0 <= y < g.len() && 0 <= x < g[y].len() implies (#[trigger] g[y][x]).glyph != 10 by {
        assert(g[y] == crate::transcode::spec_row(pix, cols, rows, y, edge));
        assert(g[y][x] == crate::transcode::spec_cell(pix, cols, rows, x, y, edge));
    }
}

/// Parsing the serialized text of a grid whose glyphs hold no newline
/// reproduces exactly the grid's glyph rows.
pub proof fn lemma_text_round_trip(g: Seq<Seq<GlyphCell>>)
    requires
        no_newline_glyphs(g),
    ensures
        spec_parse_lines(spec_grid_text(g)) == spec_glyphs(g),
    decreases g.len(),
{
    if g.len() == 0 {
        assert(spec_parse_lines(spec_grid_text(g)) =~~= spec_glyphs(g));
    } else {
        let row = g[0].map_values(|c: GlyphCell| c.glyph);
        let rest = spec_grid_text(g.skip(1));
        let t = spec_grid_text(g);
        assert(t =~= row.push(10u8) + rest);
        assert(forall|i: int| 0 <= i < row.len() ==> row[i] != 10);
        lemma_find_nl_terminated(row, rest);
        assert(t.len() == row.len() + 1 + rest.len());
        assert(t.take(row.len() as int) =~= row);
        assert(t.skip(row.len() as int + 1) =~= rest);
        assert(g.skip(1).len() == g.len() - 1);
        lemma_text_round_trip(g.skip(1));
        assert(spec_parse_lines(t) =~~= spec_glyphs(g));
    }
}

proof fn lemma_grid_text_take(g: Seq<Seq<GlyphCell>>, y: int)
    requires
        0 <= y < g.len(),
    ensures
        spec_grid_text(g.take(y + 1)) == spec_grid_text(g.take(y)) + spec_row_text(g[y]),
    decreases y,
{
    if y == 0 {
        assert(g.take(1).skip(1) =~= Seq::<Seq<GlyphCell>>::empty());
        assert(g.take(0) =~= Seq::<Seq<GlyphCell>>::empty());
        assert(spec_grid_text(g.take(1)) =~= spec_grid_text(g.take(0)) + spec_row_text(g[0]));
    } else {
        let s = g.skip(1);
        lemma_grid_text_take(s, y - 1);
        assert(g.take(y + 1).skip(1) =~= s.take(y));
        assert(g.take(y).skip(1) =~= s.take(y - 1));
        assert(g.take(y + 1)[0] == g[0]);
        assert(g.take(y)[0] == g[0]);
        assert(spec_grid_text(g.take(y + 1)) == spec_row_text(g[0]) + spec_grid_text(s.take(y)));
        assert(spec_grid_text(g.take(y)) == spec_row_text(g[0]) + spec_grid_text(s.take(y - 1)));
        assert(s[y - 1] == g[y]);
        assert(spec_row_text(g[0]) + (spec_grid_text(s.take(y - 1)) + spec_row_text(g[y]))
            =~= (spec_row_text(g[0]) + spec_grid_text(s.take(y - 1))) + spec_row_text(g[y]));
    }
}

/// Serialize a grid: one line per row, each row's glyphs followed by a
/// newline, no other padding.
pub fn to_text(grid: &GlyphGrid) -> (out: Vec<u8>)
    ensures
        out@ == spec_grid_text(grid@),
{
    let mut out: Vec<u8> = Vec::new();
    let rows = grid.cells.len();
    let mut y: usize = 0;
    proof {
        assert(grid@.take(0) =~= Seq::<Seq<GlyphCell>>::empty());
    }
    while y < rows
        invariant
            rows == grid@.len(),
            y <= rows,
            out@ == spec_grid_text(grid@.take(y as int)),
        decreases rows - y,
    {
        let row = &grid.cells[y];
        let n = row.len();
        proof {
            assert(grid@[y as int] == grid.cells@[y as int]@);
            assert(grid@[y as int].take(0).map_values(|c: GlyphCell| c.glyph) =~= Seq::<
                u8,
            >::empty());
        }
        let mut x: usize = 0;
        while x < n
            invariant
                rows == grid@.len(),
                y < rows,
                n == grid@[y as int].len(),
                row == grid.cells@[y as int],
                grid@[y as int] == grid.cells@[y as int]@,
                x <= n,
                out@ == spec_grid_text(grid@.take(y as int)) + grid@[y as int].take(
                    x as int,
                ).map_values(|c: GlyphCell| c.glyph),
            decreases n - x,
        {
            out.push(row[x].glyph);
            proof {
                let r = grid@[y as int];
                assert(r.take(x + 1).map_values(|c: GlyphCell| c.glyph) =~= r.take(
                    x as int,
                ).map_values(|c: GlyphCell| c.glyph).push(r[x as int].glyph));
            }
            x = x + 1;
        }
        out.push(10);
        proof {
            let r = grid@[y as int];
            assert(r.take(n as int) =~= r);
            lemma_grid_text_take(grid@, y as int);
        }
        y = y + 1;
    }
    proof {
        assert(grid@.take(rows as int) =~= grid@);
    }
    out
}

/// Split text into its lines: segments separated by newlines, a trailing
/// unterminated nonempty segment counting as a line.
pub fn parse_text(text: &Vec<u8>) -> (lines: Vec<Vec<u8>>)
    ensures
        lines@.len() == spec_parse_lines(text@).len(),
        forall|i: int|
            0 <= i < lines@.len() ==> (#[trigger] lines@[i])@ == spec_parse_lines(text@)[i],
{
    let n = text.len();
    let mut lines: Vec<Vec<u8>> = Vec::new();
    let mut cur: Vec<u8> = Vec::new();
    let mut k: usize = 0;
    let ghost target = spec_parse_lines(text@);
    proof {
        assert(cur@ + text@.skip(0) =~= text@);
    }
    while k < n
        invariant
            n == text@.len(),
            k <= n,
            forall|i: int| 0 <= i < cur@.len() ==> cur@[i] != 10,
            target == spec_parse_lines(text@),
            spec_parse_lines(cur@ + text@.skip(k as int)) == target.skip(lines@.len() as int),
            lines@.len() <= target.len(),
            forall|i: int|
                0 <= i < lines@.len() ==> (#[trigger] lines@[i])@ == target[i],
        decreases n - k,
    {
        let c = text[k];
        if c == 10 {
            proof {
                let rest = text@.skip(k + 1);
                let t = cur@ + text@.skip(k as int);
                assert(t =~= cur@.push(10u8) + rest);
                lemma_find_nl_terminated(cur@, rest);
                assert(t.take(cur@.len() as int) =~= cur@);
                assert(t.skip(cur@.len() as int + 1) =~= rest);
                assert(Seq::<u8>::empty() + rest =~= rest);
                let tl = target.skip(lines@.len() as int);
                assert(tl[0] == cur@);
                assert(tl.skip(1) =~= target.skip(lines@.len() as int + 1));
            }
            lines.push(cur);
            cur = Vec::new();
        } else {
            proof {
                let t = cur@ + text@.skip(k as int);
                assert(t =~= cur@.push(c) + text@.skip(k + 1));
            }
            cur.push(c);
        }
        k = k + 1;
    }
    proof {
        assert(text@.skip(n as int) =~= Seq::<u8>::empty());
        assert(cur@ + text@.skip(n as int) =~= cur@);
    }
    if cur.len() > 0 {
        proof {
            lemma_find_nl_no_nl(cur@);
            let tl = target.skip(lines@.len() as int);
            assert(tl[0] == cur@);
            assert(tl.len() == 1);
        }
        lines.push(cur);
    } else {
        proof {
            assert(spec_parse_lines(cur@).len() == 0);
            assert(target.skip(lines@.len() as int).len() == 0);
        }
    }
    lines
}

} // verus!
