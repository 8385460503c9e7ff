use glyphcast::grid::{GlyphCell, GlyphGrid};
use glyphcast::raster::{rasterize, raster_dimensions, FontMetrics, RasterError};
use glyphcast::text::{parse_text, to_text};

fn cell(glyph: u8) -> GlyphCell {
    GlyphCell { glyph, red: 200, green: 100, blue: 50 }
}

fn small_grid() -> GlyphGrid {
    GlyphGrid {
        cells: vec![
            vec![cell(b'A'), cell(b'B'), cell(b'C')],
            vec![cell(b'D'), cell(b'E'), cell(b'F')],
        ],
    }
}

#[test]
fn raster_dimensions_from_metrics() {
    let grid = small_grid();
    let metrics = FontMetrics { advance_width: 7, ascent: 9, descent: 3 };
    // 3 cols * 7 wide, 2 rows * (9 + 3) tall
    assert_eq!(raster_dimensions(&grid, &metrics), Some((21, 24)));
}

#[test]
fn raster_dimensions_reject_oversize() {
    let grid = small_grid();
    let metrics = FontMetrics { advance_width: u32::MAX, ascent: 1, descent: 0 };
    assert_eq!(raster_dimensions(&grid, &metrics), None);
}

#[test]
fn rasterize_without_font_fails() {
    let grid = small_grid();
    let metrics = FontMetrics { advance_width: 7, ascent: 9, descent: 3 };
    let scale = ab_glyph::PxScale::from(12.0f32);
    let r = rasterize(&grid, None, scale, &metrics);
    assert!(matches!(r, Err(RasterError::FontUnavailable)));
}

#[test]
fn handmade_grid_serializes_exactly() {
    let grid = small_grid();
    let text = to_text(&grid);
    assert_eq!(text, b"ABC\nDEF\n".to_vec());
    let lines = parse_text(&text);
    assert_eq!(lines, vec![b"ABC".to_vec(), b"DEF".to_vec()]);
}

#[test]
fn parse_text_edges() {
    assert_eq!(parse_text(&Vec::new()), Vec::<Vec<u8>>::new());
    assert_eq!(parse_text(&b"x".to_vec()), vec![b"x".to_vec()]);
    assert_eq!(parse_text(&b"\n".to_vec()), vec![Vec::<u8>::new()]);
    assert_eq!(parse_text(&b"ab\n\ncd".to_vec()), vec![
        b"ab".to_vec(),
        Vec::<u8>::new(),
        b"cd".to_vec()
    ]);
}
