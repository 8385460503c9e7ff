use glyphcast::edge::{direction_glyph, gradient_mag2, sobel_at};
use glyphcast::glyph::{build_lut, glyph_index, luminance_glyph, palette_glyph};
use glyphcast::grid::grid_rows;
use glyphcast::pixel::{luminance, PixelBuffer};
use glyphcast::text::{parse_text, to_text};
use glyphcast::transcode::{transcode, TranscodeError, TranscodeOptions};

fn solid_buffer(r: u8, g: u8, b: u8, a: u8, w: u32, h: u32) -> PixelBuffer {
    let mut data = Vec::new();
    for _ in 0..(w * h) {
        data.push(r);
        data.push(g);
        data.push(b);
        data.push(a);
    }
    PixelBuffer::new(data, w, h).unwrap()
}

#[test]
fn transparent_pixels_are_darkest() {
    assert_eq!(luminance(10, 200, 30, 0), 0);
    assert_eq!(luminance(255, 255, 255, 0), 0);
    assert_eq!(luminance_glyph(0), palette_glyph(0));
    assert_eq!(luminance_glyph(0), b' ');
}

#[test]
fn luminance_weighted_values() {
    assert_eq!(luminance(255, 255, 255, 255), 255);
    assert_eq!(luminance(0, 0, 0, 255), 0);
    // (54*100 + 183*150 + 19*200) / 256 = 36650 / 256 = 143
    assert_eq!(luminance(100, 150, 200, 1), 143);
    // (54*255) / 256 = 13770 / 256 = 53
    assert_eq!(luminance(255, 0, 0, 255), 53);
}

#[test]
fn glyph_index_range_and_monotone() {
    assert_eq!(glyph_index(0), 0);
    assert_eq!(glyph_index(255), 15);
    assert_eq!(glyph_index(127), 7);
    let mut prev = 0;
    for v in 0..=255u8 {
        let i = glyph_index(v);
        assert!(i <= 15);
        assert!(i >= prev);
        prev = i;
    }
}

#[test]
fn lut_matches_glyph_index() {
    let lut = build_lut();
    assert_eq!(lut.len(), 256);
    for v in 0..=255u8 {
        assert_eq!(lut[v as usize] as usize, glyph_index(v));
    }
}

#[test]
fn grid_rows_rounding() {
    // round(80 * (90/160) * 0.5) = round(22.5) = 23, round-half-up
    assert_eq!(grid_rows(80, 160, 90), 23);
    // a wide flat source still gets one row
    assert_eq!(grid_rows(10, 1000, 1), 1);
    assert_eq!(grid_rows(100, 160, 90), 28);
}

#[test]
fn uniform_buffer_has_no_edges() {
    let w = 6usize;
    let h = 5usize;
    let buf = solid_buffer(90, 120, 40, 255, w as u32, h as u32);
    for y in 0..h {
        for x in 0..w {
            let (gx, gy) = sobel_at(&buf.data, w, h, x, y);
            assert_eq!((gx, gy), (0, 0));
            assert_eq!(gradient_mag2(gx, gy), 0);
        }
    }
}

#[test]
fn vertical_edge_classifies_as_bar() {
    // left half black, right half white, 8x8
    let w = 8usize;
    let h = 8usize;
    let mut data = Vec::new();
    for _y in 0..h {
        for x in 0..w {
            let v = if x < 4 { 0u8 } else { 255u8 };
            data.extend_from_slice(&[v, v, v, 255]);
        }
    }
    let (gx, gy) = sobel_at(&data, w, h, 3, 4);
    assert_eq!(gy, 0);
    assert!(gradient_mag2(gx, gy) > 14400);
    assert_eq!(direction_glyph(gx, gy), b'|');
    let (gx, gy) = sobel_at(&data, w, h, 4, 4);
    assert_eq!(direction_glyph(gx, gy), b'|');
}

#[test]
fn horizontal_edge_classifies_as_dash() {
    // top half black, bottom half white, 8x8
    let w = 8usize;
    let h = 8usize;
    let mut data = Vec::new();
    for y in 0..h {
        for _x in 0..w {
            let v = if y < 4 { 0u8 } else { 255u8 };
            data.extend_from_slice(&[v, v, v, 255]);
        }
    }
    let (gx, gy) = sobel_at(&data, w, h, 4, 3);
    assert_eq!(gx, 0);
    assert!(gradient_mag2(gx, gy) > 14400);
    assert_eq!(direction_glyph(gx, gy), b'-');
}

#[test]
fn transcode_uniform_red() {
    // a solid red 2x2 source, upscaled onto an 8-column grid
    let buf = solid_buffer(255, 0, 0, 255, 2, 2);
    let opts = TranscodeOptions { edge_detection: false };
    let grid = transcode(&buf, 8, opts).unwrap();
    assert_eq!(grid.rows(), 4);
    assert_eq!(grid.cols(), 8);
    // luminance 53 -> index 3 -> '-'
    for y in 0..4 {
        for x in 0..8 {
            let c = grid.cell(y, x);
            assert_eq!(c.glyph, b'-');
            assert_eq!((c.red, c.green, c.blue), (255, 0, 0));
        }
    }
}

#[test]
fn transcode_is_deterministic() {
    let mut data = Vec::new();
    for i in 0..(16 * 16) {
        let v = (i * 7 % 256) as u8;
        data.extend_from_slice(&[v, v / 2, 255 - v, 255]);
    }
    let buf = PixelBuffer::new(data, 16, 16).unwrap();
    let opts = TranscodeOptions { edge_detection: true };
    let g1 = transcode(&buf, 12, opts).unwrap();
    let g2 = transcode(&buf, 12, opts).unwrap();
    assert_eq!(g1.rows(), g2.rows());
    assert_eq!(g1.cols(), g2.cols());
    for y in 0..g1.rows() {
        for x in 0..g1.cols() {
            assert_eq!(g1.cell(y, x), g2.cell(y, x));
        }
    }
    assert_eq!(to_text(&g1), to_text(&g2));
}

#[test]
fn transcode_rejects_empty_source() {
    let empty_w = PixelBuffer::new(Vec::new(), 0, 5).unwrap();
    let opts = TranscodeOptions { edge_detection: false };
    assert!(matches!(transcode(&empty_w, 10, opts), Err(TranscodeError::InvalidDimensions)));
    let empty_h = PixelBuffer::new(Vec::new(), 5, 0).unwrap();
    assert!(matches!(transcode(&empty_h, 10, opts), Err(TranscodeError::InvalidDimensions)));
    let ok = solid_buffer(1, 2, 3, 255, 2, 2);
    assert!(matches!(transcode(&ok, 0, opts), Err(TranscodeError::InvalidDimensions)));
}

#[test]
fn pixel_buffer_checks_length() {
    assert!(PixelBuffer::new(vec![0u8; 16], 2, 2).is_some());
    assert!(PixelBuffer::new(vec![0u8; 15], 2, 2).is_none());
    assert!(PixelBuffer::new(vec![0u8; 17], 2, 2).is_none());
}

#[test]
fn serialized_grid_round_trips() {
    let buf = solid_buffer(200, 180, 90, 255, 4, 4);
    let opts = TranscodeOptions { edge_detection: false };
    let grid = transcode(&buf, 6, opts).unwrap();
    let text = to_text(&grid);
    let lines = parse_text(&text);
    assert_eq!(lines.len(), grid.rows());
    for y in 0..grid.rows() {
        assert_eq!(lines[y].len(), grid.cols());
        for x in 0..grid.cols() {
            assert_eq!(lines[y][x], grid.cell(y, x).glyph);
        }
    }
}

#[test]
fn uniform_source_with_edges_keeps_luminance_glyphs() {
    // mid gray: luminance 128 -> index 7 -> '#'; no cell may take a stroke glyph
    let buf = solid_buffer(128, 128, 128, 255, 4, 4);
    let opts = TranscodeOptions { edge_detection: true };
    let grid = transcode(&buf, 6, opts).unwrap();
    for y in 0..grid.rows() {
        for x in 0..grid.cols() {
            assert_eq!(grid.cell(y, x).glyph, b'#');
        }
    }
}
