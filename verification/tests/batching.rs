use std::collections::HashMap;

use text_batch::glyph::{FontMetrics, GlyphMetric};
use text_batch::text_renderer::TextRenderer;

type Color = [f32; 4];
type WorldPos = [f32; 3];

const WHITE: Color = [1.0, 1.0, 1.0, 1.0];

fn metric(x: u32, y: u32, width: u32, height: u32, xoffset: i32, yoffset: i32, xadvance: i32)
    -> GlyphMetric {
    GlyphMetric { x, y, width, height, xoffset, yoffset, xadvance }
}

/// A small font: 'A' advances by 10 pixels, 'B' by 7; atlas is 256 x 128.
fn test_font() -> FontMetrics {
    let mut glyphs: HashMap<u32, GlyphMetric> = HashMap::new();
    glyphs.insert('A' as u32, metric(10, 20, 8, 16, 0, 2, 10));
    glyphs.insert('B' as u32, metric(30, 40, 9, 16, 0, 0, 7));
    FontMetrics::new(256, 128, glyphs)
}

fn renderer() -> TextRenderer<Color, WorldPos> {
    TextRenderer::new(test_font(), 4, 16)
}

#[test]
fn default_metric_is_all_zero() {
    let m = GlyphMetric::default();
    assert_eq!(m, GlyphMetric { x: 0, y: 0, width: 0, height: 0, xoffset: 0, yoffset: 0, xadvance: 0 });
}

#[test]
fn new_renderer_is_empty() {
    let r = renderer();
    assert_eq!(r.vertex_data.len(), 0);
    assert_eq!(r.index_data.len(), 0);
    assert_eq!(r.vertex_capacity_bytes, 64);
    assert_eq!(r.index_capacity_bytes, 16);
}

#[test]
fn append_emits_four_vertices_and_six_indices_per_char() {
    let mut r = renderer();
    r.draw_text_on_screen(&['A', 'B'], [0, 0], WHITE);
    assert_eq!(r.vertex_data.len(), 8);
    assert_eq!(r.index_data.len(), 12);
    r.draw_text_at_position(&['A'], [1.0, 2.0, 3.0], WHITE);
    assert_eq!(r.vertex_data.len(), 12);
    assert_eq!(r.index_data.len(), 18);
}

#[test]
fn cursor_advances_by_xadvance() {
    // "AB" from x = 0: glyph A's quad left edge sits at x = 0, and glyph
    // B's at x = 10 (A's advance); B's right edge adds its 9-pixel width.
    let mut r = renderer();
    r.draw_text_on_screen(&['A', 'B'], [0, 0], WHITE);
    assert_eq!(r.vertex_data[0].position_x, 0);
    assert_eq!(r.vertex_data[1].position_x, 0);
    assert_eq!(r.vertex_data[4].position_x, 10);
    assert_eq!(r.vertex_data[6].position_x, 19);
}

#[test]
fn quad_corners_and_texcoords() {
    // 'A' at pixel (3, 5): atlas rectangle (10, 20) of size 8 x 16, drawing
    // offsets (0, 2). Corners run top-left, bottom-left, bottom-right,
    // top-right; texture coordinates are un-normalized atlas pixels.
    let mut r = renderer();
    r.draw_text_on_screen(&['A'], [3, 5], WHITE);
    let quad = &r.vertex_data;
    assert_eq!((quad[0].position_x, quad[0].position_y), (3, 7));
    assert_eq!((quad[1].position_x, quad[1].position_y), (3, 23));
    assert_eq!((quad[2].position_x, quad[2].position_y), (11, 23));
    assert_eq!((quad[3].position_x, quad[3].position_y), (11, 7));
    assert_eq!((quad[0].tex_u, quad[0].tex_v), (10, 20));
    assert_eq!((quad[1].tex_u, quad[1].tex_v), (10, 36));
    assert_eq!((quad[2].tex_u, quad[2].tex_v), (18, 36));
    assert_eq!((quad[3].tex_u, quad[3].tex_v), (18, 20));
}

#[test]
fn indices_form_two_triangles_per_quad() {
    let mut r = renderer();
    r.draw_text_on_screen(&['A', 'B'], [0, 0], WHITE);
    assert_eq!(r.index_data, vec![0, 1, 3, 3, 1, 2, 4, 5, 7, 7, 5, 6]);
}

/// Twice the signed area of triangle (a, b, c); in the y-down pixel plane a
/// triangle is counter-clockwise exactly when this is negative.
fn doubled_signed_area(a: (i64, i64), b: (i64, i64), c: (i64, i64)) -> i64 {
    (b.0 - a.0) * (c.1 - a.1) - (b.1 - a.1) * (c.0 - a.0)
}

#[test]
fn triangles_wind_counter_clockwise() {
    let mut r = renderer();
    r.draw_text_on_screen(&['B'], [40, 30], WHITE);
    let p: Vec<(i64, i64)> =
        r.vertex_data.iter().map(|v| (v.position_x, v.position_y)).collect();
    assert!(doubled_signed_area(p[0], p[1], p[3]) < 0);
    assert!(doubled_signed_area(p[3], p[1], p[2]) < 0);
}

#[test]
fn anchoring_sets_flag_and_world_position() {
    let mut r = renderer();
    r.draw_text_at_position(&['A'], [1.0, 2.0, 3.0], [0.5, 0.25, 0.125, 1.0]);
    r.draw_text_on_screen(&['B'], [9, 9], WHITE);
    assert_eq!(r.vertex_data[0].screen_relative, 0);
    assert_eq!(r.vertex_data[0].world_position, Some([1.0, 2.0, 3.0]));
    assert_eq!(r.vertex_data[0].color, [0.5, 0.25, 0.125, 1.0]);
    assert_eq!(r.vertex_data[4].screen_relative, 1);
    assert_eq!(r.vertex_data[4].world_position, None);
    assert_eq!(r.vertex_data[4].color, WHITE);
}

#[test]
fn absent_char_uses_zero_fallback() {
    // 'Z' has no entry: its quad is zero-size at the cursor position with
    // zero advance, so the following 'A' starts at the same column.
    let mut r = renderer();
    r.draw_text_on_screen(&['Z', 'A'], [5, 6], WHITE);
    for k in 0..4usize {
        assert_eq!(r.vertex_data[k].position_x, 5);
        assert_eq!(r.vertex_data[k].position_y, 6);
        assert_eq!(r.vertex_data[k].tex_u, 0);
        assert_eq!(r.vertex_data[k].tex_v, 0);
    }
    assert_eq!(r.vertex_data[4].position_x, 5);
}

#[test]
fn flush_plans_upload_and_clears_batch() {
    let mut r = renderer();
    r.draw_text_on_screen(&['A', 'B'], [0, 0], WHITE);
    let plan = r.render();
    assert_eq!(plan.vertex_count, 8);
    assert_eq!(plan.index_count, 12);
    assert_eq!(plan.vertex_upload.len(), 8);
    assert_eq!(plan.index_upload, vec![0, 1, 3, 3, 1, 2, 4, 5, 7, 7, 5, 6]);
    assert_eq!(r.vertex_data.len(), 0);
    assert_eq!(r.index_data.len(), 0);
}

#[test]
fn exceeding_capacity_replaces_store_once_with_sufficient_size() {
    // One-element stores: 16 vertex bytes, 4 index bytes. "AB" pends 8
    // vertices (128 bytes: 16 -> 32 -> 64 -> 128) and 12 indices (48
    // bytes: 4 -> 8 -> 16 -> 32 -> 64), so each store is replaced exactly
    // once, at a size the whole batch fits in.
    let mut r: TextRenderer<Color, WorldPos> = TextRenderer::new(test_font(), 1, 16);
    assert_eq!(r.vertex_capacity_bytes, 16);
    assert_eq!(r.index_capacity_bytes, 4);
    r.draw_text_on_screen(&['A', 'B'], [0, 0], WHITE);
    let plan = r.render();
    assert_eq!(plan.new_vertex_capacity_bytes, Some(128));
    assert_eq!(plan.new_index_capacity_bytes, Some(64));
    assert_eq!(r.vertex_capacity_bytes, 128);
    assert_eq!(r.index_capacity_bytes, 64);
    assert!(r.vertex_capacity_bytes >= plan.vertex_count * 16);
    assert!(r.index_capacity_bytes >= plan.index_count * 4);
}

#[test]
fn second_flush_is_a_zero_length_no_op() {
    // Flushing again with no intervening append draws zero indices and
    // leaves both capacities untouched.
    let mut r: TextRenderer<Color, WorldPos> = TextRenderer::new(test_font(), 1, 16);
    r.draw_text_on_screen(&['A', 'B'], [0, 0], WHITE);
    let _ = r.render();
    let again = r.render();
    assert_eq!(again.vertex_count, 0);
    assert_eq!(again.index_count, 0);
    assert_eq!(again.new_vertex_capacity_bytes, None);
    assert_eq!(again.new_index_capacity_bytes, None);
    assert_eq!(r.vertex_capacity_bytes, 128);
    assert_eq!(r.index_capacity_bytes, 64);
}
