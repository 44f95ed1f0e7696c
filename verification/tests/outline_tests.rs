use pathfinder::bounds::{GlyphBounds, GlyphPixelBounds, PointSize};
use pathfinder::font::{Font, OutlinePoint};
use pathfinder::outline::{CurveTraversalError, OutlineBuilder};

fn on(x: i16, y: i16, index_in_contour: u32) -> OutlinePoint {
    OutlinePoint { x, y, on_curve: true, index_in_contour }
}

fn off(x: i16, y: i16, index_in_contour: u32) -> OutlinePoint {
    OutlinePoint { x, y, on_curve: false, index_in_contour }
}

fn square_points() -> Vec<OutlinePoint> {
    vec![on(0, 0, 0), on(100, 0, 1), on(100, 100, 2), on(0, 100, 3)]
}

#[test]
fn descriptor_count_and_indices_follow_call_order() {
    let mut font = Font::new(1000);
    font.push_glyph(square_points(), GlyphBounds { left: 0, bottom: 0, right: 100, top: 100 });
    font.push_glyph(
        vec![on(0, 0, 0), off(50, 100, 1), on(100, 0, 2)],
        GlyphBounds { left: 0, bottom: 0, right: 100, top: 50 },
    );
    let mut builder = OutlineBuilder::new();
    assert_eq!(builder.add_glyph(&font, 0), Ok(0));
    assert_eq!(builder.add_glyph(&font, 1), Ok(1));
    assert_eq!(builder.add_glyph(&font, 0), Ok(2));
    let outlines = builder.finalize(10, 11, 12);
    assert_eq!(outlines.descriptors.len(), 3);
    assert_eq!(outlines.glyph_id(0), 0);
    assert_eq!(outlines.glyph_id(1), 1);
    assert_eq!(outlines.glyph_id(2), 0);
    assert_eq!(outlines.vertices_buffer(), 10);
    assert_eq!(outlines.indices_buffer(), 11);
    assert_eq!(outlines.descriptors_buffer(), 12);
    // the square emits three triangles, the curve glyph one
    assert_eq!(outlines.indices_count(), 9 + 3 + 9);
    assert!(outlines.descriptor(3).is_none());
    let second = outlines.descriptor(1).unwrap();
    assert_eq!(second.start_index(), 9);
}

#[test]
fn straight_contours_use_the_sentinel_as_middle_corner() {
    let mut font = Font::new(1000);
    font.push_glyph(square_points(), GlyphBounds { left: 0, bottom: 0, right: 100, top: 100 });
    let mut builder = OutlineBuilder::new();
    builder.add_glyph(&font, 0).unwrap();
    // vertex 0 is the sentinel; the square's vertices are 1..=4
    assert_eq!(builder.vertices.len(), 5);
    assert_eq!(builder.vertices[0].x, 0);
    assert_eq!(builder.vertices[0].y, 0);
    assert_eq!(builder.vertices[0].glyph_index, 0);
    assert_eq!(builder.indices, vec![1, 0, 2, 2, 0, 3, 3, 0, 4]);
    for triangle in builder.indices.chunks(3) {
        assert_eq!(triangle[1], 0);
    }
}

#[test]
fn one_off_curve_point_gives_one_control_triangle() {
    let mut font = Font::new(1000);
    font.push_glyph(
        vec![on(0, 0, 0), off(50, 100, 1), on(100, 0, 2), on(120, 0, 3)],
        GlyphBounds { left: 0, bottom: 0, right: 120, top: 50 },
    );
    let mut builder = OutlineBuilder::new();
    builder.add_glyph(&font, 0).unwrap();
    // vertices 1..=4 are the glyph's points; vertex 2 is the control point
    assert_eq!(builder.indices, vec![1, 2, 3, 3, 0, 4]);
    let with_control_middle: Vec<&[u32]> =
        builder.indices.chunks(3).filter(|t| t[1] == 2).collect();
    assert_eq!(with_control_middle.len(), 1);
    assert_eq!(with_control_middle[0].to_vec(), vec![1, 2, 3]);
}

#[test]
fn vertices_carry_positions_and_dense_glyph_index() {
    let mut font = Font::new(1000);
    font.push_glyph(square_points(), GlyphBounds { left: 0, bottom: 0, right: 100, top: 100 });
    let mut builder = OutlineBuilder::new();
    builder.add_glyph(&font, 0).unwrap();
    builder.add_glyph(&font, 0).unwrap();
    assert_eq!(builder.vertices[4].x, 0);
    assert_eq!(builder.vertices[4].y, 100);
    assert_eq!(builder.vertices[4].glyph_index, 0);
    assert_eq!(builder.vertices[6].x, 100);
    assert_eq!(builder.vertices[6].y, 0);
    assert_eq!(builder.vertices[6].glyph_index, 1);
    assert_eq!(builder.descriptors[1].start_point, 5);
    assert_eq!(builder.descriptors[1].start_index, 9);
}

#[test]
fn empty_outline_adds_a_descriptor_and_nothing_else() {
    // a glyph with no points at all (such as a space) is a valid outline
    let mut font = Font::new(1000);
    font.push_glyph(vec![], GlyphBounds { left: 0, bottom: 0, right: 0, top: 0 });
    let mut builder = OutlineBuilder::new();
    assert_eq!(builder.add_glyph(&font, 0), Ok(0));
    assert_eq!(builder.vertices.len(), 1);
    assert_eq!(builder.indices.len(), 0);
    assert_eq!(builder.descriptors.len(), 1);
    let outlines = builder.finalize(1, 2, 3);
    let pb = outlines.glyph_pixel_bounds(0, PointSize::new(1234, 56));
    assert_eq!(pb, GlyphPixelBounds { left: 0, bottom: 0, right: 0, top: 0 });
}

#[test]
fn missing_glyph_leaves_the_builder_unchanged() {
    let font = Font::new(1000);
    let mut builder = OutlineBuilder::new();
    let before_glyphs = builder.descriptors.len();
    let before_vertices = builder.vertices.len();
    let r = builder.add_glyph(&font, 7);
    assert_eq!(r, Err(CurveTraversalError::MissingGlyph));
    assert_eq!(builder.descriptors.len(), before_glyphs);
    assert_eq!(builder.vertices.len(), before_vertices);
    assert_eq!(builder.indices.len(), 0);
}

#[test]
fn malformed_glyph_leaves_the_builder_unchanged() {
    let mut font = Font::new(1000);
    // a contour may not start with an off-curve control point
    font.push_glyph(
        vec![off(0, 0, 0), on(10, 0, 1), on(20, 0, 2)],
        GlyphBounds { left: 0, bottom: 0, right: 20, top: 0 },
    );
    // a contour may not skip its starting index either
    font.push_glyph(
        vec![on(0, 0, 1), on(10, 0, 2)],
        GlyphBounds { left: 0, bottom: 0, right: 10, top: 0 },
    );
    let mut builder = OutlineBuilder::new();
    builder.add_glyph(&font, 7).unwrap_err();
    let r = builder.add_glyph(&font, 0);
    assert_eq!(r, Err(CurveTraversalError::MalformedOutline));
    assert_eq!(builder.add_glyph(&font, 1), Err(CurveTraversalError::MalformedOutline));
    assert_eq!(builder.descriptors.len(), 0);
    assert_eq!(builder.vertices.len(), 1);
    assert_eq!(builder.indices.len(), 0);
}

#[test]
fn pixel_bounds_round_the_subpixel_bounds_out() {
    let mut font = Font::new(2048);
    font.push_glyph(
        square_points(),
        GlyphBounds { left: 130, bottom: -300, right: 1700, top: 1900 },
    );
    let mut builder = OutlineBuilder::new();
    builder.add_glyph(&font, 0).unwrap();
    let outlines = builder.finalize(1, 2, 3);
    let point_size = PointSize::new(24, 1);
    assert_eq!(
        outlines.glyph_bounds(0),
        GlyphBounds { left: 130, bottom: -300, right: 1700, top: 1900 },
    );
    let sb = outlines.glyph_subpixel_bounds(0, point_size);
    let pb = outlines.glyph_pixel_bounds(0, point_size);
    assert_eq!(pb, sb.round_out());
    // 130 * 24 / 2048 = 1.52..; -300 * 24 / 2048 = -3.51..;
    // 1700 * 24 / 2048 = 19.92..; 1900 * 24 / 2048 = 22.26..
    assert_eq!(pb, GlyphPixelBounds { left: 1, bottom: -4, right: 20, top: 23 });
}
