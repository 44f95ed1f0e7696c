use pathfinder::bounds::{GlyphBounds, GlyphPixelBounds, GlyphSubpixelBounds, PointSize, Subpixel};

#[test]
fn scenario_bounds_at_twenty_points() {
    // units_per_em = 1000, bounds (100, 0, 600, 700), point size 20:
    // subpixel bounds are exactly (2.0, 0.0, 12.0, 14.0),
    // pixel bounds are (2, 0, 12, 14).
    let bounds = GlyphBounds { left: 100, bottom: 0, right: 600, top: 700 };
    let point_size = PointSize::whole(20);
    let sb = bounds.subpixel_bounds(1000, point_size);
    assert_eq!(sb.left.num * 1, 2 * sb.left.den as i64);
    assert_eq!(sb.bottom.num, 0);
    assert_eq!(sb.right.num, 12 * sb.right.den as i64);
    assert_eq!(sb.top.num, 14 * sb.top.den as i64);
    assert_eq!(sb.left.num, 2000);
    assert_eq!(sb.left.den, 1000);
    let pb = sb.round_out();
    assert_eq!(pb, GlyphPixelBounds { left: 2, bottom: 0, right: 12, top: 14 });
}

#[test]
fn round_out_rounds_outward() {
    // floor on left/bottom and ceil on right/top, also below zero
    let sb = GlyphSubpixelBounds {
        left: Subpixel { num: -3, den: 2 },
        bottom: Subpixel { num: -1, den: 4 },
        right: Subpixel { num: 5, den: 2 },
        top: Subpixel { num: 1, den: 4 },
    };
    let pb = sb.round_out();
    assert_eq!(pb, GlyphPixelBounds { left: -2, bottom: -1, right: 3, top: 1 });
}

#[test]
fn round_out_is_exact_on_whole_pixel_rectangles() {
    // a rectangle already aligned to whole pixels rounds to itself
    let sb = GlyphSubpixelBounds {
        left: Subpixel { num: -8, den: 4 },
        bottom: Subpixel { num: 0, den: 4 },
        right: Subpixel { num: 12, den: 4 },
        top: Subpixel { num: 28, den: 4 },
    };
    let pb = sb.round_out();
    assert_eq!(pb, GlyphPixelBounds { left: -2, bottom: 0, right: 3, top: 7 });
    // rounding the rounded rectangle (re-expressed in fractional pixels)
    // changes nothing
    let again = GlyphSubpixelBounds {
        left: Subpixel { num: pb.left as i64, den: 1 },
        bottom: Subpixel { num: pb.bottom as i64, den: 1 },
        right: Subpixel { num: pb.right as i64, den: 1 },
        top: Subpixel { num: pb.top as i64, den: 1 },
    };
    assert_eq!(again.round_out(), pb);
}

#[test]
fn degenerate_bounds_stay_empty_at_any_point_size() {
    let bounds = GlyphBounds { left: 0, bottom: 0, right: 0, top: 0 };
    for (num, den) in [(1u32, 1u32), (20, 1), (72, 1), (9, 7), (100000, 3)] {
        let pb = bounds.subpixel_bounds(1000, PointSize::new(num, den)).round_out();
        assert_eq!(pb, GlyphPixelBounds { left: 0, bottom: 0, right: 0, top: 0 });
    }
}

#[test]
fn pixel_size_grows_with_point_size_around_origin() {
    // a box containing the origin: rounded width and height never shrink as
    // the point size grows
    let bounds = GlyphBounds { left: -100, bottom: 0, right: 600, top: 700 };
    let mut last_width = i64::MIN;
    let mut last_height = i64::MIN;
    for tenths in 1u32..400 {
        let pb = bounds.subpixel_bounds(1000, PointSize::new(tenths, 10)).round_out();
        let width = pb.right as i64 - pb.left as i64;
        let height = pb.top as i64 - pb.bottom as i64;
        assert!(width >= last_width);
        assert!(height >= last_height);
        last_width = width;
        last_height = height;
    }
}

#[test]
fn sizes_are_side_differences() {
    let bounds = GlyphBounds { left: -3, bottom: 2, right: 11, top: 44 };
    let s = bounds.size();
    assert_eq!(s.width, 14);
    assert_eq!(s.height, 42);
    let pb = GlyphPixelBounds { left: 1, bottom: -5, right: 2, top: 5 };
    let s = pb.size();
    assert_eq!(s.width, 1);
    assert_eq!(s.height, 10);
    let sb = GlyphSubpixelBounds {
        left: Subpixel { num: 3, den: 2 },
        bottom: Subpixel { num: 1, den: 4 },
        right: Subpixel { num: 9, den: 2 },
        top: Subpixel { num: 21, den: 4 },
    };
    let s = sb.size();
    assert_eq!(s.width, Subpixel { num: 6, den: 2 });
    assert_eq!(s.height, Subpixel { num: 20, den: 4 });
}
