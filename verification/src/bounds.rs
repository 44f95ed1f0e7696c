//! Glyph bounds math: exact transforms between font-unit, subpixel, and
//! whole-pixel rectangles.
//!
//! A glyph box is authored in integer font units. At a given point size it
//! maps to a fractional-pixel box (each side scaled by
//! `point_size / units_per_em`), which in turn rounds outward (floor for
//! left/bottom, ceil for right/top) to a whole-pixel box that never clips a
//! covered pixel. Point sizes and subpixel coordinates are exact fractions,
//! so every transform here is exact integer arithmetic.

use vstd::prelude::*;
use vstd::arithmetic::div_mod::lemma_fundamental_div_mod;
use vstd::arithmetic::div_mod::lemma_fundamental_div_mod_converse;
use vstd::arithmetic::div_mod::lemma_mod_division_less_than_divisor;

verus! {

/// The boundaries of a glyph in font units.
#[derive(Copy, Clone, Debug, PartialEq, Eq, Structural)]
pub struct GlyphBounds {
    pub left: i32,
    pub bottom: i32,
    pub right: i32,
    pub top: i32,
}

/// A point size expressed exactly as the fraction `num / den` of a pixel per
/// em. A whole point size `n` is `n / 1`.
#[derive(Copy, Clone, Debug, PartialEq, Eq, Structural)]
pub struct PointSize {
    pub num: u32,
    pub den: u32,
}

impl PointSize {
    /// A point size is well formed when its denominator is positive.
    pub open spec fn wf(self) -> bool {
        self.den > 0
    }

    /// Builds the point size `num / den`.
    pub fn new(num: u32, den: u32) -> (r: PointSize)
        requires
            den > 0,
        ensures
            r.num == num,
            r.den == den,
            r.wf(),
    {
        PointSize { num, den }
    }

    /// Builds the whole point size `points`.
    pub fn whole(points: u32) -> (r: PointSize)
        ensures
            r.num == points,
            r.den == 1,
            r.wf(),
    {
        PointSize { num: points, den: 1 }
    }
}

/// One coordinate of a fractional-pixel rectangle: the exact value
/// `num / den` pixels.
#[derive(Copy, Clone, Debug, PartialEq, Eq, Structural)]
pub struct Subpixel {
    pub num: i64,
    pub den: u64,
}

impl Subpixel {
    /// A coordinate is well formed when its denominator is positive.
    pub open spec fn wf(self) -> bool {
        self.den > 0
    }

    /// The greatest integer at or below the value.
    pub open spec fn floor_val(self) -> int {
        self.num as int / self.den as int
    }

    /// The least integer at or above the value.
    pub open spec fn ceil_val(self) -> int {
        -((-(self.num as int)) / self.den as int)
    }

    /// Whether the value is a whole number of pixels.
    pub open spec fn is_integer(self) -> bool {
        self.num as int % self.den as int == 0
    }
}

/// How negating the dividend turns a floor into a ceiling: for `mag >= 0`
/// and `den > 0`, the quotient of `-mag` is `-(mag / den)`, less one when the
/// division does not come out even.
proof fn lemma_neg_div(mag: int, den: int, q0: int, r: int)
    requires
        den > 0,
        mag >= 0,
        q0 == mag / den,
        r == mag % den,
    ensures
        r == 0 ==> (-mag) / den == -q0,
        r != 0 ==> (-mag) / den == -q0 - 1,
{
    lemma_fundamental_div_mod(mag, den);
    lemma_mod_division_less_than_divisor(mag, den);
    assert(mag == den * q0 + r);
    if r == 0 {
        assert(-mag == (-q0) * den + 0) by (nonlinear_arith)
            requires
                mag == den * q0 + r,
                r == 0,
        ;
        lemma_fundamental_div_mod_converse(-mag, den, -q0, 0);
    } else {
        assert(-mag == (-q0 - 1) * den + (den - r)) by (nonlinear_arith)
            requires
                mag == den * q0 + r,
        ;
        lemma_fundamental_div_mod_converse(-mag, den, -q0 - 1, den - r);
    }
}

/// Floor of the exact quotient `num / den`, on the range a pixel coordinate
/// can take.
fn floor_div(num: i64, den: u64) -> (q: i32)
    requires
        den > 0,
        i32::MIN <= num as int / den as int <= i32::MAX,
    ensures
        q as int == num as int / den as int,
{
    if num >= 0 {
        let q0: u64 = (num as u64) / den;
        q0 as i32
    } else {
        // Magnitude of `num`, computed without overflowing at `i64::MIN`.
        let mag: u64 = ((-(num + 1)) as u64) + 1;
        let q0: u64 = mag / den;
        let r: u64 = mag % den;
        proof {
            assert(mag as int == -(num as int));
            lemma_neg_div(mag as int, den as int, q0 as int, r as int);
        }
        let qneg: i64 = -(q0 as i64);
        if r == 0 {
            qneg as i32
        } else {
            (qneg - 1) as i32
        }
    }
}

/// Ceiling of the exact quotient `num / den`, on the range a pixel coordinate
/// can take.
fn ceil_div(num: i64, den: u64) -> (q: i32)
    requires
        den > 0,
        i32::MIN <= -((-(num as int)) / den as int) <= i32::MAX,
    ensures
        q as int == -((-(num as int)) / den as int),
{
    if num <= 0 {
        // Magnitude of `num`, computed without overflowing at `i64::MIN`.
        let mag: u64 = if num == 0 { 0 } else { ((-(num + 1)) as u64) + 1 };
        let q0: u64 = mag / den;
        proof {
            assert(mag as int == -(num as int));
        }
        let qneg: i64 = -(q0 as i64);
        qneg as i32
    } else {
        let q0: u64 = (num as u64) / den;
        let r: u64 = (num as u64) % den;
        proof {
            lemma_neg_div(num as int, den as int, q0 as int, r as int);
        }
        if r == 0 {
            q0 as i32
        } else {
            let q1: i64 = q0 as i64 + 1;
            q1 as i32
        }
    }
}

impl GlyphBounds {
    /// The fractional-pixel box of this glyph at `point_size`: each side
    /// scaled by exactly `point_size / units_per_em`.
    pub open spec fn spec_subpixel_bounds(
        self,
        units_per_em: u16,
        point_size: PointSize,
    ) -> GlyphSubpixelBounds {
        let den = (point_size.den as int * units_per_em as int) as u64;
        GlyphSubpixelBounds {
            left: Subpixel { num: (self.left as int * point_size.num as int) as i64, den },
            bottom: Subpixel { num: (self.bottom as int * point_size.num as int) as i64, den },
            right: Subpixel { num: (self.right as int * point_size.num as int) as i64, den },
            top: Subpixel { num: (self.top as int * point_size.num as int) as i64, den },
        }
    }

    /// Given the units per em of the font and the point size, returns the
    /// fractional boundaries of this glyph.
    pub fn subpixel_bounds(&self, units_per_em: u16, point_size: PointSize) -> (r:
        GlyphSubpixelBounds)
        requires
            units_per_em > 0,
            point_size.wf(),
        ensures
            r == self.spec_subpixel_bounds(units_per_em, point_size),
            r.wf(),
    {
        proof {
            lemma_subpixel_fields(*self, units_per_em, point_size);
        }
        let den: u64 = (point_size.den as u64) * (units_per_em as u64);
        GlyphSubpixelBounds {
            left: Subpixel { num: (self.left as i64) * (point_size.num as i64), den },
            bottom: Subpixel { num: (self.bottom as i64) * (point_size.num as i64), den },
            right: Subpixel { num: (self.right as i64) * (point_size.num as i64), den },
            top: Subpixel { num: (self.top as i64) * (point_size.num as i64), den },
        }
    }
}

/// What the sides of a scaled glyph box are, as exact integers: the numeric
/// ranges involved (a 32-bit coordinate times a 32-bit numerator, a 32-bit
/// denominator times a 16-bit scale) always fit the fraction's fields.
pub proof fn lemma_subpixel_fields(b: GlyphBounds, units_per_em: u16, point_size: PointSize)
    requires
        units_per_em > 0,
        point_size.wf(),
    ensures
        b.spec_subpixel_bounds(units_per_em, point_size).left.num as int == b.left as int
            * point_size.num as int,
        b.spec_subpixel_bounds(units_per_em, point_size).bottom.num as int == b.bottom as int
            * point_size.num as int,
        b.spec_subpixel_bounds(units_per_em, point_size).right.num as int == b.right as int
            * point_size.num as int,
        b.spec_subpixel_bounds(units_per_em, point_size).top.num as int == b.top as int
            * point_size.num as int,
        b.spec_subpixel_bounds(units_per_em, point_size).left.den as int == point_size.den as int
            * units_per_em as int,
        b.spec_subpixel_bounds(units_per_em, point_size).bottom.den
            == b.spec_subpixel_bounds(units_per_em, point_size).left.den,
        b.spec_subpixel_bounds(units_per_em, point_size).right.den
            == b.spec_subpixel_bounds(units_per_em, point_size).left.den,
        b.spec_subpixel_bounds(units_per_em, point_size).top.den
            == b.spec_subpixel_bounds(units_per_em, point_size).left.den,
        b.spec_subpixel_bounds(units_per_em, point_size).wf(),
{
    let n = point_size.num as int;
    assert(i64::MIN <= b.left as int * n <= i64::MAX && i64::MIN <= b.bottom as int * n
        <= i64::MAX && i64::MIN <= b.right as int * n <= i64::MAX && i64::MIN <= b.top as int * n
        <= i64::MAX) by (nonlinear_arith)
        requires
            -0x8000_0000 <= b.left as int <= 0x7fff_ffff,
            -0x8000_0000 <= b.bottom as int <= 0x7fff_ffff,
            -0x8000_0000 <= b.right as int <= 0x7fff_ffff,
            -0x8000_0000 <= b.top as int <= 0x7fff_ffff,
            0 <= n < 0x1_0000_0000,
    ;
    assert(0 < point_size.den as int * units_per_em as int <= u64::MAX) by (nonlinear_arith)
        requires
            0 < point_size.den < 0x1_0000_0000,
            0 < units_per_em < 0x1_0000,
    ;
}

/// The boundaries of a glyph in fractional pixels.
#[derive(Copy, Clone, Debug, PartialEq, Eq, Structural)]
pub struct GlyphSubpixelBounds {
    pub left: Subpixel,
    pub bottom: Subpixel,
    pub right: Subpixel,
    pub top: Subpixel,
}

/// The boundaries of a glyph, rounded out to the nearest pixel.
#[derive(Copy, Clone, Debug, PartialEq, Eq, Structural)]
pub struct GlyphPixelBounds {
    pub left: i32,
    pub bottom: i32,
    pub right: i32,
    pub top: i32,
}

impl GlyphSubpixelBounds {
    /// A subpixel rectangle is well formed when every side is.
    pub open spec fn wf(self) -> bool {
        self.left.wf() && self.bottom.wf() && self.right.wf() && self.top.wf()
    }

    /// Whether every rounded side fits a 32-bit pixel coordinate.
    pub open spec fn fits_pixels(self) -> bool {
        &&& i32::MIN <= self.left.floor_val() <= i32::MAX
        &&& i32::MIN <= self.bottom.floor_val() <= i32::MAX
        &&& i32::MIN <= self.right.ceil_val() <= i32::MAX
        &&& i32::MIN <= self.top.ceil_val() <= i32::MAX
    }

    /// The rectangle rounded outward: floor for left/bottom, ceil for
    /// right/top.
    pub open spec fn spec_round_out(self) -> GlyphPixelBounds {
        GlyphPixelBounds {
            left: self.left.floor_val() as i32,
            bottom: self.bottom.floor_val() as i32,
            right: self.right.ceil_val() as i32,
            top: self.top.ceil_val() as i32,
        }
    }

    /// Rounds these bounds out to the nearest pixel.
    pub fn round_out(&self) -> (r: GlyphPixelBounds)
        requires
            self.wf(),
            self.fits_pixels(),
        ensures
            r == self.spec_round_out(),
            r.left as int == self.left.floor_val(),
            r.bottom as int == self.bottom.floor_val(),
            r.right as int == self.right.ceil_val(),
            r.top as int == self.top.ceil_val(),
    {
        GlyphPixelBounds {
            left: floor_div(self.left.num, self.left.den),
            bottom: floor_div(self.bottom.num, self.bottom.den),
            right: ceil_div(self.right.num, self.right.den),
            top: ceil_div(self.top.num, self.top.den),
        }
    }
}

/// euclid's two-dimensional size: a width and a height in some unit. Its
/// fields are public, so contracts speak of them directly.
#[verifier::external_type_specification]
#[verifier::reject_recursive_types(T)]
#[verifier::reject_recursive_types(U)]
pub struct ExSize2D<T, U>(euclid::Size2D<T, U>);

/// euclid's anonymous unit, the default unit of a size.
#[verifier::external_type_specification]
#[verifier::external_body]
pub struct ExUnknownUnit(euclid::UnknownUnit);

/// Relies on euclid's `Size2D::new`: it stores exactly the given width and
/// height.
pub assume_specification<T, U>[ euclid::Size2D::<T, U>::new ](width: T, height: T) -> (r:
    euclid::Size2D<T, U>)
    ensures
        r.width == width,
        r.height == height,
;

impl GlyphBounds {
    /// Returns the total size of the glyph in font units.
    pub fn size(&self) -> (r: euclid::Size2D<i32, euclid::UnknownUnit>)
        requires
            i32::MIN <= self.right - self.left <= i32::MAX,
            i32::MIN <= self.top - self.bottom <= i32::MAX,
        ensures
            r.width == self.right - self.left,
            r.height == self.top - self.bottom,
    {
        euclid::Size2D::new(self.right - self.left, self.top - self.bottom)
    }
}

impl GlyphPixelBounds {
    /// Returns the total size of the glyph in whole pixels.
    pub fn size(&self) -> (r: euclid::Size2D<i32, euclid::UnknownUnit>)
        requires
            i32::MIN <= self.right - self.left <= i32::MAX,
            i32::MIN <= self.top - self.bottom <= i32::MAX,
        ensures
            r.width == self.right - self.left,
            r.height == self.top - self.bottom,
    {
        euclid::Size2D::new(self.right - self.left, self.top - self.bottom)
    }
}

impl GlyphSubpixelBounds {
    /// Returns the total size of the glyph in fractional pixels. The sides
    /// of one rectangle share a denominator, so each extent is the exact
    /// difference of the numerators over it.
    pub fn size(&self) -> (r: euclid::Size2D<Subpixel, euclid::UnknownUnit>)
        requires
            self.wf(),
            self.left.den == self.right.den,
            self.bottom.den == self.top.den,
            i64::MIN <= self.right.num - self.left.num <= i64::MAX,
            i64::MIN <= self.top.num - self.bottom.num <= i64::MAX,
        ensures
            r.width == (Subpixel { num: (self.right.num - self.left.num) as i64, den: self.right.den }),
            r.height == (Subpixel { num: (self.top.num - self.bottom.num) as i64, den: self.top.den }),
    {
        euclid::Size2D::new(
            Subpixel { num: self.right.num - self.left.num, den: self.right.den },
            Subpixel { num: self.top.num - self.bottom.num, den: self.top.den },
        )
    }
}

/// A whole-valued fractional coordinate rounds to exactly itself, whichever
/// way it is rounded.
proof fn lemma_integer_side(s: Subpixel)
    requires
        s.wf(),
        s.is_integer(),
    ensures
        s.floor_val() * s.den as int == s.num as int,
        s.ceil_val() == s.floor_val(),
{
    let n = s.num as int;
    let d = s.den as int;
    lemma_fundamental_div_mod(n, d);
    assert(n == d * (n / d));
    assert(-n == (-(n / d)) * d + 0) by (nonlinear_arith)
        requires
            n == d * (n / d),
    ;
    lemma_fundamental_div_mod_converse(-n, d, -(n / d), 0);
    assert((n / d) * d == d * (n / d)) by (nonlinear_arith);
}

/// Rounding out changes nothing on a rectangle whose sides are already whole
/// pixels: each rounded side, floor or ceil alike, carries exactly the side's
/// value. Rounding out is therefore idempotent.
pub proof fn lemma_round_out_aligned(b: GlyphSubpixelBounds)
    requires
        b.wf(),
        b.left.is_integer(),
        b.bottom.is_integer(),
        b.right.is_integer(),
        b.top.is_integer(),
    ensures
        b.left.floor_val() * b.left.den as int == b.left.num as int,
        b.bottom.floor_val() * b.bottom.den as int == b.bottom.num as int,
        b.right.ceil_val() * b.right.den as int == b.right.num as int,
        b.top.ceil_val() * b.top.den as int == b.top.num as int,
        b.left.ceil_val() == b.left.floor_val(),
        b.bottom.ceil_val() == b.bottom.floor_val(),
        b.right.ceil_val() == b.right.floor_val(),
        b.top.ceil_val() == b.top.floor_val(),
{
    lemma_integer_side(b.left);
    lemma_integer_side(b.bottom);
    lemma_integer_side(b.right);
    lemma_integer_side(b.top);
}

/// Floors are ordered as the exact quotients are: `a / c <= b / d` whenever
/// `a * d <= b * c` with positive denominators.
proof fn lemma_floor_mono(a: int, c: int, b: int, d: int)
    requires
        c > 0,
        d > 0,
        a * d <= b * c,
    ensures
        a / c <= b / d,
{
    let q = a / c;
    lemma_fundamental_div_mod(a, c);
    lemma_mod_division_less_than_divisor(a, c);
    assert(q * c <= a) by (nonlinear_arith)
        requires
            a == c * q + a % c,
            a % c >= 0,
    ;
    assert(q * d <= b) by (nonlinear_arith)
        requires
            q * c <= a,
            a * d <= b * c,
            c > 0,
            d > 0,
    ;
    lemma_fundamental_div_mod(b, d);
    lemma_mod_division_less_than_divisor(b, d);
    assert(q <= b / d) by (nonlinear_arith)
        requires
            q * d <= b,
            b == d * (b / d) + b % d,
            b % d < d,
            d > 0,
    ;
}

/// The width in whole pixels of the rounded box of `b` at `point_size`.
pub open spec fn spec_pixel_width(b: GlyphBounds, units_per_em: u16, point_size: PointSize) -> int {
    b.spec_subpixel_bounds(units_per_em, point_size).right.ceil_val()
        - b.spec_subpixel_bounds(units_per_em, point_size).left.floor_val()
}

/// The height in whole pixels of the rounded box of `b` at `point_size`.
pub open spec fn spec_pixel_height(
    b: GlyphBounds,
    units_per_em: u16,
    point_size: PointSize,
) -> int {
    b.spec_subpixel_bounds(units_per_em, point_size).top.ceil_val()
        - b.spec_subpixel_bounds(units_per_em, point_size).bottom.floor_val()
}

/// Growing the point size never shrinks the rounded pixel size of a glyph box
/// that contains the origin. (A box strictly to one side of an axis can lose
/// a pixel when a side crosses a pixel boundary: bounds `left = 1, right = 2`
/// at one unit per em span two pixels at point size `9/10` but one at `1`.)
pub proof fn lemma_pixel_size_monotone(b: GlyphBounds, units_per_em: u16, s1: PointSize, s2: PointSize)
    requires
        units_per_em > 0,
        s1.wf(),
        s2.wf(),
        b.left <= 0 <= b.right,
        b.bottom <= 0 <= b.top,
        s1.num as int * s2.den as int <= s2.num as int * s1.den as int,
    ensures
        spec_pixel_width(b, units_per_em, s1) <= spec_pixel_width(b, units_per_em, s2),
        spec_pixel_height(b, units_per_em, s1) <= spec_pixel_height(b, units_per_em, s2),
{
    lemma_subpixel_fields(b, units_per_em, s1);
    lemma_subpixel_fields(b, units_per_em, s2);
    let u = units_per_em as int;
    let n1 = s1.num as int;
    let d1 = s1.den as int;
    let n2 = s2.num as int;
    let d2 = s2.den as int;
    let c1 = d1 * u;
    let c2 = d2 * u;
    assert(c1 > 0 && c2 > 0) by (nonlinear_arith)
        requires
            d1 > 0,
            d2 > 0,
            u > 0,
            c1 == d1 * u,
            c2 == d2 * u,
    ;
    let r = b.right as int;
    let t = b.top as int;
    let l = b.left as int;
    let bo = b.bottom as int;
    // Right and top sides: the exact value grows, so its ceiling grows.
    assert((-(r * n2)) * c1 <= (-(r * n1)) * c2) by (nonlinear_arith)
        requires
            r >= 0,
            u > 0,
            c1 == d1 * u,
            c2 == d2 * u,
            n1 * d2 <= n2 * d1,
    ;
    lemma_floor_mono(-(r * n2), c2, -(r * n1), c1);
    assert((-(t * n2)) * c1 <= (-(t * n1)) * c2) by (nonlinear_arith)
        requires
            t >= 0,
            u > 0,
            c1 == d1 * u,
            c2 == d2 * u,
            n1 * d2 <= n2 * d1,
    ;
    lemma_floor_mono(-(t * n2), c2, -(t * n1), c1);
    // Left and bottom sides: the exact value falls, so its floor falls.
    assert((l * n2) * c1 <= (l * n1) * c2) by (nonlinear_arith)
        requires
            l <= 0,
            u > 0,
            c1 == d1 * u,
            c2 == d2 * u,
            n1 * d2 <= n2 * d1,
    ;
    lemma_floor_mono(l * n2, c2, l * n1, c1);
    assert((bo * n2) * c1 <= (bo * n1) * c2) by (nonlinear_arith)
        requires
            bo <= 0,
            u > 0,
            c1 == d1 * u,
            c2 == d2 * u,
            n1 * d2 <= n2 * d1,
    ;
    lemma_floor_mono(bo * n2, c2, bo * n1, c1);
}

/// The rounded rectangle's extents are the pixel width and height: whenever
/// the rounded sides fit their 32-bit fields, the monotonicity of
/// `spec_pixel_width` and `spec_pixel_height` speaks of the box that
/// `round_out` returns.
pub proof fn lemma_pixel_bounds_size(b: GlyphBounds, units_per_em: u16, point_size: PointSize)
    requires
        units_per_em > 0,
        point_size.wf(),
        b.spec_subpixel_bounds(units_per_em, point_size).fits_pixels(),
    ensures
        b.spec_subpixel_bounds(units_per_em, point_size).spec_round_out().right as int
            - b.spec_subpixel_bounds(units_per_em, point_size).spec_round_out().left as int
            == spec_pixel_width(b, units_per_em, point_size),
        b.spec_subpixel_bounds(units_per_em, point_size).spec_round_out().top as int
            - b.spec_subpixel_bounds(units_per_em, point_size).spec_round_out().bottom as int
            == spec_pixel_height(b, units_per_em, point_size),
{
}

/// A glyph whose font-unit box is the degenerate rectangle at the origin has
/// the degenerate pixel box at every point size.
pub proof fn lemma_empty_bounds_stay_empty(units_per_em: u16, point_size: PointSize)
    requires
        units_per_em > 0,
        point_size.wf(),
    ensures
        (GlyphBounds { left: 0, bottom: 0, right: 0, top: 0 }).spec_subpixel_bounds(
            units_per_em,
            point_size,
        ).spec_round_out() == (GlyphPixelBounds { left: 0, bottom: 0, right: 0, top: 0 }),
{
    let b = GlyphBounds { left: 0, bottom: 0, right: 0, top: 0 };
    lemma_subpixel_fields(b, units_per_em, point_size);
    let s = b.spec_subpixel_bounds(units_per_em, point_size);
    let d = s.left.den as int;
    assert(0int / d == 0) by (nonlinear_arith)
        requires
            d > 0,
    ;
}

} // verus!
