//! The font collaborator's view of a glyph, held as plain values: an ordered
//! outline point stream plus the glyph's font-unit box and the font's unit
//! scale. A parsing layer fills a `Font` from real font data; the outline
//! packer only reads it.

use vstd::prelude::*;
use crate::bounds::GlyphBounds;

verus! {

/// One point of a glyph outline, in traversal order: its font-unit position,
/// whether it lies on the curve, and its index within its contour (zero for
/// the first point of each contour).
#[derive(Copy, Clone, Debug, PartialEq, Eq, Structural)]
pub struct OutlinePoint {
    pub x: i16,
    pub y: i16,
    pub on_curve: bool,
    pub index_in_contour: u32,
}

/// One glyph's outline data: its point stream and its font-unit box.
#[derive(Debug)]
pub struct Glyph {
    pub points: Vec<OutlinePoint>,
    pub bounds: GlyphBounds,
}

/// A well-formed point stream: contours are maximal runs whose
/// `index_in_contour` counts up from zero, each contour starts with an
/// on-curve point, and every off-curve control point is followed by an
/// on-curve point of the same contour.
pub open spec fn wf_points(ps: Seq<OutlinePoint>) -> bool {
    &&& forall|i: int|
        0 <= i < ps.len() && (#[trigger] ps[i]).index_in_contour != 0 ==> 0 < i
            && ps[i].index_in_contour as int == ps[i - 1].index_in_contour as int + 1
    &&& forall|i: int|
        0 <= i < ps.len() && (#[trigger] ps[i]).index_in_contour == 0 ==> ps[i].on_curve
    &&& forall|i: int|
        0 <= i < ps.len() && !(#[trigger] ps[i]).on_curve ==> i + 1 < ps.len() && ps[i
            + 1].on_curve && ps[i + 1].index_in_contour as int == ps[i].index_in_contour as int + 1
}

/// Whether `points` is a well-formed outline stream.
pub fn points_well_formed(points: &Vec<OutlinePoint>) -> (r: bool)
    ensures
        r == wf_points(points@),
{
    let n = points.len();
    let mut i: usize = 0;
    while i < n
        invariant
            0 <= i <= n,
            n == points@.len(),
            forall|j: int|
                0 <= j < i && (#[trigger] points@[j]).index_in_contour != 0 ==> 0 < j
                    && points@[j].index_in_contour as int == points@[j
                    - 1].index_in_contour as int + 1,
            forall|j: int|
                0 <= j < i && (#[trigger] points@[j]).index_in_contour == 0
                    ==> points@[j].on_curve,
            forall|j: int|
                0 <= j < i && !(#[trigger] points@[j]).on_curve ==> j + 1 < points@.len()
                    && points@[j + 1].on_curve && points@[j + 1].index_in_contour as int
                    == points@[j].index_in_contour as int + 1,
        decreases n - i,
    {
        let p = points[i];
        if p.index_in_contour != 0 {
            if i == 0 {
                return false;
            }
            let prev = points[i - 1];
            if (p.index_in_contour as u64) != (prev.index_in_contour as u64) + 1 {
                return false;
            }
        } else {
            if !p.on_curve {
                return false;
            }
        }
        if !p.on_curve {
            if i + 1 >= n {
                return false;
            }
            let next = points[i + 1];
            if !next.on_curve {
                return false;
            }
            if (next.index_in_contour as u64) != (p.index_in_contour as u64) + 1 {
                return false;
            }
        }
        i = i + 1;
    }
    true
}

/// The font collaborator: per-glyph outline data indexed by the font's
/// native glyph identifiers, and the font's units per em.
#[derive(Debug)]
pub struct Font {
    pub units_per_em: u16,
    pub glyphs: Vec<Glyph>,
}

impl Font {
    /// A font is well formed when its unit scale is positive.
    pub open spec fn wf(self) -> bool {
        self.units_per_em > 0
    }

    /// Creates a font with the given unit scale and no glyphs yet.
    pub fn new(units_per_em: u16) -> (r: Font)
        requires
            units_per_em > 0,
        ensures
            r.wf(),
            r.units_per_em == units_per_em,
            r.glyphs@.len() == 0,
    {
        Font { units_per_em, glyphs: Vec::new() }
    }

    /// Records the outline data of the next glyph identifier.
    pub fn push_glyph(&mut self, points: Vec<OutlinePoint>, bounds: GlyphBounds)
        ensures
            final(self).units_per_em == old(self).units_per_em,
            final(self).glyphs@ == old(self).glyphs@.push(Glyph { points: points, bounds }),
    {
        self.glyphs.push(Glyph { points, bounds });
    }

    /// The font's units per em.
    pub fn units_per_em(&self) -> (r: u16)
        ensures
            r == self.units_per_em,
    {
        self.units_per_em
    }
}

} // verus!
