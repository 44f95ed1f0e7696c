//! Packs glyph outlines into vertex/index/descriptor arrays that a GPU
//! coverage shader consumes with a single triangle-based draw call.
//!
//! Every point of a glyph becomes one vertex. Each on-curve point that
//! continues its contour emits one triangle of vertex indices: after an
//! off-curve control point, the quadratic curve's control triangle; after an
//! on-curve point, the straight edge's endpoints plus the reserved sentinel
//! vertex 0 as a degenerate control point, which collapses the curve term so
//! that one shader path renders both segment kinds.

use vstd::prelude::*;
use crate::bounds::GlyphBounds;
use crate::bounds::GlyphPixelBounds;
use crate::bounds::GlyphSubpixelBounds;
use crate::bounds::PointSize;
use crate::font::Font;
use crate::font::OutlinePoint;
use crate::font::points_well_formed;
use crate::font::wf_points;

verus! {

/// One point on a glyph contour, as a GPU mesh vertex: a font-unit position
/// and the dense index of the glyph the vertex belongs to.
#[derive(Copy, Clone, Debug, PartialEq, Eq, Structural)]
pub struct Vertex {
    pub x: i16,
    pub y: i16,
    pub glyph_index: u16,
}

/// The reserved vertex at index 0: a degenerate control point at the origin.
pub open spec fn sentinel_vertex() -> Vertex {
    Vertex { x: 0, y: 0, glyph_index: 0 }
}

/// Why a glyph could not be added: its outline could not be traversed.
#[derive(Copy, Clone, Debug, PartialEq, Eq, Structural)]
pub enum CurveTraversalError {
    /// The font has no glyph under the given identifier.
    MissingGlyph,
    /// The glyph's point stream is not a well-formed outline.
    MalformedOutline,
}

/// Per-glyph metadata, one entry per packed glyph, indexed by the dense
/// glyph index assigned in insertion order.
#[derive(Copy, Clone, Debug, PartialEq, Eq, Structural)]
pub struct GlyphDescriptor {
    pub bounds: GlyphBounds,
    pub units_per_em: u32,
    pub start_point: u32,
    pub start_index: u32,
    pub glyph_id: u16,
}

impl GlyphDescriptor {
    /// The unit scale a font reports fits sixteen bits and is positive.
    pub open spec fn wf(self) -> bool {
        0 < self.units_per_em <= u16::MAX
    }

    /// The offset into the index array where this glyph's triangles begin.
    pub fn start_index(&self) -> (r: u32)
        ensures
            r == self.start_index,
    {
        self.start_index
    }

    /// The glyph box in fractional pixels at `point_size`.
    fn subpixel_bounds(&self, point_size: PointSize) -> (r: GlyphSubpixelBounds)
        requires
            self.wf(),
            point_size.wf(),
        ensures
            r == self.bounds.spec_subpixel_bounds(self.units_per_em as u16, point_size),
            r.wf(),
    {
        self.bounds.subpixel_bounds(self.units_per_em as u16, point_size)
    }
}

/// Whether the point at `i` closes a segment of its contour: an on-curve
/// point past the first point of the contour. Each such point emits one
/// triangle.
pub open spec fn emits_at(ps: Seq<OutlinePoint>, i: int) -> bool {
    0 < i && ps[i].index_in_contour > 0 && ps[i].on_curve
}

/// The triangle of vertex indices emitted at point `i` of a glyph whose
/// first vertex sits at `base`: after an off-curve control point, the
/// quadratic segment's control triangle; after an on-curve point, the
/// straight edge with the sentinel vertex as middle corner.
pub open spec fn tri_at(ps: Seq<OutlinePoint>, base: int, i: int) -> (int, int, int) {
    if !ps[i - 1].on_curve {
        (base + i - 2, base + i - 1, base + i)
    } else {
        (base + i - 1, 0, base + i)
    }
}

/// All triangles emitted for the point stream `ps`, in order, for a glyph
/// whose first vertex sits at `base`.
pub open spec fn glyph_tris(ps: Seq<OutlinePoint>, base: int) -> Seq<(int, int, int)>
    decreases ps.len(),
{
    if ps.len() == 0 {
        Seq::empty()
    } else {
        let i = ps.len() - 1;
        glyph_tris(ps.drop_last(), base) + if emits_at(ps, i) {
            seq![tri_at(ps, base, i)]
        } else {
            Seq::empty()
        }
    }
}

/// The vertices appended for the point stream `ps` under dense glyph index
/// `gi`: one per point, in order.
pub open spec fn glyph_verts(ps: Seq<OutlinePoint>, gi: u16) -> Seq<Vertex> {
    ps.map_values(|p: OutlinePoint| Vertex { x: p.x, y: p.y, glyph_index: gi })
}

/// Whether the flat index sequence `iv` lists exactly the triangles `ts`,
/// three corners each, in order.
pub open spec fn indices_match(iv: Seq<u32>, ts: Seq<(int, int, int)>) -> bool {
    &&& iv.len() == 3 * ts.len()
    &&& forall|k: int|
        0 <= k < ts.len() ==> iv[3 * k] as int == (#[trigger] ts[k]).0 && iv[3 * k + 1] as int
            == ts[k].1 && iv[3 * k + 2] as int == ts[k].2
}

/// How one more point extends the triangle list: the point at `i` appends
/// exactly its triangle when it closes a segment, and nothing otherwise.
proof fn lemma_glyph_tris_step(ps: Seq<OutlinePoint>, base: int, i: int)
    requires
        0 <= i < ps.len(),
    ensures
        emits_at(ps, i) ==> glyph_tris(ps.take(i + 1), base) == glyph_tris(
            ps.take(i),
            base,
        ).push(tri_at(ps, base, i)),
        !emits_at(ps, i) ==> glyph_tris(ps.take(i + 1), base) == glyph_tris(ps.take(i), base),
{
    let pre = ps.take(i + 1);
    assert(pre.drop_last() =~= ps.take(i));
    assert(pre[i] == ps[i]);
    assert(emits_at(pre, i) == emits_at(ps, i));
    if emits_at(ps, i) {
        assert(pre[i - 1] == ps[i - 1]);
        assert(tri_at(pre, base, i) == tri_at(ps, base, i));
        assert(glyph_tris(pre, base) =~= glyph_tris(ps.take(i), base).push(tri_at(ps, base, i)));
    } else {
        assert(glyph_tris(pre, base) =~= glyph_tris(ps.take(i), base));
    }
}

/// Packs up outlines for glyphs into a format that the GPU can process.
#[derive(Debug)]
pub struct OutlineBuilder {
    pub vertices: Vec<Vertex>,
    pub indices: Vec<u32>,
    pub descriptors: Vec<GlyphDescriptor>,
}

impl OutlineBuilder {
    /// The builder's running invariant: the sentinel vertex sits at index 0,
    /// every running offset still fits its 32-bit or 16-bit field, and every
    /// descriptor carries a sound unit scale.
    pub open spec fn wf(self) -> bool {
        &&& 1 <= self.vertices@.len() <= u32::MAX
        &&& self.vertices@[0] == sentinel_vertex()
        &&& self.indices@.len() <= u32::MAX
        &&& self.descriptors@.len() <= 0x1_0000
        &&& forall|k: int| 0 <= k < self.descriptors@.len() ==> (#[trigger] self.descriptors@[k]).wf()
    }

    /// Creates a new empty set of outlines: no glyphs, no triangles, only
    /// the reserved sentinel vertex.
    pub fn new() -> (r: OutlineBuilder)
        ensures
            r.wf(),
            r.vertices@ =~= seq![sentinel_vertex()],
            r.indices@.len() == 0,
            r.descriptors@.len() == 0,
    {
        let mut vertices: Vec<Vertex> = Vec::new();
        vertices.push(Vertex { x: 0, y: 0, glyph_index: 0 });
        OutlineBuilder { vertices, indices: Vec::new(), descriptors: Vec::new() }
    }

    /// Adds a new glyph to the outline builder. Returns the dense glyph
    /// index assigned to it, which is the count of glyphs added before it.
    ///
    /// Appends one vertex per outline point, one triangle of indices per
    /// segment-closing point, and one descriptor. Fails, leaving the builder
    /// exactly as it was, when the font cannot enumerate a well-formed
    /// outline for `glyph_id`.
    #[verifier::rlimit(60)]
    pub fn add_glyph(&mut self, font: &Font, glyph_id: u16) -> (r: Result<
        u16,
        CurveTraversalError,
    >)
        requires
            old(self).wf(),
            font.wf(),
            old(self).descriptors@.len() < 0x1_0000,
            glyph_id < font.glyphs@.len() && wf_points(font.glyphs@[glyph_id as int].points@)
                ==> old(self).vertices@.len() + font.glyphs@[glyph_id as int].points@.len()
                <= u32::MAX && old(self).indices@.len() + 3 * font.glyphs@[glyph_id as int].points@.len() <= u32::MAX,
        ensures
            final(self).wf(),
            r is Ok <==> glyph_id < font.glyphs@.len() && wf_points(
                font.glyphs@[glyph_id as int].points@,
            ),
            match r {
                Ok(glyph_index) => {
                    let ps = font.glyphs@[glyph_id as int].points@;
                    let base = old(self).vertices@.len() as int;
                    &&& glyph_index as int == old(self).descriptors@.len()
                    &&& final(self).vertices@ == old(self).vertices@ + glyph_verts(
                        ps,
                        glyph_index,
                    )
                    &&& final(self).indices@.take(old(self).indices@.len() as int) == old(
                        self,
                    ).indices@
                    &&& indices_match(
                        final(self).indices@.skip(old(self).indices@.len() as int),
                        glyph_tris(ps, base),
                    )
                    &&& final(self).descriptors@ == old(self).descriptors@.push(
                        GlyphDescriptor {
                            bounds: font.glyphs@[glyph_id as int].bounds,
                            units_per_em: font.units_per_em as u32,
                            start_point: base as u32,
                            start_index: old(self).indices@.len() as u32,
                            glyph_id,
                        },
                    )
                },
                Err(e) => {
                    &&& *final(self) == *old(self)
                    &&& (e == CurveTraversalError::MissingGlyph <==> glyph_id
                        >= font.glyphs@.len())
                    &&& (e == CurveTraversalError::MalformedOutline <==> glyph_id
                        < font.glyphs@.len() && !wf_points(font.glyphs@[glyph_id as int].points@))
                },
            },
    {
        if (glyph_id as usize) >= font.glyphs.len() {
            return Err(CurveTraversalError::MissingGlyph);
        }
        let glyph = &font.glyphs[glyph_id as usize];
        if !points_well_formed(&glyph.points) {
            return Err(CurveTraversalError::MalformedOutline);
        }
        let ghost ps = glyph.points@;
        let ghost verts0 = self.vertices@;
        let ghost inds0 = self.indices@;
        let ghost descs0 = self.descriptors@;
        let ghost base = self.vertices@.len() as int;

        let glyph_index = self.descriptors.len() as u16;
        let start_point = self.vertices.len() as u32;
        let start_index = self.indices.len() as u32;
        let mut point_index: u32 = start_point;
        let mut last_point_on_curve = true;
        let n = glyph.points.len();
        let mut i: usize = 0;
        while i < n
            invariant
                0 <= i <= n,
                n == ps.len(),
                ps == glyph.points@,
                *glyph == font.glyphs@[glyph_id as int],
                wf_points(ps),
                1 <= base,
                base == verts0.len(),
                base + n <= u32::MAX,
                inds0.len() + 3 * n <= u32::MAX,
                point_index as int == base + i,
                last_point_on_curve == (if i == 0 {
                    true
                } else {
                    ps[i - 1].on_curve
                }),
                self.vertices@ == verts0 + glyph_verts(ps.take(i as int), glyph_index),
                glyph_tris(ps.take(i as int), base).len() <= i,
                self.indices@.len() == inds0.len() + 3 * glyph_tris(ps.take(i as int), base).len(),
                self.indices@.take(inds0.len() as int) == inds0,
                indices_match(
                    self.indices@.skip(inds0.len() as int),
                    glyph_tris(ps.take(i as int), base),
                ),
                self.descriptors@ == descs0,
            decreases n - i,
        {
            proof {
                lemma_glyph_tris_step(ps, base, i as int);
            }
            let ghost tris_pre = glyph_tris(ps.take(i as int), base);
            let ghost inds_pre = self.indices@;
            let point = glyph.points[i];
            self.vertices.push(Vertex { x: point.x, y: point.y, glyph_index });
            proof {
                assert(glyph_verts(ps.take(i + 1), glyph_index) =~= glyph_verts(
                    ps.take(i as int),
                    glyph_index,
                ).push(Vertex { x: point.x, y: point.y, glyph_index }));
                assert(self.vertices@ =~= verts0 + glyph_verts(ps.take(i + 1), glyph_index));
            }
            if point.index_in_contour > 0 && point.on_curve {
                proof {
                    // A point that continues its contour is never the first
                    // of the stream.
                    assert(ps[i as int].index_in_contour != 0);
                    assert(0 < i);
                }
                let (c0, c1, c2): (u32, u32, u32) = if !last_point_on_curve {
                    proof {
                        // An off-curve predecessor is itself preceded by the
                        // segment's starting on-curve point.
                        assert(ps[i - 1].index_in_contour != 0);
                        assert(0 < i - 1);
                    }
                    (point_index - 2, point_index - 1, point_index)
                } else {
                    (point_index - 1, 0, point_index)
                };
                self.indices.push(c0);
                self.indices.push(c1);
                self.indices.push(c2);
                proof {
                    let m = inds0.len() as int;
                    let tri = tri_at(ps, base, i as int);
                    assert(c0 as int == tri.0 && c1 as int == tri.1 && c2 as int == tri.2);
                    assert(self.indices@ =~= inds_pre + seq![c0, c1, c2]);
                    assert(self.indices@.take(m) =~= inds0);
                    let new_skip = self.indices@.skip(m);
                    let old_skip = inds_pre.skip(m);
                    assert(new_skip =~= old_skip + seq![c0, c1, c2]);
                    let new_tris = glyph_tris(ps.take(i + 1), base);
                    assert(new_tris == tris_pre.push(tri));
                    assert forall|k: int| 0 <= k < new_tris.len() implies new_skip[3 * k] as int
                        == (#[trigger] new_tris[k]).0 && new_skip[3 * k + 1] as int == new_tris[k].1
                        && new_skip[3 * k + 2] as int == new_tris[k].2 by {
                        if k < tris_pre.len() {
                            assert(new_tris[k] == tris_pre[k]);
                            assert(new_skip[3 * k] == old_skip[3 * k]);
                            assert(new_skip[3 * k + 1] == old_skip[3 * k + 1]);
                            assert(new_skip[3 * k + 2] == old_skip[3 * k + 2]);
                        } else {
                            assert(k == tris_pre.len());
                            assert(new_skip[3 * k] == c0);
                            assert(new_skip[3 * k + 1] == c1);
                            assert(new_skip[3 * k + 2] == c2);
                        }
                    }
                    assert(indices_match(new_skip, new_tris));
                }
            } else {
                proof {
                    assert(!emits_at(ps, i as int));
                    assert(self.indices@.take(inds0.len() as int) == inds0);
                }
            }
            point_index = point_index + 1;
            last_point_on_curve = point.on_curve;
            i = i + 1;
        }
        proof {
            assert(ps.take(n as int) =~= ps);
        }
        self.descriptors.push(
            GlyphDescriptor {
                bounds: glyph.bounds,
                units_per_em: font.units_per_em as u32,
                start_point,
                start_index,
                glyph_id,
            },
        );
        Ok(glyph_index)
    }

    /// Consumes the builder into the immutable `Outlines` record, under the
    /// three GPU buffer handles into which the caller uploaded the vertex,
    /// index and descriptor arrays.
    pub fn finalize(
        self,
        vertices_buffer: u32,
        indices_buffer: u32,
        descriptors_buffer: u32,
    ) -> (r: Outlines)
        ensures
            r.descriptors@ == self.descriptors@,
            r.indices_count == self.indices@.len(),
            r.vertices_buffer == vertices_buffer,
            r.indices_buffer == indices_buffer,
            r.descriptors_buffer == descriptors_buffer,
            self.wf() ==> r.wf(),
    {
        let indices_count = self.indices.len();
        Outlines {
            vertices_buffer,
            indices_buffer,
            descriptors_buffer,
            descriptors: self.descriptors,
            indices_count,
        }
    }
}

/// Resolution-independent glyph vectors uploaded to the GPU: the three
/// buffer handles, plus a host-side copy of the descriptor array and the
/// index count for CPU-side queries without a GPU round trip.
#[derive(Debug)]
pub struct Outlines {
    pub vertices_buffer: u32,
    pub indices_buffer: u32,
    pub descriptors_buffer: u32,
    pub descriptors: Vec<GlyphDescriptor>,
    pub indices_count: usize,
}

impl Outlines {
    /// Every descriptor carries a sound unit scale.
    pub open spec fn wf(self) -> bool {
        forall|k: int| 0 <= k < self.descriptors@.len() ==> (#[trigger] self.descriptors@[k]).wf()
    }

    /// The GPU vertex buffer handle, for binding into a draw pass.
    pub fn vertices_buffer(&self) -> (r: u32)
        ensures
            r == self.vertices_buffer,
    {
        self.vertices_buffer
    }

    /// The GPU index buffer handle, for binding into a draw pass.
    pub fn indices_buffer(&self) -> (r: u32)
        ensures
            r == self.indices_buffer,
    {
        self.indices_buffer
    }

    /// The GPU descriptor buffer handle, for binding into a draw or compute
    /// pass.
    pub fn descriptors_buffer(&self) -> (r: u32)
        ensures
            r == self.descriptors_buffer,
    {
        self.descriptors_buffer
    }

    /// The descriptor of the glyph at `glyph_index`, absent when the index
    /// is out of range.
    pub fn descriptor(&self, glyph_index: u16) -> (r: Option<&GlyphDescriptor>)
        ensures
            match r {
                Some(d) => glyph_index < self.descriptors@.len() && *d
                    == self.descriptors@[glyph_index as int],
                None => glyph_index >= self.descriptors@.len(),
            },
    {
        if (glyph_index as usize) < self.descriptors.len() {
            Some(&self.descriptors[glyph_index as usize])
        } else {
            None
        }
    }

    /// The total count of triangle corner indices, for issuing the draw.
    pub fn indices_count(&self) -> (r: usize)
        ensures
            r == self.indices_count,
    {
        self.indices_count
    }

    /// Returns the glyph rectangle in font units.
    pub fn glyph_bounds(&self, glyph_index: u32) -> (r: GlyphBounds)
        requires
            glyph_index < self.descriptors@.len(),
        ensures
            r == self.descriptors@[glyph_index as int].bounds,
    {
        self.descriptors[glyph_index as usize].bounds
    }

    /// Returns the glyph rectangle in fractional pixels at `point_size`.
    pub fn glyph_subpixel_bounds(&self, glyph_index: u16, point_size: PointSize) -> (r:
        GlyphSubpixelBounds)
        requires
            self.wf(),
            glyph_index < self.descriptors@.len(),
            point_size.wf(),
        ensures
            r == self.descriptors@[glyph_index as int].bounds.spec_subpixel_bounds(
                self.descriptors@[glyph_index as int].units_per_em as u16,
                point_size,
            ),
            r.wf(),
    {
        self.descriptors[glyph_index as usize].subpixel_bounds(point_size)
    }

    /// Returns the boundaries of the glyph, rounded out to the nearest
    /// pixel: exactly the fractional-pixel box of `glyph_subpixel_bounds`,
    /// rounded out.
    pub fn glyph_pixel_bounds(&self, glyph_index: u16, point_size: PointSize) -> (r:
        GlyphPixelBounds)
        requires
            self.wf(),
            glyph_index < self.descriptors@.len(),
            point_size.wf(),
            self.descriptors@[glyph_index as int].bounds.spec_subpixel_bounds(
                self.descriptors@[glyph_index as int].units_per_em as u16,
                point_size,
            ).fits_pixels(),
        ensures
            r == self.descriptors@[glyph_index as int].bounds.spec_subpixel_bounds(
                self.descriptors@[glyph_index as int].units_per_em as u16,
                point_size,
            ).spec_round_out(),
    {
        self.descriptors[glyph_index as usize].subpixel_bounds(point_size).round_out()
    }

    /// Returns the font's native identifier of the glyph with the given
    /// dense index.
    pub fn glyph_id(&self, glyph_index: u16) -> (r: u16)
        requires
            glyph_index < self.descriptors@.len(),
        ensures
            r == self.descriptors@[glyph_index as int].glyph_id,
    {
        self.descriptors[glyph_index as usize].glyph_id
    }
}

/// Dense glyph indices are assigned in call order starting at zero, and the
/// descriptor count equals the number of added glyphs: `add_glyph` returns
/// the descriptor count it found and leaves it one larger, and `finalize`
/// keeps the descriptors. So along any run of successful adds from a fresh
/// builder — `counts[k]` being the descriptor count, and thus the index
/// returned, at the `k`-th call — the `k`-th glyph gets index `k`.
pub proof fn lemma_indices_in_call_order(counts: Seq<int>)
    requires
        counts.len() > 0,
        counts[0] == 0,
        forall|k: int| 0 <= k < counts.len() - 1 ==> counts[k + 1] == #[trigger] counts[k] + 1,
    ensures
        forall|k: int| 0 <= k < counts.len() ==> #[trigger] counts[k] == k,
    decreases counts.len(),
{
    if counts.len() > 1 {
        let pre = counts.drop_last();
        assert forall|k: int| 0 <= k < pre.len() - 1 implies pre[k + 1] == #[trigger] pre[k]
            + 1 by {
            assert(pre[k] == counts[k] && pre[k + 1] == counts[k + 1]);
        }
        lemma_indices_in_call_order(pre);
        assert(pre[counts.len() - 2] == counts.len() - 2);
        assert(counts[counts.len() - 2] == pre[counts.len() - 2]);
        assert forall|k: int| 0 <= k < counts.len() implies #[trigger] counts[k] == k by {
            if k < counts.len() - 1 {
                assert(counts[k] == pre[k]);
            }
        }
    }
}

/// For a glyph with only straight contours (no off-curve points), every
/// emitted triangle's middle corner is the sentinel vertex 0, the degenerate
/// control point that collapses the shader's curve term into the straight
/// edge.
pub proof fn lemma_straight_contours_use_sentinel(ps: Seq<OutlinePoint>, base: int)
    requires
        forall|i: int| 0 <= i < ps.len() ==> (#[trigger] ps[i]).on_curve,
    ensures
        forall|k: int|
            0 <= k < glyph_tris(ps, base).len() ==> (#[trigger] glyph_tris(ps, base)[k]).1 == 0,
    decreases ps.len(),
{
    if ps.len() > 0 {
        let pre = ps.drop_last();
        assert(forall|i: int| 0 <= i < pre.len() ==> (#[trigger] pre[i]).on_curve);
        lemma_straight_contours_use_sentinel(pre, base);
        let last = ps.len() - 1;
        assert forall|k: int| 0 <= k < glyph_tris(ps, base).len() implies (#[trigger] glyph_tris(
            ps,
            base,
        )[k]).1 == 0 by {
            if k < glyph_tris(pre, base).len() {
                assert(glyph_tris(ps, base)[k] == glyph_tris(pre, base)[k]);
            } else {
                assert(emits_at(ps, last));
                assert(ps[last - 1].on_curve);
                assert(glyph_tris(ps, base)[k] == tri_at(ps, base, last));
            }
        }
    }
}

/// Whether `t` is the triangle of some segment-closing point of `ps`.
spec fn tri_from_source(ps: Seq<OutlinePoint>, base: int, t: (int, int, int)) -> bool {
    exists|i: int| 0 < i < ps.len() && #[trigger] emits_at(ps, i) && t == tri_at(ps, base, i)
}

/// Whether `t` stands somewhere in the emitted triangle list of `ps`.
spec fn tri_listed(ps: Seq<OutlinePoint>, base: int, t: (int, int, int)) -> bool {
    exists|k: int| 0 <= k < glyph_tris(ps, base).len() && #[trigger] glyph_tris(ps, base)[k] == t
}

/// Where each triangle comes from: every triangle in the list belongs to a
/// segment-closing point, every segment-closing point's triangle is in the
/// list, third corners stay below the vertex after the glyph's last, and
/// distinct list positions carry distinct third corners.
proof fn lemma_tris_sources(ps: Seq<OutlinePoint>, base: int)
    ensures
        forall|k: int|
            0 <= k < glyph_tris(ps, base).len() ==> tri_from_source(
                ps,
                base,
                #[trigger] glyph_tris(ps, base)[k],
            ),
        forall|k: int|
            0 <= k < glyph_tris(ps, base).len() ==> (#[trigger] glyph_tris(ps, base)[k]).2 < base
                + ps.len(),
        forall|i: int|
            0 < i < ps.len() && #[trigger] emits_at(ps, i) ==> tri_listed(
                ps,
                base,
                tri_at(ps, base, i),
            ),
        forall|k1: int, k2: int|
            0 <= k1 < glyph_tris(ps, base).len() && 0 <= k2 < glyph_tris(ps, base).len()
                && (#[trigger] glyph_tris(ps, base)[k1]).2 == (#[trigger] glyph_tris(
                ps,
                base,
            )[k2]).2 ==> k1 == k2,
    decreases ps.len(),
{
    if ps.len() > 0 {
        let pre = ps.drop_last();
        lemma_tris_sources(pre, base);
        let last = ps.len() - 1;
        let pts = glyph_tris(pre, base);
        let ts = glyph_tris(ps, base);
        assert(pts.len() <= ts.len() <= pts.len() + 1);
        // A point before the last reads the same in both streams, so its
        // emission and triangle carry over.
        assert forall|i: int| 0 < i < last && #[trigger] emits_at(pre, i) implies emits_at(ps, i)
            && tri_at(pre, base, i) == tri_at(ps, base, i) by {
            assert(pre[i] == ps[i]);
            assert(pre[i - 1] == ps[i - 1]);
        }
        assert forall|i: int| 0 < i < last && #[trigger] emits_at(ps, i) implies emits_at(pre, i)
            && tri_at(pre, base, i) == tri_at(ps, base, i) by {
            assert(pre[i] == ps[i]);
            assert(pre[i - 1] == ps[i - 1]);
        }
        assert forall|k: int| 0 <= k < ts.len() implies tri_from_source(
            ps,
            base,
            #[trigger] ts[k],
        ) && ts[k].2 < base + ps.len() by {
            if k < pts.len() {
                assert(ts[k] == pts[k]);
                assert(tri_from_source(pre, base, pts[k]));
                let i = choose|i: int|
                    0 < i < pre.len() && #[trigger] emits_at(pre, i) && pts[k] == tri_at(
                        pre,
                        base,
                        i,
                    );
                assert(emits_at(ps, i) && ts[k] == tri_at(ps, base, i));
            } else {
                assert(emits_at(ps, last));
                assert(ts[k] == tri_at(ps, base, last));
                assert(ts[k].2 == base + last);
            }
        }
        assert forall|i: int| 0 < i < ps.len() && #[trigger] emits_at(ps, i) implies tri_listed(
            ps,
            base,
            tri_at(ps, base, i),
        ) by {
            if i < last {
                assert(emits_at(pre, i));
                assert(tri_listed(pre, base, tri_at(pre, base, i)));
                let k = choose|k: int|
                    0 <= k < pts.len() && #[trigger] pts[k] == tri_at(pre, base, i);
                assert(ts[k] == pts[k]);
                assert(0 <= k < ts.len() && ts[k] == tri_at(ps, base, i));
            } else {
                let k = pts.len() as int;
                assert(0 <= k < ts.len() && ts[k] == tri_at(ps, base, i));
            }
        }
        assert forall|k1: int, k2: int|
            0 <= k1 < ts.len() && 0 <= k2 < ts.len() && (#[trigger] ts[k1]).2 == (#[trigger] ts[k2]).2
            implies k1 == k2 by {
            if k1 < pts.len() && k2 < pts.len() {
                assert(ts[k1] == pts[k1] && ts[k2] == pts[k2]);
            } else if k1 < pts.len() {
                assert(ts[k1] == pts[k1]);
                assert(pts[k1].2 < base + pre.len());
                assert(ts[k2].2 == base + last);
            } else if k2 < pts.len() {
                assert(ts[k2] == pts[k2]);
                assert(pts[k2].2 < base + pre.len());
                assert(ts[k1].2 == base + last);
            }
        }
    }
}

/// For a glyph whose outline has exactly one off-curve control point,
/// between its two on-curve neighbors, exactly one emitted triangle
/// references that point's vertex as its middle corner, and its outer
/// corners are the two neighbors' vertices.
pub proof fn lemma_single_curve_triangle(ps: Seq<OutlinePoint>, base: int, j: int)
    requires
        wf_points(ps),
        base >= 1,
        0 <= j < ps.len(),
        !ps[j].on_curve,
        forall|i: int| 0 <= i < ps.len() && i != j ==> (#[trigger] ps[i]).on_curve,
    ensures
        exists|k: int|
            0 <= k < glyph_tris(ps, base).len() && (#[trigger] glyph_tris(ps, base)[k]) == (
                base + j - 1,
                base + j,
                base + j + 1,
            ),
        forall|k: int|
            0 <= k < glyph_tris(ps, base).len() && (#[trigger] glyph_tris(ps, base)[k]).1 == base
                + j ==> glyph_tris(ps, base)[k] == (base + j - 1, base + j, base + j + 1),
        forall|k1: int, k2: int|
            0 <= k1 < glyph_tris(ps, base).len() && 0 <= k2 < glyph_tris(ps, base).len()
                && (#[trigger] glyph_tris(ps, base)[k1]).1 == base + j && (#[trigger] glyph_tris(
                ps,
                base,
            )[k2]).1 == base + j ==> k1 == k2,
{
    lemma_tris_sources(ps, base);
    let ts = glyph_tris(ps, base);
    // The off-curve point is never a contour start, so it has a predecessor,
    // and its on-curve successor closes the curve segment.
    assert(ps[j].index_in_contour != 0);
    assert(0 < j);
    assert(j + 1 < ps.len() && ps[j + 1].on_curve);
    assert(emits_at(ps, j + 1));
    assert(tri_at(ps, base, j + 1) == (base + j - 1, base + j, base + j + 1));
    assert(tri_listed(ps, base, tri_at(ps, base, j + 1)));
    let kw = choose|k: int|
        0 <= k < glyph_tris(ps, base).len() && #[trigger] glyph_tris(ps, base)[k] == tri_at(
            ps,
            base,
            j + 1,
        );
    assert(0 <= kw < ts.len() && ts[kw] == (base + j - 1, base + j, base + j + 1));
    assert forall|k: int| 0 <= k < ts.len() && (#[trigger] ts[k]).1 == base + j implies ts[k] == (
        base + j - 1,
        base + j,
        base + j + 1,
    ) by {
        assert(tri_from_source(ps, base, ts[k]));
        let i = choose|i: int|
            0 < i < ps.len() && #[trigger] emits_at(ps, i) && ts[k] == tri_at(ps, base, i);
        if ps[i - 1].on_curve {
            // The middle corner would be the sentinel, below every glyph
            // vertex.
            assert(ts[k].1 == 0);
            assert(false);
        } else {
            assert(i - 1 == j);
        }
    }
}

} // verus!
