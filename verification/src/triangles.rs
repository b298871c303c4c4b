//! Textured triangle batches: the vertex type, the growable batch, its
//! builders and diagnostics, merging, and translation.

use vstd::prelude::*;

use crate::color::Color32;
use crate::math::{Pos2, Rect, Vec2};

verus! {

/// Identifies the texture a batch must be drawn with.
#[derive(Clone, Copy, Debug, PartialEq, Eq, Structural, Hash)]
pub enum TextureId {
    /// The built-in texture atlas, whose reserved white region backs
    /// untextured, solid-fill drawing.
    Egui,
    /// A user-supplied texture handle, resolved by the renderer.
    User(u64),
}

/// A failure surfaced by a batch operation.
#[derive(Clone, Copy, Debug, PartialEq, Eq, Structural)]
pub enum MeshError {
    /// Two non-empty batches with different texture ids cannot be merged
    /// into one draw call.
    InvalidMerge,
    /// A single triangle spans 65536 or more vertex positions, so no
    /// partition can bring its indices into a 16-bit range.
    UnsplittableTriangle,
}

/// A point sample: position, texture coordinate, and premultiplied sRGBA
/// color. A plain value with no invariants beyond its field ranges.
#[derive(Clone, Copy, Debug, PartialEq, Eq, Structural)]
pub struct Vertex {
    /// Logical coordinates; (0,0) is the top-left corner of the surface.
    pub pos: Pos2,
    /// Texture coordinates; (0,0) is the top-left corner of the texture.
    pub uv: Pos2,
    /// sRGBA color with premultiplied alpha.
    pub color: Color32,
}

/// Textured triangles: vertices plus an index list describing triangles
/// over them, all drawn with one texture.
#[derive(Clone, Debug)]
pub struct Triangles {
    /// Triples of vertex indices; each group of three consecutive entries
    /// is one triangle.
    pub indices: Vec<u32>,
    /// The vertex data indexed by `indices`.
    pub vertices: Vec<Vertex>,
    /// The texture to use when drawing these triangles.
    pub texture_id: TextureId,
}

/// The mathematical value of a [`Triangles`] batch.
#[verifier::ext_equal]
pub ghost struct MeshView {
    pub indices: Seq<u32>,
    pub vertices: Seq<Vertex>,
    pub texture_id: TextureId,
}

impl View for Triangles {
    type V = MeshView;

    open spec fn view(&self) -> MeshView {
        MeshView {
            indices: self.indices@,
            vertices: self.vertices@,
            texture_id: self.texture_id,
        }
    }
}

impl MeshView {
    /// Every index references an existing vertex.
    pub open spec fn valid(self) -> bool {
        forall|i: int| 0 <= i < self.indices.len() ==> (self.indices[i] as int) < self.vertices.len()
    }

    /// Both the index list and the vertex list are empty.
    pub open spec fn is_empty(self) -> bool {
        self.indices.len() == 0 && self.vertices.len() == 0
    }
}

/// The texture coordinate of the reserved fully-white region of the
/// built-in atlas, used for untextured, solid-fill drawing.
pub open spec fn spec_white_uv() -> Pos2 {
    Pos2 { x: 0, y: 0 }
}

/// The texture coordinate of the reserved fully-white region of the
/// built-in atlas.
#[verifier::when_used_as_spec(spec_white_uv)]
pub fn white_uv() -> (p: Pos2)
    ensures
        p == spec_white_uv(),
{
    Pos2 { x: 0, y: 0 }
}

/// `s` with `offset` added to every index, as `append` rebases the merged
/// batch's indices.
pub open spec fn rebase_indices(s: Seq<u32>, offset: int) -> Seq<u32> {
    Seq::new(s.len(), |i: int| (s[i] + offset) as u32)
}

/// The batch that merging `b` onto `a` yields: `b`'s indices rebased past
/// `a`'s vertices, both arrays concatenated, `a`'s texture kept.
pub open spec fn append_view(a: MeshView, b: MeshView) -> MeshView {
    MeshView {
        indices: a.indices + rebase_indices(b.indices, a.vertices.len() as int),
        vertices: a.vertices + b.vertices,
        texture_id: a.texture_id,
    }
}

/// The batch that adding an axis-aligned rectangle to `m` yields: four
/// vertices in the order left-top, right-top, left-bottom, right-bottom,
/// and the two triangles `(idx, idx+1, idx+2)` and `(idx+2, idx+1, idx+3)`
/// over them, where `idx` is the vertex count before the addition.
pub open spec fn rect_appended(m: MeshView, pos: Rect, uv: Rect, color: Color32) -> MeshView {
    let idx = m.vertices.len() as int;
    MeshView {
        indices: m.indices + seq![
            idx as u32,
            (idx + 1) as u32,
            (idx + 2) as u32,
            (idx + 2) as u32,
            (idx + 1) as u32,
            (idx + 3) as u32,
        ],
        vertices: m.vertices + seq![
            Vertex { pos: pos.spec_left_top(), uv: uv.spec_left_top(), color },
            Vertex { pos: pos.spec_right_top(), uv: uv.spec_right_top(), color },
            Vertex { pos: pos.spec_left_bottom(), uv: uv.spec_left_bottom(), color },
            Vertex { pos: pos.spec_right_bottom(), uv: uv.spec_right_bottom(), color },
        ],
        texture_id: m.texture_id,
    }
}

/// Shifting `v`'s position by `delta` stays within the coordinate range.
pub open spec fn pos_shift_fits(v: Vertex, delta: Vec2) -> bool {
    &&& i32::MIN <= v.pos.x + delta.x <= i32::MAX
    &&& i32::MIN <= v.pos.y + delta.y <= i32::MAX
}

/// Shifting every vertex position of `m` by `delta` stays within the
/// coordinate range: the machine-limit precondition of translation.
pub open spec fn translate_fits(m: MeshView, delta: Vec2) -> bool {
    forall|i: int| 0 <= i < m.vertices.len() ==> pos_shift_fits(#[trigger] m.vertices[i], delta)
}

/// `m` with `delta` added to every vertex position; texture coordinates,
/// colors and indices are untouched.
pub open spec fn translated(m: MeshView, delta: Vec2) -> MeshView {
    MeshView {
        vertices: Seq::new(
            m.vertices.len(),
            |i: int| Vertex {
                pos: Pos2 {
                    x: (m.vertices[i].pos.x + delta.x) as i32,
                    y: (m.vertices[i].pos.y + delta.y) as i32,
                },
                uv: m.vertices[i].uv,
                color: m.vertices[i].color,
            },
        ),
        ..m
    }
}

/// Bytes of the batch's own fields, before the two heap arrays.
pub const TRIANGLES_FIXED_BYTES: usize = 64;

/// Bytes each vertex occupies: two positions of two 32-bit values each,
/// plus four color channels.
pub const VERTEX_BYTES: usize = 20;

/// Bytes each index occupies.
pub const INDEX_BYTES: usize = 4;

impl Triangles {
    /// An empty batch tagged with `texture_id`.
    pub fn with_texture(texture_id: TextureId) -> (t: Triangles)
        ensures
            t@.indices == Seq::<u32>::empty(),
            t@.vertices == Seq::<Vertex>::empty(),
            t@.texture_id == texture_id,
    {
        Triangles { indices: Vec::new(), vertices: Vec::new(), texture_id }
    }

    /// The approximate memory footprint: the batch's own fields plus the
    /// two heap arrays at their declared per-element sizes. A diagnostic
    /// for memory budgeting, not load-bearing for correctness.
    pub fn bytes_used(&self) -> (n: usize)
        requires
            TRIANGLES_FIXED_BYTES + self@.vertices.len() * VERTEX_BYTES
                + self@.indices.len() * INDEX_BYTES <= usize::MAX,
        ensures
            n == TRIANGLES_FIXED_BYTES + self@.vertices.len() * VERTEX_BYTES
                + self@.indices.len() * INDEX_BYTES,
    {
        TRIANGLES_FIXED_BYTES + self.vertices.len() * VERTEX_BYTES
            + self.indices.len() * INDEX_BYTES
    }

    /// Are all indices within the bounds of the contained vertices?
    ///
    /// A read-only, opt-in diagnostic: mutation never performs this check,
    /// so hot-path construction stays cheap.
    pub fn is_valid(&self) -> (r: bool)
        ensures
            r == self@.valid(),
    {
        let n = self.vertices.len();
        let mut k: usize = 0;
        while k < self.indices.len()
            invariant
                0 <= k <= self@.indices.len(),
                n == self@.vertices.len(),
                forall|i: int| 0 <= i < k ==> (self@.indices[i] as int) < self@.vertices.len(),
            decreases self@.indices.len() - k,
        {
            if self.indices[k] as usize >= n {
                return false;
            }
            k += 1;
        }
        true
    }

    /// True iff both arrays are empty.
    pub fn is_empty(&self) -> (r: bool)
        ensures
            r == self@.is_empty(),
    {
        self.indices.len() == 0 && self.vertices.len() == 0
    }

    /// Appends the indices `a`, `b`, `c` as one triangle. Each must
    /// reference an existing vertex by the caller's contract; nothing is
    /// validated eagerly.
    pub fn add_triangle(&mut self, a: u32, b: u32, c: u32)
        ensures
            final(self)@.indices == old(self)@.indices + seq![a, b, c],
            final(self)@.vertices == old(self)@.vertices,
            final(self)@.texture_id == old(self)@.texture_id,
    {
        self.indices.push(a);
        self.indices.push(b);
        self.indices.push(c);
        proof {
            assert(self.indices@ =~= old(self).indices@ + seq![a, b, c]);
        }
    }

    /// Makes room for `additional_triangles` more triangles, reserving
    /// three index slots per triangle. A capacity hint with no observable
    /// effect on the contents.
    pub fn reserve_triangles(&mut self, additional_triangles: usize)
        requires
            additional_triangles * 3 <= usize::MAX,
        ensures
            final(self)@ == old(self)@,
    {
        self.indices.reserve(3 * additional_triangles);
    }

    /// Makes room for `additional` more vertices. A capacity hint with no
    /// observable effect on the contents.
    pub fn reserve_vertices(&mut self, additional: usize)
        ensures
            final(self)@ == old(self)@,
    {
        self.vertices.reserve(additional);
    }

    /// Appends one vertex with the reserved white texture coordinate and
    /// no index; only legal on a batch drawn with the built-in atlas.
    pub fn colored_vertex(&mut self, pos: Pos2, color: Color32)
        requires
            old(self)@.texture_id == TextureId::Egui,
        ensures
            final(self)@.vertices == old(self)@.vertices.push(
                Vertex { pos, uv: spec_white_uv(), color },
            ),
            final(self)@.indices == old(self)@.indices,
            final(self)@.texture_id == old(self)@.texture_id,
    {
        self.vertices.push(Vertex { pos, uv: white_uv(), color });
    }

    /// Merges `other` into `self`, consuming it.
    ///
    /// An empty `self` simply becomes `other` (the fast path: an ownership
    /// transfer, no per-element copy). Otherwise the textures must match:
    /// a mismatch is an [`MeshError::InvalidMerge`] and leaves `self`
    /// unchanged. On success `other`'s indices are rebased past `self`'s
    /// vertices and both arrays are appended.
    pub fn append(&mut self, other: Triangles) -> (r: Result<(), MeshError>)
        requires
            other@.valid(),
            old(self)@.vertices.len() + other@.vertices.len() <= u32::MAX,
        ensures
            old(self)@.is_empty() ==> r == Ok::<(), MeshError>(()) && final(self)@ == other@,
            !old(self)@.is_empty() && old(self)@.texture_id != other@.texture_id ==>
                r == Err::<(), MeshError>(MeshError::InvalidMerge) && final(self)@ == old(self)@,
            !old(self)@.is_empty() && old(self)@.texture_id == other@.texture_id ==>
                r == Ok::<(), MeshError>(()) && final(self)@ == append_view(old(self)@, other@),
    {
        let ghost other0 = other@;
        let mut other = other;
        if self.is_empty() {
            *self = other;
            Ok(())
        } else if self.texture_id != other.texture_id {
            Err(MeshError::InvalidMerge)
        } else {
            let index_offset: u32 = self.vertices.len() as u32;
            let mut k: usize = 0;
            while k < other.indices.len()
                invariant
                    0 <= k <= other.indices@.len(),
                    other.indices@ == other@.indices,
                    forall|i: int| 0 <= i < other.indices@.len() ==>
                        (other.indices@[i] as int) < other@.vertices.len(),
                    index_offset as int + other@.vertices.len() <= u32::MAX,
                    self.indices@ == old(self)@.indices + rebase_indices(
                        other@.indices.subrange(0, k as int),
                        index_offset as int,
                    ),
                    self.vertices@ == old(self)@.vertices,
                    self.texture_id == old(self)@.texture_id,
                decreases other.indices@.len() - k,
            {
                let idx = other.indices[k];
                self.indices.push(index_offset + idx);
                proof {
                    assert(self.indices@ =~= old(self)@.indices + rebase_indices(
                        other@.indices.subrange(0, k as int + 1),
                        index_offset as int,
                    ));
                }
                k += 1;
            }
            self.vertices.append(&mut other.vertices);
            proof {
                assert(other0.indices.subrange(0, other0.indices.len() as int) =~= other0.indices);
                assert(self@ =~~= append_view(old(self)@, other0));
            }
            Ok(())
        }
    }

    /// Tessellates an axis-aligned rectangle into two triangles over four
    /// new vertices, each corner paired with the matching corner of `uv`
    /// and colored `color`. The emission order and the diagonal choice are
    /// fixed; backends and tests rely on them.
    pub fn add_rect_with_uv(&mut self, pos: Rect, uv: Rect, color: Color32)
        requires
            old(self)@.vertices.len() + 4 <= u32::MAX,
        ensures
            final(self)@ == rect_appended(old(self)@, pos, uv, color),
    {
        let idx = self.vertices.len() as u32;
        self.add_triangle(idx, idx + 1, idx + 2);
        self.add_triangle(idx + 2, idx + 1, idx + 3);

        let right_top = Vertex { pos: pos.right_top(), uv: uv.right_top(), color };
        let left_top = Vertex { pos: pos.left_top(), uv: uv.left_top(), color };
        let left_bottom = Vertex { pos: pos.left_bottom(), uv: uv.left_bottom(), color };
        let right_bottom = Vertex { pos: pos.right_bottom(), uv: uv.right_bottom(), color };
        self.vertices.push(left_top);
        self.vertices.push(right_top);
        self.vertices.push(left_bottom);
        self.vertices.push(right_bottom);
        proof {
            assert(self@ =~~= rect_appended(old(self)@, pos, uv, color));
        }
    }

    /// A uniformly colored rectangle: [`Self::add_rect_with_uv`] with the
    /// whole texture rectangle collapsed onto the reserved white
    /// coordinate. Only legal on a batch drawn with the built-in atlas.
    pub fn add_colored_rect(&mut self, rect: Rect, color: Color32)
        requires
            old(self)@.vertices.len() + 4 <= u32::MAX,
            old(self)@.texture_id == TextureId::Egui,
        ensures
            final(self)@ == rect_appended(
                old(self)@,
                rect,
                Rect { min: spec_white_uv(), max: spec_white_uv() },
                color,
            ),
    {
        let white = white_uv();
        self.add_rect_with_uv(rect, Rect { min: white, max: white }, color)
    }

    /// Adds `delta` to the position of every vertex, in place. Indices,
    /// texture coordinates and colors are untouched.
    pub fn translate(&mut self, delta: Vec2)
        requires
            translate_fits(old(self)@, delta),
        ensures
            final(self)@ == translated(old(self)@, delta),
    {
        let n = self.vertices.len();
        let mut k: usize = 0;
        while k < n
            invariant
                0 <= k <= n,
                n == old(self)@.vertices.len(),
                self.indices@ == old(self)@.indices,
                self.texture_id == old(self)@.texture_id,
                self.vertices@.len() == n,
                translate_fits(old(self)@, delta),
                forall|i: int| 0 <= i < k ==> self.vertices@[i]
                    == translated(old(self)@, delta).vertices[i],
                forall|i: int| k <= i < n ==> self.vertices@[i] == old(self)@.vertices[i],
            decreases n - k,
        {
            let v = self.vertices[k];
            let moved = Vertex {
                pos: Pos2 { x: v.pos.x + delta.x, y: v.pos.y + delta.y },
                uv: v.uv,
                color: v.color,
            };
            self.vertices.set(k, moved);
            k += 1;
        }
        proof {
            assert(self@ =~~= translated(old(self)@, delta));
        }
    }
}

/// Merging two valid batches yields a valid batch whose array lengths are
/// the sums of the inputs' array lengths.
pub proof fn lemma_append_preserves_valid(a: MeshView, b: MeshView)
    requires
        a.valid(),
        b.valid(),
        a.vertices.len() + b.vertices.len() <= u32::MAX,
    ensures
        append_view(a, b).valid(),
        append_view(a, b).vertices.len() == a.vertices.len() + b.vertices.len(),
        append_view(a, b).indices.len() == a.indices.len() + b.indices.len(),
{
    let r = append_view(a, b);
    assert forall|i: int| 0 <= i < r.indices.len() implies (r.indices[i] as int)
        < r.vertices.len() by {
        if i < a.indices.len() {
            assert(r.indices[i] == a.indices[i]);
        } else {
            assert(r.indices[i] == rebase_indices(b.indices, a.vertices.len() as int)[
                i - a.indices.len()
            ]);
        }
    }
}

/// Translating by `delta` and then by its negation restores every vertex
/// position; nothing else of the batch ever changed.
pub proof fn lemma_translate_round_trip(m: MeshView, delta: Vec2)
    requires
        i32::MIN < delta.x,
        i32::MIN < delta.y,
        translate_fits(m, delta),
    ensures
        translated(translated(m, delta), Vec2 { x: (-delta.x) as i32, y: (-delta.y) as i32 })
            == m,
{
    let back = Vec2 { x: (-delta.x) as i32, y: (-delta.y) as i32 };
    assert(translated(translated(m, delta), back) =~~= m);
}

} // verus!
