//! Index-buffer partitioning: splitting one oversized batch into an
//! ordered sequence of batches whose indices each fit a 16-bit range.
//!
//! Some rendering backends address vertices with 16-bit indices, so at
//! most 65536 distinct vertices are reachable per draw call. The split
//! scans the triangles once, greedily growing a group while the group's
//! touched index interval stays under 65536, and closes the group — a
//! copied vertex slice plus rebased indices — when the next triangle would
//! overflow it. Draw order is meaningful (later triangles may blend over
//! earlier ones), so triangles are never reordered, within or across
//! groups.

use vstd::prelude::*;

use crate::triangles::{rebase_indices, MeshError, MeshView, Triangles, Vertex};

verus! {

/// The limit a group's index interval must stay under: one more than the
/// largest 16-bit index.
pub const MAX_U16_INDEX_RANGE: u32 = 65536;

/// The smaller of two integers.
pub open spec fn min2(a: int, b: int) -> int {
    if a <= b {
        a
    } else {
        b
    }
}

/// The larger of two integers.
pub open spec fn max2(a: int, b: int) -> int {
    if a >= b {
        a
    } else {
        b
    }
}

/// The number of triangles described by `m`'s index list.
pub open spec fn tri_count(m: MeshView) -> int {
    m.indices.len() as int / 3
}

/// The smallest vertex index touched by triangle `t` of `m`.
pub open spec fn tri_min(m: MeshView, t: int) -> int {
    min2(
        m.indices[3 * t] as int,
        min2(m.indices[3 * t + 1] as int, m.indices[3 * t + 2] as int),
    )
}

/// The largest vertex index touched by triangle `t` of `m`.
pub open spec fn tri_max(m: MeshView, t: int) -> int {
    max2(
        m.indices[3 * t] as int,
        max2(m.indices[3 * t + 1] as int, m.indices[3 * t + 2] as int),
    )
}

/// Triangle `t` of `m` touches an index interval under the 16-bit limit,
/// so some group can contain it.
pub open spec fn tri_span_fits(m: MeshView, t: int) -> bool {
    tri_max(m, t) - tri_min(m, t) < MAX_U16_INDEX_RANGE
}

/// Some single triangle of `m` already spans the 16-bit limit, so no
/// partition of `m` exists.
pub open spec fn has_oversize_triangle(m: MeshView) -> bool {
    exists|t: int| 0 <= t < tri_count(m) && !tri_span_fits(m, t)
}

/// `part` is a well-formed output group of splitting `orig`, drawn from
/// the contiguous vertex slice of `orig` that starts at `off`: its indices
/// fit 16 bits relative to its own vertex array, and rebasing them by
/// `off` recovers positions into `orig`'s vertex array.
pub open spec fn chunk_ok(orig: MeshView, part: MeshView, off: int) -> bool {
    &&& part.texture_id == orig.texture_id
    &&& part.valid()
    &&& part.indices.len() % 3 == 0
    &&& forall|j: int| 0 <= j < part.indices.len() ==> (part.indices[j] as int)
        < MAX_U16_INDEX_RANGE
    &&& 0 <= off
    &&& off + part.vertices.len() <= orig.vertices.len()
    &&& part.vertices == orig.vertices.subrange(off, off + part.vertices.len() as int)
}

/// The concatenation of the groups' index lists, each rebased back by its
/// group's vertex offset into the original batch.
pub open spec fn joined_indices(parts: Seq<MeshView>, offs: Seq<int>) -> Seq<u32>
    decreases parts.len(),
{
    if parts.len() == 0 {
        Seq::empty()
    } else {
        rebase_indices(parts[0].indices, offs[0]) + joined_indices(
            parts.drop_first(),
            offs.drop_first(),
        )
    }
}

/// The views of a sequence of batches.
pub open spec fn views_of(parts: Seq<Triangles>) -> Seq<MeshView> {
    parts.map_values(|t: Triangles| t@)
}

/// `parts` with vertex offsets `offs` is a faithful partition of `orig`:
/// every group is well formed and drawn from a contiguous vertex slice,
/// and re-expressing every group's triangles in `orig`'s vertex indices
/// reproduces exactly `orig`'s index list, in order.
pub open spec fn split_reconstructs(orig: MeshView, parts: Seq<MeshView>, offs: Seq<int>) -> bool {
    &&& offs.len() == parts.len()
    &&& forall|k: int| 0 <= k < parts.len() ==> chunk_ok(orig, #[trigger] parts[k], offs[k])
    &&& joined_indices(parts, offs) == orig.indices
}

/// What a successful split of `orig` into `parts` guarantees: no triangle
/// was oversized, some assignment of vertex offsets reconstructs `orig`
/// exactly, and a batch already under the limit came back unchanged as
/// the single element.
pub open spec fn split_ok(orig: MeshView, parts: Seq<Triangles>) -> bool {
    &&& !has_oversize_triangle(orig)
    &&& exists|offs: Seq<int>| split_reconstructs(orig, views_of(parts), offs)
    &&& orig.vertices.len() < MAX_U16_INDEX_RANGE ==> parts.len() == 1 && parts[0]@ == orig
}

/// Appending one group extends the rebased concatenation by that group's
/// rebased indices.
proof fn lemma_joined_push(parts: Seq<MeshView>, offs: Seq<int>, p: MeshView, o: int)
    requires
        offs.len() == parts.len(),
    ensures
        joined_indices(parts.push(p), offs.push(o)) == joined_indices(parts, offs)
            + rebase_indices(p.indices, o),
    decreases parts.len(),
{
    let ps = parts.push(p);
    let os = offs.push(o);
    if parts.len() == 0 {
        assert(ps[0] == p);
        assert(os[0] == o);
        assert(ps.drop_first() =~= Seq::<MeshView>::empty());
        assert(os.drop_first() =~= Seq::<int>::empty());
        assert(joined_indices(ps.drop_first(), os.drop_first())
            == Seq::<u32>::empty());
        assert(joined_indices(parts, offs) == Seq::<u32>::empty());
        assert(joined_indices(ps, os) =~= joined_indices(parts, offs)
            + rebase_indices(p.indices, o));
    } else {
        assert(ps[0] == parts[0]);
        assert(os[0] == offs[0]);
        assert(ps.drop_first() =~= parts.drop_first().push(p));
        assert(os.drop_first() =~= offs.drop_first().push(o));
        lemma_joined_push(parts.drop_first(), offs.drop_first(), p, o);
        assert(joined_indices(ps.drop_first(), os.drop_first()) == joined_indices(
            parts.drop_first(),
            offs.drop_first(),
        ) + rebase_indices(p.indices, o));
        assert(joined_indices(ps, os) =~= joined_indices(parts, offs)
            + rebase_indices(p.indices, o));
    }
}

/// Two multiples of three with room between them are a full step apart.
proof fn lemma_mod3_step(a: int, b: int)
    requires
        0 <= a < b,
        a % 3 == 0,
        b % 3 == 0,
    ensures
        a + 3 <= b,
{
    assert(a + 3 <= b) by (nonlinear_arith)
        requires
            0 <= a < b,
            a % 3 == 0,
            b % 3 == 0,
    ;
}

impl Triangles {
    /// Splits this batch into an ordered sequence of batches whose indices
    /// all fit an unsigned 16-bit range, for backends limited to 16-bit
    /// index buffers.
    ///
    /// A batch with fewer than 65536 vertices is returned unchanged as a
    /// single element — the common case, with no copying. Otherwise the
    /// triangles are scanned once, in order, greedily packed into groups,
    /// and each group is emitted with the touched contiguous vertex slice
    /// copied out and its indices rebased. Concatenating the outputs and
    /// rebasing each group back reproduces the original triangles exactly,
    /// in draw order. A single triangle already spanning 65536 or more
    /// vertex positions fits no group; that is the fatal
    /// [`MeshError::UnsplittableTriangle`].
    #[verifier::rlimit(60)]
    pub fn split_to_u16(self) -> (r: Result<Vec<Triangles>, MeshError>)
        requires
            self@.valid(),
            self@.indices.len() % 3 == 0,
        ensures
            r matches Ok(parts) ==> split_ok(self@, parts@),
            r matches Err(e) ==> e == MeshError::UnsplittableTriangle
                && has_oversize_triangle(self@),
    {
        let ghost orig = self@;
        if self.vertices.len() < 65536 {
            proof {
                assert forall|t: int| 0 <= t < tri_count(orig) implies tri_span_fits(
                    orig,
                    t,
                ) by {
                    assert((orig.indices[3 * t] as int) < orig.vertices.len());
                    assert((orig.indices[3 * t + 1] as int) < orig.vertices.len());
                    assert((orig.indices[3 * t + 2] as int) < orig.vertices.len());
                }
            }
            let mut out: Vec<Triangles> = Vec::new();
            out.push(self);
            proof {
                let parts = views_of(out@);
                let offs: Seq<int> = seq![0];
                assert(out@[0]@ == orig);
                assert(parts.len() == 1);
                assert(parts[0] == orig);
                assert(offs[0] == 0);
                assert(parts[0].vertices =~= parts[0].vertices.subrange(
                    0,
                    parts[0].vertices.len() as int,
                ));
                assert(chunk_ok(orig, parts[0], 0));
                assert(parts.drop_first() =~= Seq::<MeshView>::empty());
                assert(joined_indices(parts.drop_first(), offs.drop_first())
                    == Seq::<u32>::empty());
                assert(rebase_indices(parts[0].indices, 0) =~= parts[0].indices);
                assert(joined_indices(parts, offs) =~= parts[0].indices);
                assert(split_reconstructs(orig, parts, offs));
                assert(split_ok(orig, out@));
            }
            return Ok(out);
        }

        let mut output: Vec<Triangles> = Vec::new();
        let ghost mut offs: Seq<int> = Seq::empty();
        let mut index_cursor: usize = 0;

        while index_cursor < self.indices.len()
            invariant
                self@ == orig,
                orig.valid(),
                orig.indices.len() % 3 == 0,
                index_cursor as int % 3 == 0,
                index_cursor <= orig.indices.len(),
                offs.len() == views_of(output@).len(),
                forall|k: int| 0 <= k < views_of(output@).len() ==> chunk_ok(
                    orig,
                    #[trigger] views_of(output@)[k],
                    offs[k],
                ),
                joined_indices(views_of(output@), offs) == orig.indices.subrange(
                    0,
                    index_cursor as int,
                ),
                forall|t: int| 0 <= t && 3 * t + 2 < index_cursor ==> tri_span_fits(orig, t),
            decreases orig.indices.len() - index_cursor,
        {
            let span_start = index_cursor;
            proof {
                lemma_mod3_step(index_cursor as int, orig.indices.len() as int);
            }
            let mut min_vindex = self.indices[index_cursor];
            let mut max_vindex = self.indices[index_cursor];

            while index_cursor < self.indices.len()
                invariant_except_break
                    self@ == orig,
                    orig.valid(),
                    orig.indices.len() % 3 == 0,
                    span_start as int % 3 == 0,
                    span_start <= index_cursor <= orig.indices.len(),
                    (index_cursor - span_start) as int % 3 == 0,
                    span_start < orig.indices.len(),
                    min_vindex <= max_vindex,
                    (max_vindex as int) < orig.vertices.len(),
                    max_vindex - min_vindex < MAX_U16_INDEX_RANGE,
                    min_vindex <= orig.indices[span_start as int] <= max_vindex,
                    index_cursor == span_start ==> min_vindex == orig.indices[span_start as int]
                        && max_vindex == orig.indices[span_start as int],
                    forall|q: int| span_start <= q < index_cursor ==> min_vindex
                        <= #[trigger] orig.indices[q] <= max_vindex,
                ensures
                    self@ == orig,
                    span_start as int % 3 == 0,
                    span_start <= index_cursor <= orig.indices.len(),
                    (index_cursor - span_start) as int % 3 == 0,
                    span_start < orig.indices.len(),
                    min_vindex <= max_vindex,
                    (max_vindex as int) < orig.vertices.len(),
                    max_vindex - min_vindex < MAX_U16_INDEX_RANGE,
                    min_vindex <= orig.indices[span_start as int] <= max_vindex,
                    index_cursor == span_start ==> min_vindex == orig.indices[span_start as int]
                        && max_vindex == orig.indices[span_start as int],
                    forall|q: int| span_start <= q < index_cursor ==> min_vindex
                        <= #[trigger] orig.indices[q] <= max_vindex,
                    index_cursor < orig.indices.len() ==> {
                        let e_min = min2(
                            min_vindex as int,
                            tri_min(orig, index_cursor as int / 3),
                        );
                        let e_max = max2(
                            max_vindex as int,
                            tri_max(orig, index_cursor as int / 3),
                        );
                        e_max - e_min >= MAX_U16_INDEX_RANGE
                    },
                decreases orig.indices.len() - index_cursor,
            {
                proof {
                    lemma_mod3_step(index_cursor as int, orig.indices.len() as int);
                    assert(index_cursor as int % 3 == 0) by (nonlinear_arith)
                        requires
                            span_start as int % 3 == 0,
                            (index_cursor - span_start) as int % 3 == 0,
                            0 <= span_start <= index_cursor,
                    ;
                    assert(index_cursor as int == 3 * (index_cursor as int / 3));
                }
                let i0 = self.indices[index_cursor];
                let i1 = self.indices[index_cursor + 1];
                let i2 = self.indices[index_cursor + 2];
                let mut new_min = min_vindex;
                let mut new_max = max_vindex;
                if i0 < new_min {
                    new_min = i0;
                }
                if i0 > new_max {
                    new_max = i0;
                }
                if i1 < new_min {
                    new_min = i1;
                }
                if i1 > new_max {
                    new_max = i1;
                }
                if i2 < new_min {
                    new_min = i2;
                }
                if i2 > new_max {
                    new_max = i2;
                }
                proof {
                    assert(new_min as int == min2(
                        min_vindex as int,
                        tri_min(orig, index_cursor as int / 3),
                    ));
                    assert(new_max as int == max2(
                        max_vindex as int,
                        tri_max(orig, index_cursor as int / 3),
                    ));
                }
                if new_max - new_min < 65536 {
                    min_vindex = new_min;
                    max_vindex = new_max;
                    index_cursor += 3;
                } else {
                    break;
                }
            }

            if index_cursor == span_start {
                proof {
                    let t0 = span_start as int / 3;
                    assert(span_start as int == 3 * t0);
                    assert(tri_min(orig, t0) <= orig.indices[3 * t0] as int <= tri_max(orig, t0));
                    assert(min2(min_vindex as int, tri_min(orig, t0)) == tri_min(orig, t0));
                    assert(max2(max_vindex as int, tri_max(orig, t0)) == tri_max(orig, t0));
                    assert(!tri_span_fits(orig, t0));
                    assert(3 * t0 + 2 < orig.indices.len()) by {
                        lemma_mod3_step(span_start as int, orig.indices.len() as int);
                    }
                    assert(t0 < tri_count(orig)) by (nonlinear_arith)
                        requires
                            3 * t0 + 2 < orig.indices.len(),
                            orig.indices.len() % 3 == 0,
                            tri_count(orig) == orig.indices.len() as int / 3,
                    ;
                    assert(has_oversize_triangle(orig));
                }
                return Err(MeshError::UnsplittableTriangle);
            }

            // Close the group: copy out its indices, rebased to the slice.
            let mut part_indices: Vec<u32> = Vec::new();
            let mut j = span_start;
            while j < index_cursor
                invariant
                    self@ == orig,
                    span_start <= j <= index_cursor <= orig.indices.len(),
                    min_vindex <= max_vindex,
                    forall|q: int| span_start <= q < index_cursor ==> min_vindex
                        <= #[trigger] orig.indices[q] <= max_vindex,
                    part_indices@.len() == j - span_start,
                    forall|q: int| 0 <= q < part_indices@.len() ==> part_indices@[q] as int
                        == orig.indices[span_start + q] as int - min_vindex as int,
                decreases index_cursor - j,
            {
                let idx = self.indices[j];
                part_indices.push(idx - min_vindex);
                j += 1;
            }

            // Copy out the touched contiguous vertex slice.
            let mut part_vertices: Vec<Vertex> = Vec::new();
            let vertex_count = self.vertices.len();
            proof {
                assert(max_vindex as int + 1 <= vertex_count as int);
            }
            let mut vi = min_vindex as usize;
            while vi < max_vindex as usize + 1
                invariant
                    self@ == orig,
                    min_vindex <= max_vindex,
                    (max_vindex as int) < orig.vertices.len(),
                    orig.vertices.len() <= usize::MAX,
                    min_vindex as int <= vi as int <= max_vindex as int + 1,
                    part_vertices@.len() == vi as int - min_vindex as int,
                    forall|q: int| 0 <= q < part_vertices@.len() ==> part_vertices@[q]
                        == orig.vertices[min_vindex as int + q],
                decreases max_vindex as int + 1 - vi,
            {
                let v = self.vertices[vi];
                part_vertices.push(v);
                vi += 1;
            }

            let part = Triangles {
                indices: part_indices,
                vertices: part_vertices,
                texture_id: self.texture_id,
            };
            proof {
                let pv = part@;
                let o = min_vindex as int;
                assert(pv.vertices =~= orig.vertices.subrange(o, o + pv.vertices.len() as int));
                assert((index_cursor - span_start) as int % 3 == 0);
                assert(pv.indices.len() % 3 == 0);
                assert(chunk_ok(orig, pv, o));
                assert(rebase_indices(pv.indices, o) =~= orig.indices.subrange(
                    span_start as int,
                    index_cursor as int,
                ));
                lemma_joined_push(views_of(output@), offs, pv, o);
                assert(views_of(output@.push(part)) =~= views_of(output@).push(pv));
                assert(orig.indices.subrange(0, span_start as int) + orig.indices.subrange(
                    span_start as int,
                    index_cursor as int,
                ) =~= orig.indices.subrange(0, index_cursor as int));
                // Every triangle of the closed group fits the 16-bit limit.
                assert forall|t: int| 0 <= t && 3 * t + 2 < index_cursor implies tri_span_fits(
                    orig,
                    t,
                ) by {
                    if 3 * t >= span_start {
                        assert(min_vindex <= orig.indices[3 * t] <= max_vindex);
                        assert(min_vindex <= orig.indices[3 * t + 1] <= max_vindex);
                        assert(min_vindex <= orig.indices[3 * t + 2] <= max_vindex);
                    }
                }
            }
            output.push(part);
            proof {
                offs = offs.push(min_vindex as int);
            }
        }

        proof {
            assert(orig.indices.subrange(0, index_cursor as int) =~= orig.indices);
            assert forall|t: int| 0 <= t < tri_count(orig) implies tri_span_fits(orig, t) by {
                assert(orig.indices.len() as int == 3 * (orig.indices.len() as int / 3));
                assert(3 * t + 2 < orig.indices.len()) by (nonlinear_arith)
                    requires
                        0 <= t < orig.indices.len() as int / 3,
                        orig.indices.len() as int == 3 * (orig.indices.len() as int / 3),
                ;
            }
            assert(split_reconstructs(orig, views_of(output@), offs));
            assert(exists|o: Seq<int>| split_reconstructs(orig, views_of(output@), o));
            assert(!has_oversize_triangle(orig));
            assert(split_ok(orig, output@));
        }
        Ok(output)
    }
}

} // verus!
