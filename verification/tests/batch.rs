use mesh::color::{rgb, Color32};
use mesh::math::{Pos2, Rect, Vec2};
use mesh::triangles::{
    TextureId, Triangles, Vertex, INDEX_BYTES, TRIANGLES_FIXED_BYTES, VERTEX_BYTES,
};

fn rect(l: i32, t: i32, r: i32, b: i32) -> Rect {
    Rect::from_min_max(Pos2::new(l, t), Pos2::new(r, b))
}

fn red() -> Color32 {
    Color32::from_rgb(255, 0, 0)
}

#[test]
fn with_texture_starts_empty() {
    let t = Triangles::with_texture(TextureId::User(7));
    assert!(t.is_empty());
    assert_eq!(t.texture_id, TextureId::User(7));
    assert_eq!(t.indices.len(), 0);
    assert_eq!(t.vertices.len(), 0);
}

#[test]
fn add_triangle_appends_three_indices() {
    let mut t = Triangles::with_texture(TextureId::Egui);
    t.add_triangle(4, 5, 6);
    t.add_triangle(6, 5, 7);
    assert_eq!(t.indices, vec![4, 5, 6, 6, 5, 7]);
    assert_eq!(t.vertices.len(), 0);
}

#[test]
fn colored_vertex_uses_white_uv() {
    let mut t = Triangles::with_texture(TextureId::Egui);
    t.colored_vertex(Pos2::new(3, 4), red());
    assert_eq!(t.vertices.len(), 1);
    assert_eq!(t.indices.len(), 0);
    assert_eq!(t.vertices[0].pos, Pos2::new(3, 4));
    assert_eq!(t.vertices[0].uv, Pos2::new(0, 0));
    assert_eq!(t.vertices[0].color, red());
}

// After addRectWithUv on an empty batch: exactly 4 vertices and 6 indices;
// triangles (0,1,2) and (2,1,3); vertex 0 carries uv's left-top corner and
// vertex 3 its right-bottom corner.
#[test]
fn rect_with_uv_on_empty_batch() {
    let mut t = Triangles::with_texture(TextureId::User(1));
    t.add_rect_with_uv(rect(10, 20, 30, 40), rect(0, 0, 100, 200), red());
    assert_eq!(t.vertices.len(), 4);
    assert_eq!(t.indices.len(), 6);
    assert_eq!(t.indices, vec![0, 1, 2, 2, 1, 3]);
    assert_eq!(t.vertices[0].uv, Pos2::new(0, 0));
    assert_eq!(t.vertices[3].uv, Pos2::new(100, 200));
    // Emission order: left-top, right-top, left-bottom, right-bottom.
    assert_eq!(t.vertices[0].pos, Pos2::new(10, 20));
    assert_eq!(t.vertices[1].pos, Pos2::new(30, 20));
    assert_eq!(t.vertices[2].pos, Pos2::new(10, 40));
    assert_eq!(t.vertices[3].pos, Pos2::new(30, 40));
    assert!(t.is_valid());
}

#[test]
fn colored_rect_collapses_uv_to_white() {
    let mut t = Triangles::with_texture(TextureId::Egui);
    t.add_colored_rect(rect(1, 2, 5, 9), red());
    assert_eq!(t.vertices.len(), 4);
    assert_eq!(t.indices, vec![0, 1, 2, 2, 1, 3]);
    for v in &t.vertices {
        assert_eq!(v.uv, Pos2::new(0, 0));
        assert_eq!(v.color, red());
    }
}

#[test]
fn is_valid_spots_out_of_range_index() {
    let mut t = Triangles::with_texture(TextureId::Egui);
    t.colored_vertex(Pos2::new(0, 0), red());
    t.colored_vertex(Pos2::new(1, 0), red());
    t.colored_vertex(Pos2::new(2, 0), red());
    t.add_triangle(0, 1, 2);
    assert!(t.is_valid());
    t.add_triangle(0, 1, 3);
    assert!(!t.is_valid());
}

// Lengths add up and validity is preserved by a same-texture append.
#[test]
fn append_sums_lengths_and_keeps_validity() {
    let mut a = Triangles::with_texture(TextureId::User(1));
    a.add_rect_with_uv(rect(0, 0, 1, 1), rect(0, 0, 1, 1), red());
    let mut b = Triangles::with_texture(TextureId::User(1));
    b.add_rect_with_uv(rect(2, 2, 3, 3), rect(0, 0, 1, 1), red());
    b.add_rect_with_uv(rect(4, 4, 5, 5), rect(0, 0, 1, 1), red());
    assert!(a.is_valid() && b.is_valid());
    let (av, ai) = (a.vertices.len(), a.indices.len());
    let (bv, bi) = (b.vertices.len(), b.indices.len());
    assert_eq!(a.append(b), Ok(()));
    assert_eq!(a.vertices.len(), av + bv);
    assert_eq!(a.indices.len(), ai + bi);
    assert!(a.is_valid());
    // The merged triangles point at the rebased vertices.
    assert_eq!(a.indices, vec![0, 1, 2, 2, 1, 3, 4, 5, 6, 6, 5, 7, 8, 9, 10, 10, 9, 11]);
}

// Appending onto an empty batch hands over the other batch unchanged,
// field for field.
#[test]
fn append_to_empty_takes_other() {
    let mut a = Triangles::with_texture(TextureId::Egui);
    let mut b = Triangles::with_texture(TextureId::User(9));
    b.add_rect_with_uv(rect(0, 0, 2, 2), rect(0, 0, 1, 1), red());
    let b_clone = b.clone();
    assert_eq!(a.append(b), Ok(()));
    assert_eq!(a.texture_id, TextureId::User(9));
    assert_eq!(a.indices, b_clone.indices);
    assert_eq!(a.vertices, b_clone.vertices);
}

// A merge across different textures fails and leaves the target unchanged.
#[test]
fn append_rejects_texture_mismatch() {
    let mut a = Triangles::with_texture(TextureId::User(1));
    a.add_rect_with_uv(rect(0, 0, 1, 1), rect(0, 0, 1, 1), red());
    let before = a.clone();
    let mut b = Triangles::with_texture(TextureId::User(2));
    b.add_rect_with_uv(rect(2, 2, 3, 3), rect(0, 0, 1, 1), red());
    assert_eq!(a.append(b), Err(mesh::triangles::MeshError::InvalidMerge));
    assert_eq!(a.indices, before.indices);
    assert_eq!(a.vertices, before.vertices);
    assert_eq!(a.texture_id, before.texture_id);
}

// Translating by d and then by -d restores every vertex position.
#[test]
fn translate_round_trip_restores_positions() {
    let mut t = Triangles::with_texture(TextureId::Egui);
    t.colored_vertex(Pos2::new(10, -20), red());
    t.colored_vertex(Pos2::new(0, 5), red());
    t.colored_vertex(Pos2::new(-7, 3), red());
    let before = t.vertices.clone();
    t.translate(Vec2::new(13, -4));
    assert_eq!(t.vertices[0].pos, Pos2::new(23, -24));
    t.translate(Vec2::new(-13, 4));
    assert_eq!(t.vertices, before);
}

// The footprint follows the declared per-element sizes exactly and grows
// linearly with both arrays.
#[test]
fn bytes_used_matches_declared_sizes() {
    let mut t = Triangles::with_texture(TextureId::User(1));
    assert_eq!(t.bytes_used(), TRIANGLES_FIXED_BYTES);
    t.add_rect_with_uv(rect(0, 0, 1, 1), rect(0, 0, 1, 1), red());
    assert_eq!(
        t.bytes_used(),
        TRIANGLES_FIXED_BYTES + 4 * VERTEX_BYTES + 6 * INDEX_BYTES
    );
    t.add_rect_with_uv(rect(2, 2, 3, 3), rect(0, 0, 1, 1), red());
    assert_eq!(
        t.bytes_used(),
        TRIANGLES_FIXED_BYTES + 8 * VERTEX_BYTES + 12 * INDEX_BYTES
    );
}

#[test]
fn reserve_hints_do_not_change_contents() {
    let mut t = Triangles::with_texture(TextureId::Egui);
    t.colored_vertex(Pos2::new(1, 1), red());
    t.add_triangle(0, 0, 0);
    t.reserve_triangles(100);
    t.reserve_vertices(100);
    assert_eq!(t.vertices.len(), 1);
    assert_eq!(t.indices, vec![0, 0, 0]);
}

#[test]
fn packed_rgb_splits_channels() {
    let c = rgb(0xFF6676);
    assert_eq!(c, Color32::from_rgb(0xFF, 0x66, 0x76));
    assert_eq!(c.a, 255);
    let v = Vertex {
        pos: Pos2::new(0, 0),
        uv: Pos2::new(0, 0),
        color: rgb(0x2b303b),
    };
    assert_eq!(v.color.r, 0x2b);
    assert_eq!(v.color.g, 0x30);
    assert_eq!(v.color.b, 0x3b);
}
