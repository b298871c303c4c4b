use mesh::color::Color32;
use mesh::math::Pos2;
use mesh::triangles::{MeshError, TextureId, Triangles};

fn white() -> Color32 {
    Color32::from_rgb(255, 255, 255)
}

// A batch under the 16-bit vertex limit comes back as a single element
// equal to the input.
#[test]
fn split_small_batch_is_identity() {
    let mut t = Triangles::with_texture(TextureId::Egui);
    for i in 0..300 {
        t.colored_vertex(Pos2::new(i, 0), white());
    }
    for i in 0..100 {
        t.add_triangle(3 * i, 3 * i + 1, 3 * i + 2);
    }
    let indices = t.indices.clone();
    let vertices = t.vertices.clone();
    let out = t.split_to_u16().unwrap();
    assert_eq!(out.len(), 1);
    assert_eq!(out[0].indices, indices);
    assert_eq!(out[0].vertices, vertices);
    assert_eq!(out[0].texture_id, TextureId::Egui);
}

// 70,000 vertices as 23,333 independent triangles with strictly
// increasing, non-overlapping triples: at least two outputs, every output
// within the 16-bit span, and rebasing reproduces the original triangles
// exactly, in order.
#[test]
fn split_large_batch_reconstructs_original() {
    let mut t = Triangles::with_texture(TextureId::Egui);
    for i in 0..70_000 {
        t.colored_vertex(Pos2::new(i, 0), white());
    }
    for i in 0..23_333u32 {
        t.add_triangle(3 * i, 3 * i + 1, 3 * i + 2);
    }
    assert!(t.is_valid());
    let original_indices = t.indices.clone();
    let out = t.split_to_u16().unwrap();
    assert!(out.len() >= 2);

    let mut rebased: Vec<u32> = Vec::new();
    let mut offset: u32 = 0;
    for part in &out {
        assert_eq!(part.texture_id, TextureId::Egui);
        assert!(part.is_valid());
        assert_eq!(part.indices.len() % 3, 0);
        let max = *part.indices.iter().max().unwrap();
        let min = *part.indices.iter().min().unwrap();
        assert!(max < 65536);
        assert!(max - min < 65536);
        // This input tiles the vertex array: each group's slice starts
        // where the previous one ended, so the group's vertex positions
        // recover its offset.
        assert_eq!(part.vertices[0].pos.x as u32, offset);
        for idx in &part.indices {
            rebased.push(offset + idx);
        }
        offset += part.vertices.len() as u32;
    }
    assert_eq!(rebased, original_indices);
}

// A single triangle spanning 65536 or more vertex positions cannot be
// split.
#[test]
fn split_rejects_oversize_triangle() {
    let mut t = Triangles::with_texture(TextureId::Egui);
    for i in 0..65_537 {
        t.colored_vertex(Pos2::new(i, 0), white());
    }
    t.add_triangle(0, 1, 65_536);
    assert!(t.is_valid());
    assert!(matches!(
        t.split_to_u16(),
        Err(MeshError::UnsplittableTriangle)
    ));
}

// The boundary case just under the error: a triangle spanning exactly
// 65535 positions still splits.
#[test]
fn split_accepts_widest_legal_triangle() {
    let mut t = Triangles::with_texture(TextureId::Egui);
    for i in 0..66_000 {
        t.colored_vertex(Pos2::new(i, 0), white());
    }
    t.add_triangle(0, 1, 65_535);
    t.add_triangle(65_997, 65_998, 65_999);
    let original_indices = t.indices.clone();
    let out = t.split_to_u16().unwrap();
    assert!(!out.is_empty());
    let mut rebased: Vec<u32> = Vec::new();
    for part in &out {
        assert!(part.is_valid());
        let base = part.vertices[0].pos.x as u32;
        for idx in &part.indices {
            assert!(*idx < 65536);
            rebased.push(base + idx);
        }
    }
    assert_eq!(rebased, original_indices);
}

// An empty batch with an oversized vertex array still splits, into groups
// of nothing.
#[test]
fn split_no_triangles() {
    let mut t = Triangles::with_texture(TextureId::Egui);
    for i in 0..70_000 {
        t.colored_vertex(Pos2::new(i, 0), white());
    }
    let out = t.split_to_u16().unwrap();
    let total: usize = out.iter().map(|p| p.indices.len()).sum();
    assert_eq!(total, 0);
}
