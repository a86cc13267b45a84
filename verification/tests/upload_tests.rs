use cube_render::mesh::{cube_indices, cube_vertices, Vertex};
use cube_render::upload::{index_buffer_bytes, vertex_buffer_bytes};

/// The float value a position coordinate in half-units stands for.
fn coord_value(c: i32) -> f32 {
    c as f32 * 0.5
}

/// The float value a color channel in whole units stands for.
fn channel_value(c: u32) -> f32 {
    c as f32
}

fn expected_vertex_bytes(v: &Vertex) -> Vec<u8> {
    let mut out = Vec::new();
    out.extend_from_slice(&coord_value(v.px).to_le_bytes());
    out.extend_from_slice(&coord_value(v.py).to_le_bytes());
    out.extend_from_slice(&coord_value(v.pz).to_le_bytes());
    out.extend_from_slice(&channel_value(v.cr).to_le_bytes());
    out.extend_from_slice(&channel_value(v.cg).to_le_bytes());
    out.extend_from_slice(&channel_value(v.cb).to_le_bytes());
    out
}

#[test]
fn vertex_buffer_is_24_bytes_per_vertex() {
    let v = cube_vertices();
    let bytes = vertex_buffer_bytes(&v);
    assert_eq!(bytes.len(), 24 * v.len());
}

#[test]
fn vertex_bytes_match_ieee754_little_endian_floats() {
    let v = cube_vertices();
    let bytes = vertex_buffer_bytes(&v);
    for (i, vert) in v.iter().enumerate() {
        assert_eq!(&bytes[24 * i..24 * (i + 1)], &expected_vertex_bytes(vert)[..]);
    }
}

#[test]
fn position_at_offset_0_color_at_offset_12() {
    let v = cube_vertices();
    let bytes = vertex_buffer_bytes(&v);
    // first vertex: position (-0.5, -0.5, 0.5), color (1.0, 0.0, 0.0)
    assert_eq!(&bytes[0..4], &(-0.5f32).to_le_bytes());
    assert_eq!(&bytes[4..8], &(-0.5f32).to_le_bytes());
    assert_eq!(&bytes[8..12], &(0.5f32).to_le_bytes());
    assert_eq!(&bytes[12..16], &(1.0f32).to_le_bytes());
    assert_eq!(&bytes[16..20], &(0.0f32).to_le_bytes());
    assert_eq!(&bytes[20..24], &(0.0f32).to_le_bytes());
}

#[test]
fn index_buffer_is_2_bytes_per_index_little_endian() {
    let idx = cube_indices();
    let bytes = index_buffer_bytes(&idx);
    assert_eq!(bytes.len(), 2 * idx.len());
    for (i, x) in idx.iter().enumerate() {
        assert_eq!(&bytes[2 * i..2 * i + 2], &x.to_le_bytes());
    }
}

#[test]
fn index_buffer_of_empty_sequence_is_empty() {
    let bytes = index_buffer_bytes(&Vec::new());
    assert!(bytes.is_empty());
}
