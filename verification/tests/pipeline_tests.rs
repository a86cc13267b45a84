use cube_render::layout::{
    vertex_buffer_layout, AttributeFormat, VertexAttribute, VertexStepMode,
};
use cube_render::pipeline::{
    fragment_entry_point, pipeline_config, vertex_entry_point, BlendMode, CullFace, FrontFace,
    PolygonMode, PrimitiveTopology,
};

#[test]
fn vertex_layout_is_tightly_packed_24_byte_stride() {
    let l = vertex_buffer_layout();
    assert_eq!(l.array_stride, 24);
    assert_eq!(l.step_mode, VertexStepMode::Vertex);
    assert_eq!(l.attributes.len(), 2);
    assert_eq!(
        l.attributes[0],
        VertexAttribute { format: AttributeFormat::Float32x3, offset: 0, shader_location: 0 }
    );
    assert_eq!(
        l.attributes[1],
        VertexAttribute { format: AttributeFormat::Float32x3, offset: 12, shader_location: 1 }
    );
    // no implicit padding: each attribute starts where the previous ends,
    // and the stride is the end of the last one
    assert_eq!(l.attributes[1].offset, l.attributes[0].offset + 12);
    assert_eq!(l.array_stride, l.attributes[1].offset + 12);
}

#[test]
fn pipeline_fixed_function_state() {
    let p = pipeline_config();
    assert_eq!(p.topology, PrimitiveTopology::TriangleList);
    assert_eq!(p.strip_index_format, None);
    assert_eq!(p.front_face, FrontFace::Ccw);
    assert_eq!(p.cull_mode, Some(CullFace::Back));
    assert_eq!(p.polygon_mode, PolygonMode::Fill);
    assert!(!p.unclipped_depth);
    assert!(!p.conservative);
    assert!(!p.has_depth_stencil);
    assert_eq!(p.blend, Some(BlendMode::Replace));
    assert_eq!(p.color_write_mask, 0xF);
    assert_eq!(p.sample_count, 1);
    assert_eq!(p.sample_mask, u64::MAX);
    assert!(!p.alpha_to_coverage_enabled);
    assert_eq!(p.multiview_layers, None);
}

#[test]
fn pipeline_has_no_bind_groups_or_push_constants() {
    let p = pipeline_config();
    assert_eq!(p.bind_group_layout_count, 0);
    assert_eq!(p.push_constant_range_count, 0);
}

#[test]
fn shader_entry_points_are_fixed() {
    assert_eq!(vertex_entry_point(), "vs_main");
    assert_eq!(fragment_entry_point(), "fs_main");
}
