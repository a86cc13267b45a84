//! The fixed graphics pipeline configuration: one immutable description of
//! every programmable and fixed-function choice the pipeline is built with,
//! assembled by a single builder and validated once. The cube is drawn as a
//! triangle list with counter-clockwise front faces, back-face culling,
//! plain fill rasterization, no depth/stencil testing, a single sample, and
//! alpha-replace blending with a full color write mask.

use vstd::prelude::*;

verus! {

/// How vertices are assembled into primitives.
#[derive(Clone, Copy, Debug, PartialEq, Eq, Structural)]
pub enum PrimitiveTopology {
    PointList,
    LineList,
    LineStrip,
    TriangleList,
    TriangleStrip,
}

/// The width of one entry of an index buffer.
#[derive(Clone, Copy, Debug, PartialEq, Eq, Structural)]
pub enum IndexFormat {
    Uint16,
    Uint32,
}

/// Which winding order marks a front-facing triangle.
#[derive(Clone, Copy, Debug, PartialEq, Eq, Structural)]
pub enum FrontFace {
    Ccw,
    Cw,
}

/// Which side of a triangle culling removes.
#[derive(Clone, Copy, Debug, PartialEq, Eq, Structural)]
pub enum CullFace {
    Front,
    Back,
}

/// How triangles are rasterized.
#[derive(Clone, Copy, Debug, PartialEq, Eq, Structural)]
pub enum PolygonMode {
    Fill,
    Line,
    Point,
}

/// How the fragment output is blended with the color target.
#[derive(Clone, Copy, Debug, PartialEq, Eq, Structural)]
pub enum BlendMode {
    Replace,
    AlphaBlending,
    PremultipliedAlphaBlending,
}

/// The whole pipeline description. Built exactly once, never mutated.
#[derive(Clone, Debug, PartialEq, Eq)]
pub struct PipelineConfig {
    /// The pipeline layout: no bind groups and no push constants.
    pub bind_group_layout_count: u32,
    pub push_constant_range_count: u32,
    pub topology: PrimitiveTopology,
    pub strip_index_format: Option<IndexFormat>,
    pub front_face: FrontFace,
    pub cull_mode: Option<CullFace>,
    pub polygon_mode: PolygonMode,
    pub unclipped_depth: bool,
    pub conservative: bool,
    pub has_depth_stencil: bool,
    pub blend: Option<BlendMode>,
    /// One bit per color channel, low to high: red, green, blue, alpha.
    pub color_write_mask: u32,
    pub sample_count: u32,
    pub sample_mask: u64,
    pub alpha_to_coverage_enabled: bool,
    pub multiview_layers: Option<u32>,
}

/// The one pipeline description this renderer uses.
pub open spec fn fixed_pipeline_config() -> PipelineConfig {
    PipelineConfig {
        bind_group_layout_count: 0u32,
        push_constant_range_count: 0u32,
        topology: PrimitiveTopology::TriangleList,
        strip_index_format: None,
        front_face: FrontFace::Ccw,
        cull_mode: Some(CullFace::Back),
        polygon_mode: PolygonMode::Fill,
        unclipped_depth: false,
        conservative: false,
        has_depth_stencil: false,
        blend: Some(BlendMode::Replace),
        color_write_mask: 0xFu32,
        sample_count: 1u32,
        sample_mask: 0xFFFF_FFFF_FFFF_FFFFu64,
        alpha_to_coverage_enabled: false,
        multiview_layers: None,
    }
}

/// Builds the pipeline description: triangle-list topology with no strip
/// format, counter-clockwise front faces with back-face culling, fill
/// rasterization, no depth/stencil state, a single sample with every sample
/// bit enabled, alpha-replace blending over all four channels, no bind
/// groups and no push constants.
pub fn pipeline_config() -> (r: PipelineConfig)
    ensures
        r == fixed_pipeline_config(),
        r.topology == PrimitiveTopology::TriangleList,
        r.strip_index_format is None,
        r.front_face == FrontFace::Ccw,
        r.cull_mode == Some(CullFace::Back),
        r.polygon_mode == PolygonMode::Fill,
        !r.unclipped_depth && !r.conservative && !r.has_depth_stencil,
        r.blend == Some(BlendMode::Replace),
        r.color_write_mask == 0xF,
        r.sample_count == 1,
        r.sample_mask == 0xFFFF_FFFF_FFFF_FFFFu64,
        !r.alpha_to_coverage_enabled,
        r.multiview_layers is None,
        r.bind_group_layout_count == 0,
        r.push_constant_range_count == 0,
{
    PipelineConfig {
        bind_group_layout_count: 0,
        push_constant_range_count: 0,
        topology: PrimitiveTopology::TriangleList,
        strip_index_format: None,
        front_face: FrontFace::Ccw,
        cull_mode: Some(CullFace::Back),
        polygon_mode: PolygonMode::Fill,
        unclipped_depth: false,
        conservative: false,
        has_depth_stencil: false,
        blend: Some(BlendMode::Replace),
        color_write_mask: 0xF,
        sample_count: 1,
        sample_mask: 0xFFFF_FFFF_FFFF_FFFF,
        alpha_to_coverage_enabled: false,
        multiview_layers: None,
    }
}

/// The vertex stage's entry point in the shader module.
pub fn vertex_entry_point() -> (r: &'static str)
    ensures
        r@ == "vs_main"@,
{
    "vs_main"
}

/// The fragment stage's entry point in the shader module.
pub fn fragment_entry_point() -> (r: &'static str)
    ensures
        r@ == "fs_main"@,
{
    "fs_main"
}

} // verus!
