//! The vertex buffer layout descriptor: how the 24-byte vertex record is
//! presented to the pipeline's vertex stage — array stride, per-vertex
//! stepping, and one attribute per field, each with a byte offset and a
//! shader location.

use vstd::prelude::*;

verus! {

/// The data format of one vertex attribute.
#[derive(Clone, Copy, Debug, PartialEq, Eq, Structural)]
pub enum AttributeFormat {
    Float32,
    Float32x2,
    Float32x3,
    Float32x4,
}

/// The size in bytes of a value of an attribute format.
pub open spec fn format_size(f: AttributeFormat) -> u64 {
    match f {
        AttributeFormat::Float32 => 4,
        AttributeFormat::Float32x2 => 8,
        AttributeFormat::Float32x3 => 12,
        AttributeFormat::Float32x4 => 16,
    }
}

/// One vertex attribute: where it sits in the record and which shader
/// input location consumes it.
#[derive(Clone, Copy, Debug, PartialEq, Eq, Structural)]
pub struct VertexAttribute {
    pub format: AttributeFormat,
    pub offset: u64,
    pub shader_location: u32,
}

/// Whether the buffer advances per vertex or per instance.
#[derive(Clone, Copy, Debug, PartialEq, Eq, Structural)]
pub enum VertexStepMode {
    Vertex,
    Instance,
}

/// The layout of one vertex buffer slot.
#[derive(Clone, Debug, PartialEq, Eq)]
pub struct VertexBufferLayout {
    pub array_stride: u64,
    pub step_mode: VertexStepMode,
    pub attributes: Vec<VertexAttribute>,
}

/// A layout is tightly packed when its first attribute starts at byte 0,
/// every later attribute starts exactly where the one before it ends, and
/// the stride is exactly the end of the last attribute — no implicit
/// padding anywhere in the record.
pub open spec fn tightly_packed(l: VertexBufferLayout) -> bool {
    &&& l.attributes@.len() > 0
    &&& l.attributes@[0].offset == 0
    &&& forall|i: int|
        1 <= i < l.attributes@.len() ==> (#[trigger] l.attributes@[i]).offset == l.attributes@[
            i - 1
        ].offset + format_size(l.attributes@[i - 1].format)
    &&& l.array_stride == l.attributes@.last().offset + format_size(l.attributes@.last().format)
}

/// The mesh vertex layout: 24-byte stride, per-vertex stepping, the
/// three-float position at byte offset 0 feeding shader location 0, and the
/// three-float color at byte offset 12 feeding shader location 1, with no
/// implicit padding.
pub fn vertex_buffer_layout() -> (r: VertexBufferLayout)
    ensures
        r.array_stride == 24,
        r.step_mode == VertexStepMode::Vertex,
        r.attributes@.len() == 2,
        r.attributes@[0] == (VertexAttribute {
            format: AttributeFormat::Float32x3,
            offset: 0,
            shader_location: 0,
        }),
        r.attributes@[1] == (VertexAttribute {
            format: AttributeFormat::Float32x3,
            offset: 12,
            shader_location: 1,
        }),
        tightly_packed(r),
{
    let mut attributes: Vec<VertexAttribute> = Vec::new();
    attributes.push(VertexAttribute {
        format: AttributeFormat::Float32x3,
        offset: 0,
        shader_location: 0,
    });
    attributes.push(VertexAttribute {
        format: AttributeFormat::Float32x3,
        offset: 12,
        shader_location: 1,
    });
    VertexBufferLayout { array_stride: 24, step_mode: VertexStepMode::Vertex, attributes }
}

} // verus!
