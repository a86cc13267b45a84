//! Mesh buffer upload: turns the vertex and index sequences into the exact
//! byte images that are written into the GPU-resident buffers, in the layout
//! the pipeline's vertex state declares — each vertex 24 bytes, position at
//! byte offset 0 and color at byte offset 12, each field a little-endian
//! 32-bit float, each index a little-endian 16-bit integer.

use vstd::prelude::*;
use crate::mesh::Vertex;

verus! {

/// The four little-endian bytes of a 32-bit word.
pub open spec fn le_bytes_u32(w: u32) -> Seq<u8> {
    seq![
        (w % 0x100) as u8,
        ((w / 0x100) % 0x100) as u8,
        ((w / 0x1_0000) % 0x100) as u8,
        ((w / 0x100_0000) % 0x100) as u8,
    ]
}

/// The two little-endian bytes of a 16-bit word.
pub open spec fn le_bytes_u16(x: u16) -> Seq<u8> {
    seq![(x % 0x100) as u8, ((x / 0x100) % 0x100) as u8]
}

/// The 32-bit float bit pattern of a position coordinate given in
/// half-units: `-1` encodes -0.5, `0` encodes 0.0 and `1` encodes 0.5.
/// No other coordinate occurs in a mesh; any other value encodes as 0.0.
pub open spec fn half_unit_bits(c: int) -> u32 {
    if c == 1 {
        0x3F00_0000
    } else if c == -1 {
        0xBF00_0000
    } else {
        0
    }
}

/// The 32-bit float bit pattern of a color channel given in whole units:
/// `1` encodes 1.0 and `0` encodes 0.0. No other channel value occurs in a
/// mesh; any other value encodes as 0.0.
pub open spec fn unit_bits(c: int) -> u32 {
    if c == 1 {
        0x3F80_0000
    } else {
        0
    }
}

/// The 12-byte image of a vertex's position: three little-endian 32-bit
/// floats, x then y then z.
pub open spec fn position_bytes(v: Vertex) -> Seq<u8> {
    le_bytes_u32(half_unit_bits(v.px as int)) + le_bytes_u32(half_unit_bits(v.py as int))
        + le_bytes_u32(half_unit_bits(v.pz as int))
}

/// The 12-byte image of a vertex's color: three little-endian 32-bit
/// floats, red then green then blue.
pub open spec fn color_bytes(v: Vertex) -> Seq<u8> {
    le_bytes_u32(unit_bits(v.cr as int)) + le_bytes_u32(unit_bits(v.cg as int))
        + le_bytes_u32(unit_bits(v.cb as int))
}

/// The 24-byte image of one vertex: position, then color, nothing between.
pub open spec fn vertex_bytes(v: Vertex) -> Seq<u8> {
    position_bytes(v) + color_bytes(v)
}

/// A vertex's byte image is tightly packed: 24 bytes in all, the position
/// at byte offset 0 and the color at byte offset 12.
pub proof fn lemma_vertex_bytes_layout(v: Vertex)
    ensures
        vertex_bytes(v).len() == 24,
        vertex_bytes(v).subrange(0, 12) == position_bytes(v),
        vertex_bytes(v).subrange(12, 24) == color_bytes(v),
{
    assert(vertex_bytes(v).subrange(0, 12) =~= position_bytes(v));
    assert(vertex_bytes(v).subrange(12, 24) =~= color_bytes(v));
}

/// Appends the four little-endian bytes of `w`.
fn push_u32_le(out: &mut Vec<u8>, w: u32)
    ensures
        final(out)@ == old(out)@ + le_bytes_u32(w),
{
    let ghost orig = out@;
    out.push((w % 0x100) as u8);
    out.push(((w / 0x100) % 0x100) as u8);
    out.push(((w / 0x1_0000) % 0x100) as u8);
    out.push(((w / 0x100_0000) % 0x100) as u8);
    proof {
        assert(out@ =~= orig + le_bytes_u32(w));
    }
}

/// The float bit pattern of one position coordinate (half-units).
fn half_unit_bits_of(c: i32) -> (r: u32)
    ensures
        r == half_unit_bits(c as int),
{
    if c == 1 {
        0x3F00_0000
    } else if c == -1 {
        0xBF00_0000
    } else {
        0
    }
}

/// The float bit pattern of one color channel (whole units).
fn unit_bits_of(c: u32) -> (r: u32)
    ensures
        r == unit_bits(c as int),
{
    if c == 1 {
        0x3F80_0000
    } else {
        0
    }
}

/// The byte image of a whole vertex sequence: each vertex at byte offset
/// `24 * i`, encoded as [`vertex_bytes`] says.
#[verifier::rlimit(50)]
pub fn vertex_buffer_bytes(vertices: &Vec<Vertex>) -> (r: Vec<u8>)
    ensures
        r@.len() == 24 * vertices@.len(),
        forall|i: int|
            0 <= i < vertices@.len() ==> r@.subrange(24 * i, 24 * i + 24) == vertex_bytes(
                #[trigger] vertices@[i],
            ),
{
    let mut out: Vec<u8> = Vec::new();
    let mut k: usize = 0;
    while k < vertices.len()
        invariant
            k <= vertices@.len(),
            out@.len() == 24 * k,
            forall|i: int|
                0 <= i < k ==> out@.subrange(24 * i, 24 * i + 24) == vertex_bytes(
                    #[trigger] vertices@[i],
                ),
        decreases vertices@.len() - k,
    {
        let ghost before = out@;
        let v = vertices[k];
        push_u32_le(&mut out, half_unit_bits_of(v.px));
        push_u32_le(&mut out, half_unit_bits_of(v.py));
        push_u32_le(&mut out, half_unit_bits_of(v.pz));
        push_u32_le(&mut out, unit_bits_of(v.cr));
        push_u32_le(&mut out, unit_bits_of(v.cg));
        push_u32_le(&mut out, unit_bits_of(v.cb));
        proof {
            assert(out@ =~= before + vertex_bytes(v));
            assert forall|i: int| 0 <= i < k + 1 implies out@.subrange(
                24 * i,
                24 * i + 24,
            ) == vertex_bytes(#[trigger] vertices@[i]) by {
                if i < k {
                    assert(out@.subrange(24 * i, 24 * i + 24) =~= before.subrange(
                        24 * i,
                        24 * i + 24,
                    ));
                } else {
                    assert(out@.subrange(24 * i, 24 * i + 24) =~= vertex_bytes(v));
                }
            }
        }
        k = k + 1;
    }
    out
}

/// The byte image of a whole index sequence: each index at byte offset
/// `2 * i`, as a little-endian 16-bit integer.
pub fn index_buffer_bytes(indices: &Vec<u16>) -> (r: Vec<u8>)
    ensures
        r@.len() == 2 * indices@.len(),
        forall|i: int|
            0 <= i < indices@.len() ==> r@.subrange(2 * i, 2 * i + 2) == le_bytes_u16(
                #[trigger] indices@[i],
            ),
{
    let mut out: Vec<u8> = Vec::new();
    let mut k: usize = 0;
    while k < indices.len()
        invariant
            k <= indices@.len(),
            out@.len() == 2 * k,
            forall|i: int|
                0 <= i < k ==> out@.subrange(2 * i, 2 * i + 2) == le_bytes_u16(
                    #[trigger] indices@[i],
                ),
        decreases indices@.len() - k,
    {
        let ghost before = out@;
        let x = indices[k];
        out.push((x % 0x100) as u8);
        out.push(((x / 0x100) % 0x100) as u8);
        proof {
            assert(out@ =~= before + le_bytes_u16(x));
            assert forall|i: int| 0 <= i < k + 1 implies out@.subrange(2 * i, 2 * i + 2)
                == le_bytes_u16(#[trigger] indices@[i]) by {
                if i < k {
                    assert(out@.subrange(2 * i, 2 * i + 2) =~= before.subrange(2 * i, 2 * i + 2));
                } else {
                    assert(out@.subrange(2 * i, 2 * i + 2) =~= le_bytes_u16(x));
                }
            }
        }
        k = k + 1;
    }
    out
}

} // verus!
