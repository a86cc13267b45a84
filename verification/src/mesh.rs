//! The static cube mesh: an ordered sequence of 24 vertices (four per face)
//! and 36 indices (two triangles per face), together with proofs that every
//! index is in range and that every triangle winds counter-clockwise as seen
//! from outside the cube.
//!
//! Positions are held in half-units: a coordinate of `1` stands for one half
//! of a world unit, so the corners of the unit cube are at `-1` and `1`.
//! Color channels are held in whole units, `0` or `1` per channel.

use vstd::prelude::*;

verus! {

/// One mesh vertex: a position (in half-units) and a color (unit channels).
#[derive(Clone, Copy, Debug, PartialEq, Eq, Structural)]
pub struct Vertex {
    pub px: i32,
    pub py: i32,
    pub pz: i32,
    pub cr: u32,
    pub cg: u32,
    pub cb: u32,
}

/// The vertex of the cube mesh at position `i`, for `0 <= i < 24`.
/// Faces in order: front (z = 1), back (z = -1), right (x = 1),
/// left (x = -1), top (y = 1), bottom (y = -1); each face lists its four
/// corners counter-clockwise as seen from outside, and carries one color.
pub open spec fn cube_vertex(i: int) -> Vertex {
    // front, red
    if i == 0 { Vertex { px: -1i32, py: -1i32, pz: 1i32, cr: 1u32, cg: 0u32, cb: 0u32 } }
    else if i == 1 { Vertex { px: 1i32, py: -1i32, pz: 1i32, cr: 1u32, cg: 0u32, cb: 0u32 } }
    else if i == 2 { Vertex { px: 1i32, py: 1i32, pz: 1i32, cr: 1u32, cg: 0u32, cb: 0u32 } }
    else if i == 3 { Vertex { px: -1i32, py: 1i32, pz: 1i32, cr: 1u32, cg: 0u32, cb: 0u32 } }
    // back, green
    else if i == 4 { Vertex { px: 1i32, py: -1i32, pz: -1i32, cr: 0u32, cg: 1u32, cb: 0u32 } }
    else if i == 5 { Vertex { px: -1i32, py: -1i32, pz: -1i32, cr: 0u32, cg: 1u32, cb: 0u32 } }
    else if i == 6 { Vertex { px: -1i32, py: 1i32, pz: -1i32, cr: 0u32, cg: 1u32, cb: 0u32 } }
    else if i == 7 { Vertex { px: 1i32, py: 1i32, pz: -1i32, cr: 0u32, cg: 1u32, cb: 0u32 } }
    // right, blue
    else if i == 8 { Vertex { px: 1i32, py: -1i32, pz: 1i32, cr: 0u32, cg: 0u32, cb: 1u32 } }
    else if i == 9 { Vertex { px: 1i32, py: -1i32, pz: -1i32, cr: 0u32, cg: 0u32, cb: 1u32 } }
    else if i == 10 { Vertex { px: 1i32, py: 1i32, pz: -1i32, cr: 0u32, cg: 0u32, cb: 1u32 } }
    else if i == 11 { Vertex { px: 1i32, py: 1i32, pz: 1i32, cr: 0u32, cg: 0u32, cb: 1u32 } }
    // left, yellow
    else if i == 12 { Vertex { px: -1i32, py: -1i32, pz: -1i32, cr: 1u32, cg: 1u32, cb: 0u32 } }
    else if i == 13 { Vertex { px: -1i32, py: -1i32, pz: 1i32, cr: 1u32, cg: 1u32, cb: 0u32 } }
    else if i == 14 { Vertex { px: -1i32, py: 1i32, pz: 1i32, cr: 1u32, cg: 1u32, cb: 0u32 } }
    else if i == 15 { Vertex { px: -1i32, py: 1i32, pz: -1i32, cr: 1u32, cg: 1u32, cb: 0u32 } }
    // top, cyan
    else if i == 16 { Vertex { px: -1i32, py: 1i32, pz: 1i32, cr: 0u32, cg: 1u32, cb: 1u32 } }
    else if i == 17 { Vertex { px: 1i32, py: 1i32, pz: 1i32, cr: 0u32, cg: 1u32, cb: 1u32 } }
    else if i == 18 { Vertex { px: 1i32, py: 1i32, pz: -1i32, cr: 0u32, cg: 1u32, cb: 1u32 } }
    else if i == 19 { Vertex { px: -1i32, py: 1i32, pz: -1i32, cr: 0u32, cg: 1u32, cb: 1u32 } }
    // bottom, magenta
    else if i == 20 { Vertex { px: -1i32, py: -1i32, pz: -1i32, cr: 1u32, cg: 0u32, cb: 1u32 } }
    else if i == 21 { Vertex { px: 1i32, py: -1i32, pz: -1i32, cr: 1u32, cg: 0u32, cb: 1u32 } }
    else if i == 22 { Vertex { px: 1i32, py: -1i32, pz: 1i32, cr: 1u32, cg: 0u32, cb: 1u32 } }
    else { Vertex { px: -1i32, py: -1i32, pz: 1i32, cr: 1u32, cg: 0u32, cb: 1u32 } }
}

/// The index of the cube mesh at position `t`, for `0 <= t < 36`.
/// Face `f` contributes the triangles `(4f, 4f+1, 4f+2)` and
/// `(4f, 4f+2, 4f+3)`.
pub open spec fn cube_index(t: int) -> u16 {
    if t == 0 { 0u16 } else if t == 1 { 1u16 } else if t == 2 { 2u16 }
    else if t == 3 { 0u16 } else if t == 4 { 2u16 } else if t == 5 { 3u16 }
    else if t == 6 { 4u16 } else if t == 7 { 5u16 } else if t == 8 { 6u16 }
    else if t == 9 { 4u16 } else if t == 10 { 6u16 } else if t == 11 { 7u16 }
    else if t == 12 { 8u16 } else if t == 13 { 9u16 } else if t == 14 { 10u16 }
    else if t == 15 { 8u16 } else if t == 16 { 10u16 } else if t == 17 { 11u16 }
    else if t == 18 { 12u16 } else if t == 19 { 13u16 } else if t == 20 { 14u16 }
    else if t == 21 { 12u16 } else if t == 22 { 14u16 } else if t == 23 { 15u16 }
    else if t == 24 { 16u16 } else if t == 25 { 17u16 } else if t == 26 { 18u16 }
    else if t == 27 { 16u16 } else if t == 28 { 18u16 } else if t == 29 { 19u16 }
    else if t == 30 { 20u16 } else if t == 31 { 21u16 } else if t == 32 { 22u16 }
    else if t == 33 { 20u16 } else if t == 34 { 22u16 } else { 23u16 }
}

/// The cube's vertex sequence.
pub open spec fn cube_vertices_seq() -> Seq<Vertex> {
    Seq::new(24, |i: int| cube_vertex(i))
}

/// The cube's index sequence: 12 triangles, 36 entries.
pub open spec fn cube_indices_seq() -> Seq<u16> {
    Seq::new(36, |t: int| cube_index(t))
}

/// Builds the cube's vertex sequence.
pub fn cube_vertices() -> (r: Vec<Vertex>)
    ensures
        r@ == cube_vertices_seq(),
        r@.len() == 24,
{
    let mut v: Vec<Vertex> = Vec::new();
    v.push(Vertex { px: -1, py: -1, pz: 1, cr: 1, cg: 0, cb: 0 });
    v.push(Vertex { px: 1, py: -1, pz: 1, cr: 1, cg: 0, cb: 0 });
    v.push(Vertex { px: 1, py: 1, pz: 1, cr: 1, cg: 0, cb: 0 });
    v.push(Vertex { px: -1, py: 1, pz: 1, cr: 1, cg: 0, cb: 0 });
    v.push(Vertex { px: 1, py: -1, pz: -1, cr: 0, cg: 1, cb: 0 });
    v.push(Vertex { px: -1, py: -1, pz: -1, cr: 0, cg: 1, cb: 0 });
    v.push(Vertex { px: -1, py: 1, pz: -1, cr: 0, cg: 1, cb: 0 });
    v.push(Vertex { px: 1, py: 1, pz: -1, cr: 0, cg: 1, cb: 0 });
    v.push(Vertex { px: 1, py: -1, pz: 1, cr: 0, cg: 0, cb: 1 });
    v.push(Vertex { px: 1, py: -1, pz: -1, cr: 0, cg: 0, cb: 1 });
    v.push(Vertex { px: 1, py: 1, pz: -1, cr: 0, cg: 0, cb: 1 });
    v.push(Vertex { px: 1, py: 1, pz: 1, cr: 0, cg: 0, cb: 1 });
    v.push(Vertex { px: -1, py: -1, pz: -1, cr: 1, cg: 1, cb: 0 });
    v.push(Vertex { px: -1, py: -1, pz: 1, cr: 1, cg: 1, cb: 0 });
    v.push(Vertex { px: -1, py: 1, pz: 1, cr: 1, cg: 1, cb: 0 });
    v.push(Vertex { px: -1, py: 1, pz: -1, cr: 1, cg: 1, cb: 0 });
    v.push(Vertex { px: -1, py: 1, pz: 1, cr: 0, cg: 1, cb: 1 });
    v.push(Vertex { px: 1, py: 1, pz: 1, cr: 0, cg: 1, cb: 1 });
    v.push(Vertex { px: 1, py: 1, pz: -1, cr: 0, cg: 1, cb: 1 });
    v.push(Vertex { px: -1, py: 1, pz: -1, cr: 0, cg: 1, cb: 1 });
    v.push(Vertex { px: -1, py: -1, pz: -1, cr: 1, cg: 0, cb: 1 });
    v.push(Vertex { px: 1, py: -1, pz: -1, cr: 1, cg: 0, cb: 1 });
    v.push(Vertex { px: 1, py: -1, pz: 1, cr: 1, cg: 0, cb: 1 });
    v.push(Vertex { px: -1, py: -1, pz: 1, cr: 1, cg: 0, cb: 1 });
    proof {
        assert(v@ =~= cube_vertices_seq());
    }
    v
}

/// Builds the cube's index sequence.
pub fn cube_indices() -> (r: Vec<u16>)
    ensures
        r@ == cube_indices_seq(),
        r@.len() == 36,
{
    let mut v: Vec<u16> = Vec::new();
    v.push(0); v.push(1); v.push(2); v.push(0); v.push(2); v.push(3);
    v.push(4); v.push(5); v.push(6); v.push(4); v.push(6); v.push(7);
    v.push(8); v.push(9); v.push(10); v.push(8); v.push(10); v.push(11);
    v.push(12); v.push(13); v.push(14); v.push(12); v.push(14); v.push(15);
    v.push(16); v.push(17); v.push(18); v.push(16); v.push(18); v.push(19);
    v.push(20); v.push(21); v.push(22); v.push(20); v.push(22); v.push(23);
    proof {
        assert(v@ =~= cube_indices_seq());
    }
    v
}

/// The index count handed to the draw call: the index sequence's length,
/// cast losslessly to a 32-bit count.
pub fn index_count_of(indices: &Vec<u16>) -> (r: u32)
    requires
        indices@.len() < 0x1_0000_0000,
    ensures
        r == indices@.len(),
{
    indices.len() as u32
}

/// Every index of `indices` refers to a vertex position below `n`.
pub open spec fn indices_in_range(indices: Seq<u16>, n: int) -> bool {
    forall|t: int| 0 <= t < indices.len() ==> (#[trigger] indices[t]) < n
}

/// No index of the cube mesh reaches outside its 24 vertices; the largest
/// index is 23.
pub proof fn lemma_cube_indices_in_range()
    ensures
        indices_in_range(cube_indices_seq(), 24),
        cube_vertices_seq().len() == 24,
        cube_indices_seq().len() == 36,
{
    assert forall|t: int| 0 <= t < cube_indices_seq().len() implies
        (#[trigger] cube_indices_seq()[t]) < 24 by {
        assert(cube_indices_seq()[t] == cube_index(t));
    }
}

/// The position of a vertex, as a point in space (half-units).
pub open spec fn position_of(v: Vertex) -> (int, int, int) {
    (v.px as int, v.py as int, v.pz as int)
}

/// Componentwise difference of two points.
pub open spec fn v3_sub(a: (int, int, int), b: (int, int, int)) -> (int, int, int) {
    (a.0 - b.0, a.1 - b.1, a.2 - b.2)
}

/// Componentwise sum of two points.
pub open spec fn v3_add(a: (int, int, int), b: (int, int, int)) -> (int, int, int) {
    (a.0 + b.0, a.1 + b.1, a.2 + b.2)
}

/// Cross product, right-handed.
pub open spec fn v3_cross(a: (int, int, int), b: (int, int, int)) -> (int, int, int) {
    (a.1 * b.2 - a.2 * b.1, a.2 * b.0 - a.0 * b.2, a.0 * b.1 - a.1 * b.0)
}

/// Dot product.
pub open spec fn v3_dot(a: (int, int, int), b: (int, int, int)) -> int {
    a.0 * b.0 + a.1 * b.1 + a.2 * b.2
}

/// The triangle `a, b, c` winds counter-clockwise as seen from outside a
/// solid centered at the origin: its right-handed normal points to the same
/// side as the triangle's centroid, so a viewer placed outside, past the
/// triangle, sees the corners in counter-clockwise order.
pub open spec fn triangle_ccw_from_outside(a: Vertex, b: Vertex, c: Vertex) -> bool {
    v3_dot(
        v3_cross(
            v3_sub(position_of(b), position_of(a)),
            v3_sub(position_of(c), position_of(a)),
        ),
        v3_add(v3_add(position_of(a), position_of(b)), position_of(c)),
    ) > 0
}

/// Every complete triangle of the mesh winds counter-clockwise as seen from
/// outside.
pub open spec fn mesh_ccw(vertices: Seq<Vertex>, indices: Seq<u16>) -> bool {
    forall|t: int| 0 <= t && 3 * t + 2 < indices.len() ==> triangle_ccw_from_outside(
        vertices[#[trigger] indices[3 * t] as int],
        vertices[indices[3 * t + 1] as int],
        vertices[indices[3 * t + 2] as int],
    )
}

/// Evaluates the winding test on each of the cube's 12 triangles; the
/// determinant arithmetic is nonlinear, so this helper runs with nonlinear
/// arithmetic enabled and the facts are purely concrete.
#[verifier::nonlinear]
proof fn lemma_cube_triangle_cases()
    ensures
        triangle_ccw_from_outside(cube_vertex(0), cube_vertex(1), cube_vertex(2)),
        triangle_ccw_from_outside(cube_vertex(0), cube_vertex(2), cube_vertex(3)),
        triangle_ccw_from_outside(cube_vertex(4), cube_vertex(5), cube_vertex(6)),
        triangle_ccw_from_outside(cube_vertex(4), cube_vertex(6), cube_vertex(7)),
        triangle_ccw_from_outside(cube_vertex(8), cube_vertex(9), cube_vertex(10)),
        triangle_ccw_from_outside(cube_vertex(8), cube_vertex(10), cube_vertex(11)),
        triangle_ccw_from_outside(cube_vertex(12), cube_vertex(13), cube_vertex(14)),
        triangle_ccw_from_outside(cube_vertex(12), cube_vertex(14), cube_vertex(15)),
        triangle_ccw_from_outside(cube_vertex(16), cube_vertex(17), cube_vertex(18)),
        triangle_ccw_from_outside(cube_vertex(16), cube_vertex(18), cube_vertex(19)),
        triangle_ccw_from_outside(cube_vertex(20), cube_vertex(21), cube_vertex(22)),
        triangle_ccw_from_outside(cube_vertex(20), cube_vertex(22), cube_vertex(23)),
{
}

/// All 12 triangles of the cube mesh wind counter-clockwise as seen from
/// outside the cube, so with counter-clockwise front faces and back-face
/// culling every face is visible from its outward normal direction.
pub proof fn lemma_cube_winding_ccw()
    ensures
        mesh_ccw(cube_vertices_seq(), cube_indices_seq()),
{
    assert forall|t: int| 0 <= t && 3 * t + 2 < cube_indices_seq().len() implies
        triangle_ccw_from_outside(
            cube_vertices_seq()[#[trigger] cube_indices_seq()[3 * t] as int],
            cube_vertices_seq()[cube_indices_seq()[3 * t + 1] as int],
            cube_vertices_seq()[cube_indices_seq()[3 * t + 2] as int],
        ) by {
        assert(0 <= t < 12);
        let i0 = cube_index(3 * t) as int;
        let i1 = cube_index(3 * t + 1) as int;
        let i2 = cube_index(3 * t + 2) as int;
        assert(cube_indices_seq()[3 * t] == cube_index(3 * t));
        assert(cube_indices_seq()[3 * t + 1] == cube_index(3 * t + 1));
        assert(cube_indices_seq()[3 * t + 2] == cube_index(3 * t + 2));
        assert(0 <= i0 < 24 && 0 <= i1 < 24 && 0 <= i2 < 24);
        assert(cube_vertices_seq()[i0] == cube_vertex(i0));
        assert(cube_vertices_seq()[i1] == cube_vertex(i1));
        assert(cube_vertices_seq()[i2] == cube_vertex(i2));
        lemma_cube_triangle_cases();
        assert(triangle_ccw_from_outside(cube_vertex(i0), cube_vertex(i1), cube_vertex(i2)));
    }
}

} // verus!
