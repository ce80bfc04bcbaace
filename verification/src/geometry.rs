//! The unit quad that every sprite is an instance of.

use vstd::prelude::*;
use crate::instance::{push_words, words_bytes};
use crate::pipeline::{sprite_pipeline_state_of, FrontFace};

verus! {

/// Bit pattern of the number 0.0.
pub const ZERO: u32 = 0;

/// Bit pattern of the number 1.0.
pub const ONE: u32 = 0x3f80_0000;

/// Number of vertices of the quad.
pub const QUAD_VERTEX_COUNT: usize = 4;

/// The quad's vertices, four words each: position x, y and texture
/// coordinates u, v. The corners come in the order bottom left, bottom
/// right, top right, top left; v runs downwards.
pub open spec fn quad_vertex_words() -> Seq<u32> {
    seq![
        ZERO, ZERO, ZERO, ONE,
        ONE, ZERO, ONE, ONE,
        ONE, ONE, ONE, ZERO,
        ZERO, ONE, ZERO, ZERO,
    ]
}

/// The quad's indices: the triangle bottom left, top right, bottom right,
/// and the triangle bottom left, top left, top right. Both run clockwise.
pub open spec fn quad_indices() -> Seq<u16> {
    seq![0u16, 2u16, 1u16, 0u16, 3u16, 2u16]
}

/// The number that the bit pattern of one of the quad's coordinates stands
/// for. The quad has no coordinates but 0.0 and 1.0.
pub open spec fn unit_coordinate(bits: u32) -> int {
    if bits == ONE {
        1
    } else {
        0
    }
}

/// The position (x, y) of vertex `v` of the quad.
pub open spec fn quad_corner(v: int) -> (int, int) {
    (
        unit_coordinate(quad_vertex_words()[4 * v]),
        unit_coordinate(quad_vertex_words()[4 * v + 1]),
    )
}

/// Twice the signed area of the triangle `a`, `b`, `c`, with x to the right
/// and y upwards: positive when the corners run counter-clockwise, negative
/// when they run clockwise.
pub open spec fn signed_area_twice(a: (int, int), b: (int, int), c: (int, int)) -> int {
    (b.0 - a.0) * (c.1 - a.1) - (c.0 - a.0) * (b.1 - a.1)
}

/// The winding of the triangle `a`, `b`, `c`; a triangle without area has
/// none.
pub open spec fn winding(a: (int, int), b: (int, int), c: (int, int)) -> Option<FrontFace> {
    if signed_area_twice(a, b, c) > 0 {
        Some(FrontFace::Ccw)
    } else if signed_area_twice(a, b, c) < 0 {
        Some(FrontFace::Cw)
    } else {
        None
    }
}

/// The winding of triangle `t` of the quad, the first or the second of the
/// two that the index list names.
pub open spec fn quad_triangle_winding(t: int) -> Option<FrontFace> {
    winding(
        quad_corner(quad_indices()[3 * t] as int),
        quad_corner(quad_indices()[3 * t + 1] as int),
        quad_corner(quad_indices()[3 * t + 2] as int),
    )
}

/// Both triangles of the quad have the winding that the pipeline takes for
/// a front face, so culling back faces never removes a sprite. Together the
/// two triangles have the area of the unit square.
pub proof fn lemma_quad_faces_front()
    ensures
        quad_triangle_winding(0) == Some(sprite_pipeline_state_of().front_face),
        quad_triangle_winding(1) == Some(sprite_pipeline_state_of().front_face),
        quad_triangle_winding(0) == Some(FrontFace::Cw),
        signed_area_twice(quad_corner(0), quad_corner(2), quad_corner(1)) + signed_area_twice(
            quad_corner(0),
            quad_corner(3),
            quad_corner(2),
        ) == -2,
{
    assert(quad_corner(0) == (0int, 0int));
    assert(quad_corner(1) == (1int, 0int));
    assert(quad_corner(2) == (1int, 1int));
    assert(quad_corner(3) == (0int, 1int));
    assert((1int - 0) * (0int - 0) - (1int - 0) * (1int - 0) == -1) by (nonlinear_arith);
    assert((0int - 0) * (1int - 0) - (1int - 0) * (1int - 0) == -1) by (nonlinear_arith);
    assert(signed_area_twice((0int, 0int), (1int, 1int), (1int, 0int)) == -1);
    assert(signed_area_twice((0int, 0int), (0int, 1int), (1int, 1int)) == -1);
}

/// The little-endian byte encoding of a sequence of 16-bit indices.
pub open spec fn indices_bytes(indices: Seq<u16>) -> Seq<u8> {
    Seq::new(
        2 * indices.len(),
        |i: int|
            if i % 2 == 0 {
                (indices[i / 2] & 0xff) as u8
            } else {
                ((indices[i / 2] >> 8) & 0xff) as u8
            },
    )
}

/// The quad's vertex data as words.
pub fn quad_vertex_data() -> (v: [u32; 16])
    ensures
        v@ == quad_vertex_words(),
{
    let v: [u32; 16] = [
        ZERO, ZERO, ZERO, ONE,
        ONE, ZERO, ONE, ONE,
        ONE, ONE, ONE, ZERO,
        ZERO, ONE, ZERO, ZERO,
    ];
    assert(v@ =~= quad_vertex_words());
    v
}

/// The quad's index data.
pub fn quad_index_data() -> (v: [u16; 6])
    ensures
        v@ == quad_indices(),
        forall|i: int| 0 <= i < 6 ==> v@[i] < QUAD_VERTEX_COUNT,
{
    let v: [u16; 6] = [0, 2, 1, 0, 3, 2];
    assert(v@ =~= quad_indices());
    v
}

/// The contents of the quad's vertex buffer: 64 bytes.
pub fn quad_vertex_bytes() -> (b: Vec<u8>)
    ensures
        b@ == words_bytes(quad_vertex_words()),
        b@.len() == 64,
{
    let v = quad_vertex_data();
    let mut out: Vec<u8> = Vec::new();
    push_words(&mut out, v.as_slice());
    assert(out@ =~= words_bytes(quad_vertex_words()));
    out
}

/// The contents of the quad's index buffer: 12 bytes.
pub fn quad_index_bytes() -> (b: Vec<u8>)
    ensures
        b@ == indices_bytes(quad_indices()),
        b@.len() == 12,
{
    let v = quad_index_data();
    let mut out: Vec<u8> = Vec::new();
    let mut i: usize = 0;
    while i < 6
        invariant
            i <= 6,
            v@ == quad_indices(),
            out@.len() == 2 * i,
            forall|j: int| 0 <= j < 2 * i ==> out@[j] == indices_bytes(quad_indices())[j],
        decreases 6 - i,
    {
        let x: u16 = v[i];
        out.push((x & 0xff) as u8);
        out.push(((x >> 8) & 0xff) as u8);
        i += 1;
    }
    assert(out@ =~= indices_bytes(quad_indices()));
    out
}

} // verus!
