//! The fixed geometry: the five corners of a pentagon, the three triangles
//! that cover it, and how both lie in their buffers.

use vstd::prelude::*;

verus! {

/// One corner of the shape. Each coordinate is held as the bit pattern of a
/// single-precision number, so that the table below is exact.
#[derive(Clone, Copy, Debug, PartialEq, Eq)]
pub struct Vertex {
    /// x, y and z.
    pub position: [u32; 3],
    /// u and v in the texture.
    pub tex_coordinates: [u32; 2],
}

/// The bytes of one word.
pub const WORD_BYTES: usize = 4;

/// The words of a position: x, y and z.
pub const POSITION_WORDS: usize = 3;

/// The words of one vertex: three of position, two of texture coordinates.
pub const WORDS_PER_VERTEX: usize = 5;

/// The number of corners.
pub const VERTEX_COUNT: usize = 5;

/// The coordinates of the corners, counter-clockwise, each corner stored
/// once, five words a corner.
pub const COORDINATES: [u32; 25] = [
    0xBDB1D0D5, 0x3EFC1C5C, 0x00000000, 0x41169C5E, 0x3F7E0E2E,
    0xBEFD8236, 0x3D8E835A, 0x00000000, 0x3B9F7280, 0x3F11D06B,
    0xBE607229, 0xBEE6175F, 0x00000000, 0x3E8FC6EC, 0x3D4F4507,
    0x3EB826AA, 0xBEB1D51F, 0x00000000, 0x3F5C1355, 0x3E1C55C3,
    0x3EE208D8, 0x3E705E9C, 0x00000000, 0x3F71046C, 0x3F3C17A7,
];

/// The triangles, three corners each, by their place in the table.
pub const INDICES: [u16; 9] = [0, 1, 4, 1, 2, 4, 2, 3, 4];

/// The corner at place `i` of the table.
pub open spec fn vertex_at(i: int) -> Vertex {
    Vertex {
        position: [
            COORDINATES@[WORDS_PER_VERTEX * i],
            COORDINATES@[WORDS_PER_VERTEX * i + 1],
            COORDINATES@[WORDS_PER_VERTEX * i + 2],
        ],
        tex_coordinates: [
            COORDINATES@[WORDS_PER_VERTEX * i + 3],
            COORDINATES@[WORDS_PER_VERTEX * i + 4],
        ],
    }
}

/// The corners of the shape, in the order the indices count them.
pub fn vertices() -> (table: Vec<Vertex>)
    ensures
        table@.len() == VERTEX_COUNT,
        forall|i: int| 0 <= i < VERTEX_COUNT ==> table@[i] == vertex_at(i),
{
    let mut table: Vec<Vertex> = Vec::new();
    let mut i: usize = 0;
    while i < VERTEX_COUNT
        invariant
            i <= VERTEX_COUNT,
            table@.len() == i,
            forall|k: int| 0 <= k < i ==> table@[k] == vertex_at(k),
        decreases VERTEX_COUNT - i,
    {
        let at: usize = WORDS_PER_VERTEX * i;
        table.push(
            Vertex {
                position: [COORDINATES[at], COORDINATES[at + 1], COORDINATES[at + 2]],
                tex_coordinates: [COORDINATES[at + 3], COORDINATES[at + 4]],
            },
        );
        i = i + 1;
    }
    table
}

/// The number of corners, as a draw call counts them.
pub fn num_vertices() -> (n: u32)
    ensures
        n == VERTEX_COUNT,
        n * WORDS_PER_VERTEX == COORDINATES@.len(),
{
    VERTEX_COUNT as u32
}

/// The number of indices, as a draw call counts them.
pub fn num_indices() -> (n: u32)
    ensures
        n == INDICES@.len(),
{
    INDICES.len() as u32
}

/// Every index names a corner of the table, and the indices come in whole
/// triangles.
pub proof fn lemma_indices_name_vertices()
    ensures
        forall|i: int| 0 <= i < INDICES@.len() ==> (#[trigger] INDICES@[i]) < VERTEX_COUNT,
        INDICES@.len() % 3 == 0,
{
}

/// `wgpu::VertexFormat`, the shape of one vertex attribute, with its
/// variants as the crate defines them.
#[verifier::external_type_specification]
pub struct ExVertexFormat(wgpu::VertexFormat);

/// `wgpu::VertexStepMode`, how often a vertex buffer steps forward, with
/// its variants as the crate defines them.
#[verifier::external_type_specification]
pub struct ExVertexStepMode(wgpu::VertexStepMode);

/// `wgpu::VertexAttribute`, one input of the vertex shader, with its fields
/// as the crate defines them.
#[verifier::external_type_specification]
pub struct ExVertexAttribute(wgpu::VertexAttribute);

/// `wgpu::VertexBufferLayout`, how the vertices lie in their buffer, with
/// its fields as the crate defines them.
#[verifier::external_type_specification]
pub struct ExVertexBufferLayout<'a>(wgpu::VertexBufferLayout<'a>);

/// The inputs of the vertex shader: the position at location 0, and the
/// texture coordinates right behind it at location 1.
pub open spec fn vertex_attributes() -> Seq<wgpu::VertexAttribute> {
    seq![
        wgpu::VertexAttribute {
            format: wgpu::VertexFormat::Float32x3,
            offset: 0,
            shader_location: 0,
        },
        wgpu::VertexAttribute {
            format: wgpu::VertexFormat::Float32x2,
            offset: 12,
            shader_location: 1,
        },
    ]
}

impl Vertex {
    /// How the vertices lie in their buffer: one vertex after the other,
    /// each the three words of its position and then the two words of its
    /// texture coordinates.
    pub fn desc<'a>() -> (layout: wgpu::VertexBufferLayout<'a>)
        ensures
            layout.array_stride == 20,
            layout.step_mode == wgpu::VertexStepMode::Vertex,
            layout.attributes@ == vertex_attributes(),
            layout.attributes@[1].offset == WORD_BYTES * POSITION_WORDS,
            layout.array_stride == WORD_BYTES * WORDS_PER_VERTEX,
    {
        wgpu::VertexBufferLayout {
            array_stride: 20,
            step_mode: wgpu::VertexStepMode::Vertex,
            attributes: &[
                wgpu::VertexAttribute {
                    format: wgpu::VertexFormat::Float32x3,
                    offset: 0,
                    shader_location: 0,
                },
                wgpu::VertexAttribute {
                    format: wgpu::VertexFormat::Float32x2,
                    offset: 12,
                    shader_location: 1,
                },
            ],
        }
    }
}

/// The bytes of `indices` where each index stands low byte first.
pub open spec fn little_endian(indices: Seq<u16>) -> Seq<u8> {
    Seq::new(
        2 * indices.len(),
        |k: int|
            if k % 2 == 0 {
                (indices[k / 2] % 256) as u8
            } else {
                (indices[k / 2] / 256) as u8
            },
    )
}

/// The bytes of `indices` where each index stands high byte first.
pub open spec fn big_endian(indices: Seq<u16>) -> Seq<u8> {
    Seq::new(
        2 * indices.len(),
        |k: int|
            if k % 2 == 0 {
                (indices[k / 2] / 256) as u8
            } else {
                (indices[k / 2] % 256) as u8
            },
    )
}

/// `bytes` are `indices` as they lie in memory, in one of the two byte
/// orders a machine can have.
pub open spec fn in_memory(indices: Seq<u16>, bytes: Seq<u8>) -> bool {
    bytes == little_endian(indices) || bytes == big_endian(indices)
}

/// `bytemuck::cast_slice` from `u16` to `u8`. The cast hands out the same
/// memory as bytes: two for each index, in the machine's byte order. It
/// fails only for a target that is aligned more strictly or that leaves a
/// rest, and bytes do neither.
#[verifier::external_body]
fn cast_indices(indices: &[u16]) -> (bytes: &[u8])
    ensures
        in_memory(indices@, bytes@),
{
    bytemuck::cast_slice::<u16, u8>(indices)
}

/// The contents of the index buffer: the indices as they lie in memory.
pub fn index_bytes() -> (bytes: &'static [u8])
    ensures
        in_memory(INDICES@, bytes@),
        bytes@.len() == 2 * INDICES@.len(),
{
    cast_indices(&INDICES)
}

} // verus!
