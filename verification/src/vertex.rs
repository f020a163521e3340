//! The static geometry: one triangle of three vertices, each with a position
//! and a color, and the layout under which the vertex buffer is bound to the
//! vertex stage.

use vstd::prelude::*;

verus! {

/// One vertex of the static geometry: a three-component position and a
/// three-component color, each component the raw bit pattern of a 32-bit
/// float channel.
#[derive(Clone, Copy, Debug, PartialEq, Eq, Structural)]
pub struct Vertex {
    pub px: u32,
    pub py: u32,
    pub pz: u32,
    pub cr: u32,
    pub cg: u32,
    pub cb: u32,
}

/// The number of vertices in the static geometry.
pub const VERTEX_COUNT: u32 = 3;

/// Bit patterns of the float components the geometry uses.
pub const F32_BITS_ZERO: u32 = 0x0000_0000;

/// See [`F32_BITS_ZERO`].
pub const F32_BITS_HALF: u32 = 0x3f00_0000;

/// See [`F32_BITS_ZERO`].
pub const F32_BITS_NEG_HALF: u32 = 0xbf00_0000;

/// See [`F32_BITS_ZERO`].
pub const F32_BITS_ONE: u32 = 0x3f80_0000;

/// The static geometry: one triangle in counter-clockwise order — top, lower
/// left, lower right — with one primary color channel per vertex.
pub open spec fn spec_vertices() -> Seq<Vertex> {
    seq![
        Vertex {
            px: F32_BITS_ZERO,
            py: F32_BITS_HALF,
            pz: F32_BITS_ZERO,
            cr: F32_BITS_ONE,
            cg: F32_BITS_ZERO,
            cb: F32_BITS_ZERO,
        },
        Vertex {
            px: F32_BITS_NEG_HALF,
            py: F32_BITS_NEG_HALF,
            pz: F32_BITS_ZERO,
            cr: F32_BITS_ZERO,
            cg: F32_BITS_ONE,
            cb: F32_BITS_ZERO,
        },
        Vertex {
            px: F32_BITS_HALF,
            py: F32_BITS_NEG_HALF,
            pz: F32_BITS_ZERO,
            cr: F32_BITS_ZERO,
            cg: F32_BITS_ONE,
            cb: F32_BITS_ZERO,
        },
    ]
}

/// The static geometry the vertex buffer is populated with once, at
/// construction; its length is the full vertex range of every draw call.
pub fn vertices() -> (v: Vec<Vertex>)
    ensures
        v@ == spec_vertices(),
        v@.len() == VERTEX_COUNT,
{
    let mut v: Vec<Vertex> = Vec::new();
    v.push(
        Vertex {
            px: F32_BITS_ZERO,
            py: F32_BITS_HALF,
            pz: F32_BITS_ZERO,
            cr: F32_BITS_ONE,
            cg: F32_BITS_ZERO,
            cb: F32_BITS_ZERO,
        },
    );
    v.push(
        Vertex {
            px: F32_BITS_NEG_HALF,
            py: F32_BITS_NEG_HALF,
            pz: F32_BITS_ZERO,
            cr: F32_BITS_ZERO,
            cg: F32_BITS_ONE,
            cb: F32_BITS_ZERO,
        },
    );
    v.push(
        Vertex {
            px: F32_BITS_HALF,
            py: F32_BITS_NEG_HALF,
            pz: F32_BITS_ZERO,
            cr: F32_BITS_ZERO,
            cg: F32_BITS_ONE,
            cb: F32_BITS_ZERO,
        },
    );
    proof {
        assert(v@ =~= spec_vertices());
    }
    v
}

/// The format of one vertex attribute as the vertex stage reads it.
#[derive(Clone, Copy, Debug, PartialEq, Eq, Structural)]
pub enum VertexFormat {
    Float32x2,
    Float32x3,
    Float32x4,
}

/// Whether the buffer is stepped per vertex or per instance.
#[derive(Clone, Copy, Debug, PartialEq, Eq, Structural)]
pub enum VertexStepMode {
    Vertex,
    Instance,
}

/// One attribute of the vertex layout: its byte offset within a vertex, the
/// shader location it feeds, and its format.
#[derive(Clone, Copy, Debug, PartialEq, Eq, Structural)]
pub struct VertexAttribute {
    pub offset: u64,
    pub shader_location: u32,
    pub format: VertexFormat,
}

/// The layout of the one vertex buffer: 24 bytes per vertex, stepped per
/// vertex, the position at offset 0 feeding location 0 and the color at
/// offset 12 feeding location 1, both three 32-bit floats.
#[derive(Clone, Copy, Debug, PartialEq, Eq, Structural)]
pub struct VertexBufferLayout {
    pub array_stride: u64,
    pub step_mode: VertexStepMode,
    pub position: VertexAttribute,
    pub color: VertexAttribute,
}

/// See [`VertexBufferLayout`].
pub open spec fn spec_vertex_layout_desc() -> VertexBufferLayout {
    VertexBufferLayout {
        array_stride: 24,
        step_mode: VertexStepMode::Vertex,
        position: VertexAttribute { offset: 0, shader_location: 0, format: VertexFormat::Float32x3 },
        color: VertexAttribute { offset: 12, shader_location: 1, format: VertexFormat::Float32x3 },
    }
}

/// Builds the vertex buffer layout the pipeline is compiled with.
pub fn vertex_layout_desc() -> (l: VertexBufferLayout)
    ensures
        l == spec_vertex_layout_desc(),
{
    VertexBufferLayout {
        array_stride: 24,
        step_mode: VertexStepMode::Vertex,
        position: VertexAttribute { offset: 0, shader_location: 0, format: VertexFormat::Float32x3 },
        color: VertexAttribute { offset: 12, shader_location: 1, format: VertexFormat::Float32x3 },
    }
}

} // verus!
