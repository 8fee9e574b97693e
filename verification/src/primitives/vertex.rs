//! Mesh vertices in exact arithmetic.
//!
//! Lengths and colour channels are whole numbers of thousandths, so that the
//! scene can be stated and compared without rounding. Whoever uploads the
//! data divides by `UNIT`.

use vstd::prelude::*;

verus! {

/// How many steps make one world unit, or one full colour channel.
pub const UNIT: i32 = 1000;

/// Bytes that one component takes once it is uploaded.
pub const COMPONENT_BYTES: u64 = 4;

/// A point or a direction, each coordinate in thousandths of a world unit.
#[derive(Debug, Clone, Copy, PartialEq, Eq)]
pub struct Vector3 {
    pub x: i32,
    pub y: i32,
    pub z: i32,
}

/// A colour, each channel in thousandths of full intensity.
#[derive(Debug, Clone, Copy, PartialEq, Eq)]
pub struct Color {
    pub r: i32,
    pub g: i32,
    pub b: i32,
}

/// One corner of the mesh.
#[derive(Debug, Clone, Copy, PartialEq, Eq)]
pub struct Vertex {
    pub position: Vector3,
    pub color: Color,
}

/// Where one attribute of a vertex lies and where the vertex stage reads it.
#[derive(Debug, Clone, Copy, PartialEq, Eq)]
pub struct VertexAttribute {
    pub offset: u64,
    pub shader_location: u32,
    pub components: u32,
}

/// How uploaded vertices lie in their buffer.
#[derive(Debug, Clone, Copy, PartialEq, Eq)]
pub struct VertexLayout {
    pub array_stride: u64,
    pub position: VertexAttribute,
    pub color: VertexAttribute,
}

/// The layout of `Vertex`: three components of position, then three of
/// colour, packed.
pub open spec fn vertex_layout() -> VertexLayout {
    VertexLayout {
        array_stride: 24,
        position: VertexAttribute { offset: 0, shader_location: 0, components: 3 },
        color: VertexAttribute { offset: 12, shader_location: 1, components: 3 },
    }
}

impl Vertex {
    /// The buffer layout of a vertex.
    pub fn layout() -> (layout: VertexLayout)
        ensures
            layout == vertex_layout(),
            layout.array_stride == (layout.position.components + layout.color.components)
                * COMPONENT_BYTES,
            layout.color.offset == layout.position.offset + layout.position.components
                * COMPONENT_BYTES,
    {
        let position = VertexAttribute { offset: 0, shader_location: 0, components: 3 };
        let color = VertexAttribute {
            offset: position.offset + 3 * COMPONENT_BYTES,
            shader_location: 1,
            components: 3,
        };
        VertexLayout { array_stride: 6 * COMPONENT_BYTES, position, color }
    }
}

} // verus!
