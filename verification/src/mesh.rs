//! The vertex data of the triangle and how the graphics driver is told to
//! read it.

use vstd::prelude::*;
use crate::config::COORDINATES;

verus! {

/// Number of coordinates that make up one vertex.
pub const COMPONENTS: i32 = 3;

/// Size in bytes of one coordinate, a single-precision number.
pub const COMPONENT_BYTES: i32 = 4;

/// Distance in bytes between two vertices that lie directly after one
/// another.
pub const STRIDE: i32 = COMPONENTS * COMPONENT_BYTES;

/// Number of vertices of the triangle.
pub const VERTEX_COUNT: i32 = 3;

/// Size in bytes of the triangle's vertex buffer.
pub const BUFFER_BYTES: isize = 36;

/// The type of the components of a vertex attribute.
#[derive(Clone, Copy, Debug, PartialEq, Eq, Structural)]
pub enum ComponentKind {
    /// Single-precision floating point.
    Float,
}

/// How one input of the vertex stage is read from the vertex buffer.
#[derive(Clone, Copy, Debug, PartialEq, Eq, Structural)]
pub struct VertexAttribute {
    /// The input slot of the vertex stage that is fed.
    pub slot: u32,
    /// Number of components per vertex.
    pub components: i32,
    /// Type of each component.
    pub kind: ComponentKind,
    /// Whether integer data is to be scaled to the unit range.
    pub normalized: bool,
    /// Distance in bytes from one vertex to the next.
    pub stride: i32,
    /// Position in bytes of the first component in the buffer.
    pub offset: usize,
}

/// The layout of the triangle's vertex buffer: slot 0 is fed with three
/// single-precision numbers per vertex, taken as they are, one vertex
/// directly after the other, from the start of the buffer.
pub open spec fn packed_layout() -> VertexAttribute {
    VertexAttribute {
        slot: 0,
        components: COMPONENTS,
        kind: ComponentKind::Float,
        normalized: false,
        stride: STRIDE,
        offset: 0,
    }
}

/// Size in bytes of a vertex buffer that holds `coordinates`.
pub open spec fn buffer_bytes(coordinates: Seq<u32>) -> int {
    coordinates.len() * COMPONENT_BYTES
}

/// Number of whole vertices that `coordinates` describe.
pub open spec fn vertex_count(coordinates: Seq<u32>) -> int {
    coordinates.len() as int / COMPONENTS as int
}

/// Describes the one attribute of the triangle's vertices.
pub fn triangle_layout() -> (attribute: VertexAttribute)
    ensures
        attribute == packed_layout(),
{
    VertexAttribute {
        slot: 0,
        components: COMPONENTS,
        kind: ComponentKind::Float,
        normalized: false,
        stride: STRIDE,
        offset: 0,
    }
}

/// The sizes of the triangle are those of nine coordinates: they make
/// three vertices and fill thirty-six bytes.
pub proof fn lemma_triangle_sizes(coordinates: Seq<u32>)
    requires
        coordinates.len() == COORDINATES,
    ensures
        vertex_count(coordinates) == VERTEX_COUNT,
        buffer_bytes(coordinates) == BUFFER_BYTES,
{
}

/// A draw call over all vertices reads exactly the bytes of the buffer:
/// for vertex data that is a whole number of vertices, the number of
/// vertices times the stride of the layout is the size of the buffer.
pub proof fn lemma_draw_covers_buffer(coordinates: Seq<u32>)
    requires
        coordinates.len() % COMPONENTS as nat == 0,
    ensures
        vertex_count(coordinates) * packed_layout().stride == buffer_bytes(coordinates),
{
    let whole = coordinates.len() as int;
    assert(whole == 3 * (whole / 3) + whole % 3);
}

} // verus!
