//! Vertex buffer layouts: how the input-assembly stage cuts a buffer into
//! shader inputs.

use vstd::prelude::*;

verus! {

/// Type of one shader input.
#[derive(Clone, Copy, Debug, PartialEq, Eq, Structural)]
pub enum VertexFormat {
    /// Two 32-bit floats.
    Float32x2,
    /// Three 32-bit floats.
    Float32x3,
    /// Four 32-bit floats.
    Float32x4,
    /// One signed 32-bit integer.
    Sint32,
}

impl VertexFormat {
    /// Bytes that a value of the format takes.
    pub open spec fn spec_size(self) -> u64 {
        match self {
            VertexFormat::Float32x2 => 8,
            VertexFormat::Float32x3 => 12,
            VertexFormat::Float32x4 => 16,
            VertexFormat::Sint32 => 4,
        }
    }

    /// Bytes that a value of the format takes.
    pub fn size(&self) -> (r: u64)
        ensures
            r == self.spec_size(),
    {
        match self {
            VertexFormat::Float32x2 => 8,
            VertexFormat::Float32x3 => 12,
            VertexFormat::Float32x4 => 16,
            VertexFormat::Sint32 => 4,
        }
    }
}

/// Whether the buffer advances once for each vertex or once for each
/// instance.
#[derive(Clone, Copy, Debug, PartialEq, Eq, Structural)]
pub enum VertexStepMode {
    Vertex,
    Instance,
}

/// One shader input: where it starts within a record and at which location
/// the shader reads it.
#[derive(Clone, Copy, Debug, PartialEq, Eq, Structural)]
pub struct VertexAttribute {
    pub offset: u64,
    pub shader_location: u32,
    pub format: VertexFormat,
}

/// The layout of one vertex buffer.
#[derive(Clone, Debug)]
pub struct VertexBufferLayout {
    pub array_stride: u64,
    pub step_mode: VertexStepMode,
    pub attributes: Vec<VertexAttribute>,
}

/// Where attribute `i` ends.
pub open spec fn attribute_end(attributes: Seq<VertexAttribute>, i: int) -> int {
    attributes[i].offset + attributes[i].format.spec_size()
}

/// Whether the attributes cover a record of `stride` bytes exactly: the
/// first starts at 0, each next one where the one before ends, and the last
/// ends at `stride`. Then none overlap and no byte is padding.
pub open spec fn tightly_packed(attributes: Seq<VertexAttribute>, stride: u64) -> bool {
    &&& attributes.len() > 0
    &&& attributes[0].offset == 0
    &&& forall|i: int|
        0 < i < attributes.len() ==> (#[trigger] attributes[i]).offset == attribute_end(
            attributes,
            i - 1,
        )
    &&& attribute_end(attributes, attributes.len() - 1) == stride
}

/// Whether the attributes take the shader locations `first`, `first + 1`,
/// and so on, in order.
pub open spec fn locations_from(attributes: Seq<VertexAttribute>, first: u32) -> bool {
    forall|i: int|
        0 <= i < attributes.len() ==> (#[trigger] attributes[i]).shader_location == first + i
}

/// Whether no shader location of `a` is one of `b`.
pub open spec fn locations_disjoint(a: Seq<VertexAttribute>, b: Seq<VertexAttribute>) -> bool {
    forall|i: int, j: int|
        0 <= i < a.len() && 0 <= j < b.len() ==> (#[trigger] a[i]).shader_location != (
        #[trigger] b[j]).shader_location
}

} // verus!
