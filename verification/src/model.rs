//! Per-vertex data of a mesh, and the quad that covers the render target.

use vstd::prelude::*;
use crate::main_instance::{instance_attributes, INSTANCE_LOCATION_BASE};
use crate::vertex::{
    locations_disjoint, locations_from, tightly_packed, VertexAttribute, VertexBufferLayout,
    VertexFormat, VertexStepMode,
};

verus! {

/// Bytes of one vertex: 8 floats of 4 bytes each.
pub const VERTEX_STRIDE: u64 = 32;

/// One vertex of a mesh; each float as its bit pattern.
#[derive(Clone, Copy, Debug, PartialEq, Eq)]
pub struct ModelVertex {
    pub position: [u32; 3],
    pub tex_coords: [u32; 2],
    pub normal: [u32; 3],
}

/// The attributes of a vertex: position, texture coordinates, normal.
pub open spec fn vertex_attributes() -> Seq<VertexAttribute> {
    seq![
        VertexAttribute { offset: 0, shader_location: 0, format: VertexFormat::Float32x3 },
        VertexAttribute { offset: 12, shader_location: 1, format: VertexFormat::Float32x2 },
        VertexAttribute { offset: 20, shader_location: 2, format: VertexFormat::Float32x3 },
    ]
}

/// Whether `l` is the layout of a buffer of mesh vertices: one record of 32
/// bytes per vertex with the attributes of a vertex.
pub open spec fn is_vertex_layout(l: VertexBufferLayout) -> bool {
    &&& l.array_stride == VERTEX_STRIDE
    &&& l.step_mode == VertexStepMode::Vertex
    &&& l.attributes@ == vertex_attributes()
}

/// The per-instance inputs start at a location that no per-vertex input
/// uses, so both buffers can feed one draw.
pub proof fn lemma_vertex_and_instance_locations_disjoint()
    ensures
        locations_disjoint(vertex_attributes(), instance_attributes()),
        forall|i: int|
            0 <= i < vertex_attributes().len() ==> (
            #[trigger] vertex_attributes()[i]).shader_location < INSTANCE_LOCATION_BASE,
{
}

impl ModelVertex {
    /// The 8 words of the vertex, in buffer order.
    pub open spec fn words(self) -> Seq<u32> {
        self.position@ + self.tex_coords@ + self.normal@
    }

    /// How the input-assembly stage reads a buffer of vertices: one record
    /// of 32 bytes per vertex, at the locations 0, 1 and 2.
    pub fn desc() -> (r: VertexBufferLayout)
        ensures
            is_vertex_layout(r),
            tightly_packed(r.attributes@, VERTEX_STRIDE),
            locations_from(r.attributes@, 0),
    {
        let mut attributes: Vec<VertexAttribute> = Vec::new();
        attributes.push(
            VertexAttribute { offset: 0, shader_location: 0, format: VertexFormat::Float32x3 },
        );
        attributes.push(
            VertexAttribute { offset: 12, shader_location: 1, format: VertexFormat::Float32x2 },
        );
        attributes.push(
            VertexAttribute { offset: 20, shader_location: 2, format: VertexFormat::Float32x3 },
        );
        assert(attributes@ =~= vertex_attributes());
        VertexBufferLayout {
            array_stride: VERTEX_STRIDE,
            step_mode: VertexStepMode::Vertex,
            attributes,
        }
    }
}

} // verus!
