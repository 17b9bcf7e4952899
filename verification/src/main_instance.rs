//! Per-instance data of the main scene pass.
//!
//! Floating-point numbers appear here as their IEEE 754 bit patterns: the
//! crate moves them and never computes with them.

use vstd::prelude::*;
use crate::vertex::{
    locations_from, tightly_packed, VertexAttribute, VertexBufferLayout, VertexFormat,
    VertexStepMode,
};

verus! {

/// Shader location of the first per-instance input. The locations below it
/// are left to the per-vertex inputs of the mesh that is drawn.
pub const INSTANCE_LOCATION_BASE: u32 = 5;

/// Bytes of one encoded instance: 16 floats and 2 integers of 4 bytes each.
pub const INSTANCE_STRIDE: u64 = 72;

/// One drawn copy of a mesh.
#[derive(Clone, Copy, Debug, PartialEq, Eq)]
pub struct MainInstance {
    /// The model transform, position and orientation composed into a 4x4
    /// matrix: 16 floats as bit patterns, in the order in which the shader
    /// reads them, four at a time.
    pub model: [u32; 16],
    /// Whether the shader samples with the linear sampler or the nearest.
    pub use_linear_sampler: bool,
    /// Layer of the texture array to draw.
    pub texture_index: i32,
}

/// An instance as the vertex stage reads it: the matrix, then the sampler
/// flag, then the layer index, with no padding.
#[derive(Clone, Copy, Debug, PartialEq, Eq)]
pub struct MainInstanceRaw {
    pub model: [u32; 16],
    pub use_linear_sampler: i32,
    pub texture_index: i32,
}

impl MainInstance {
    /// The raw form of the instance, as mathematics.
    pub open spec fn spec_to_raw(self) -> MainInstanceRaw {
        MainInstanceRaw {
            model: self.model,
            use_linear_sampler: if self.use_linear_sampler {
                1
            } else {
                0
            },
            texture_index: self.texture_index,
        }
    }

    /// The raw form of the instance: the same matrix and layer index, the
    /// flag as 1 or 0.
    pub fn to_raw(&self) -> (r: MainInstanceRaw)
        ensures
            r == self.spec_to_raw(),
    {
        MainInstanceRaw {
            model: self.model,
            use_linear_sampler: if self.use_linear_sampler {
                1
            } else {
                0
            },
            texture_index: self.texture_index,
        }
    }
}

/// The attributes of an encoded instance: the four rows of the matrix, the
/// sampler flag and the layer index.
pub open spec fn instance_attributes() -> Seq<VertexAttribute> {
    seq![
        VertexAttribute { offset: 0, shader_location: 5, format: VertexFormat::Float32x4 },
        VertexAttribute { offset: 16, shader_location: 6, format: VertexFormat::Float32x4 },
        VertexAttribute { offset: 32, shader_location: 7, format: VertexFormat::Float32x4 },
        VertexAttribute { offset: 48, shader_location: 8, format: VertexFormat::Float32x4 },
        VertexAttribute { offset: 64, shader_location: 9, format: VertexFormat::Sint32 },
        VertexAttribute { offset: 68, shader_location: 10, format: VertexFormat::Sint32 },
    ]
}

/// Whether `l` is the layout of a buffer of encoded instances: one record
/// of 72 bytes per instance with the attributes of an instance.
pub open spec fn is_instance_layout(l: VertexBufferLayout) -> bool {
    &&& l.array_stride == INSTANCE_STRIDE
    &&& l.step_mode == VertexStepMode::Instance
    &&& l.attributes@ == instance_attributes()
}

impl MainInstanceRaw {
    /// The 18 words of the record, in buffer order.
    pub open spec fn words(self) -> Seq<u32> {
        self.model@.push(self.use_linear_sampler as u32).push(self.texture_index as u32)
    }

    /// Appends the 18 words of the record to `out`.
    pub fn push_words(&self, out: &mut Vec<u32>)
        ensures
            final(out)@ == old(out)@ + self.words(),
    {
        let mut k: usize = 0;
        while k < 16
            invariant
                k <= 16,
                out@ == old(out)@ + self.model@.take(k as int),
            decreases 16 - k,
        {
            out.push(self.model[k]);
            assert(self.model@.take(k + 1) == self.model@.take(k as int).push(
                self.model@[k as int],
            ));
            k += 1;
        }
        assert(self.model@.take(16) == self.model@);
        out.push(self.use_linear_sampler as u32);
        out.push(self.texture_index as u32);
        assert(out@ =~= old(out)@ + self.words());
    }

    /// How the input-assembly stage reads a buffer of encoded instances: one
    /// record of 72 bytes per instance, the matrix as four inputs of four
    /// floats, then the two integers, at the locations from
    /// [`INSTANCE_LOCATION_BASE`] on.
    pub fn desc() -> (r: VertexBufferLayout)
        ensures
            is_instance_layout(r),
            tightly_packed(r.attributes@, INSTANCE_STRIDE),
            locations_from(r.attributes@, INSTANCE_LOCATION_BASE),
    {
        let mut attributes: Vec<VertexAttribute> = Vec::new();
        let mut row: u32 = 0;
        while row < 4
            invariant
                row <= 4,
                attributes@ == instance_attributes().take(row as int),
            decreases 4 - row,
        {
            attributes.push(
                VertexAttribute {
                    offset: 16 * (row as u64),
                    shader_location: INSTANCE_LOCATION_BASE + row,
                    format: VertexFormat::Float32x4,
                },
            );
            assert(attributes@ =~= instance_attributes().take(row + 1));
            row += 1;
        }
        attributes.push(
            VertexAttribute {
                offset: 64,
                shader_location: INSTANCE_LOCATION_BASE + 4,
                format: VertexFormat::Sint32,
            },
        );
        attributes.push(
            VertexAttribute {
                offset: 68,
                shader_location: INSTANCE_LOCATION_BASE + 5,
                format: VertexFormat::Sint32,
            },
        );
        assert(attributes@ =~= instance_attributes());
        VertexBufferLayout {
            array_stride: INSTANCE_STRIDE,
            step_mode: VertexStepMode::Instance,
            attributes,
        }
    }
}

} // verus!
