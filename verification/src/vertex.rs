//! The binary layout of one vertex and the attribute slots a pipeline binds
//! to consume it.

use vstd::prelude::*;

verus! {

/// Number of bytes in one 32-bit vertex component.
pub const COMPONENT_BYTES: u64 = 4;

/// Shape of one vertex attribute as a pipeline sees it.
#[derive(Clone, Copy, PartialEq, Eq, Structural, Debug)]
pub enum VertexFormat {
    Float2,
    Float3,
}

/// One attribute slot: where it starts inside a vertex record, which shader
/// location consumes it, and its format.
#[derive(Clone, Copy, PartialEq, Eq, Structural, Debug)]
pub struct VertexAttributeDescriptor {
    pub offset: u64,
    pub shader_location: u32,
    pub format: VertexFormat,
}

/// Binary layout of a vertex buffer: the byte stride of one record and the
/// ordered attribute slots.
pub struct VertexBufferDescriptor {
    pub stride: u64,
    pub attributes: Vec<VertexAttributeDescriptor>,
}

/// A vertex type that can describe its own binary layout to a pipeline.
pub trait Vertex {
    /// Byte stride of one vertex record.
    spec fn spec_stride() -> u64;

    /// The attribute slots a pipeline binds, in order.
    spec fn spec_attributes() -> Seq<VertexAttributeDescriptor>;

    fn desc() -> (r: VertexBufferDescriptor)
        ensures
            r.stride == Self::spec_stride(),
            r.attributes@ == Self::spec_attributes(),
    ;
}

/// One interleaved vertex: position, texture coordinate, normal. Each
/// component is a 32-bit word holding the bit pattern of the asset's float
/// component; the loader only moves components, it never computes with them.
#[derive(Clone, Copy, PartialEq, Eq, Debug)]
pub struct ModelVertex {
    pub position: [u32; 3],
    pub tex_coords: [u32; 2],
    pub normal: [u32; 3],
}

impl Vertex for ModelVertex {
    open spec fn spec_stride() -> u64 {
        (8 * COMPONENT_BYTES) as u64
    }

    open spec fn spec_attributes() -> Seq<VertexAttributeDescriptor> {
        seq![
            VertexAttributeDescriptor { offset: 0, shader_location: 0, format: VertexFormat::Float3 },
            VertexAttributeDescriptor {
                offset: (3 * COMPONENT_BYTES) as u64,
                shader_location: 1,
                format: VertexFormat::Float2,
            },
            VertexAttributeDescriptor {
                offset: (5 * COMPONENT_BYTES) as u64,
                shader_location: 2,
                format: VertexFormat::Float3,
            },
        ]
    }

    /// Three attributes in fixed order: position, texture coordinate, normal.
    /// Each offset is the total size of the fields before it.
    fn desc() -> (r: VertexBufferDescriptor) {
        let mut attributes: Vec<VertexAttributeDescriptor> = Vec::new();
        attributes.push(
            VertexAttributeDescriptor { offset: 0, shader_location: 0, format: VertexFormat::Float3 },
        );
        attributes.push(
            VertexAttributeDescriptor {
                offset: 3 * COMPONENT_BYTES,
                shader_location: 1,
                format: VertexFormat::Float2,
            },
        );
        attributes.push(
            VertexAttributeDescriptor {
                offset: 5 * COMPONENT_BYTES,
                shader_location: 2,
                format: VertexFormat::Float3,
            },
        );
        proof {
            assert(attributes@ =~= Self::spec_attributes());
        }
        VertexBufferDescriptor { stride: 8 * COMPONENT_BYTES, attributes }
    }
}

} // verus!
