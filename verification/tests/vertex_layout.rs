use obj_model::vertex::{ModelVertex, Vertex, VertexAttributeDescriptor, VertexFormat};

#[test]
fn vertex_layout_descriptor() {
    let desc = ModelVertex::desc();
    assert_eq!(desc.stride, 32);
    assert_eq!(desc.attributes.len(), 3);
    assert_eq!(
        desc.attributes[0],
        VertexAttributeDescriptor { offset: 0, shader_location: 0, format: VertexFormat::Float3 },
    );
    assert_eq!(
        desc.attributes[1],
        VertexAttributeDescriptor { offset: 12, shader_location: 1, format: VertexFormat::Float2 },
    );
    assert_eq!(
        desc.attributes[2],
        VertexAttributeDescriptor { offset: 20, shader_location: 2, format: VertexFormat::Float3 },
    );
}
