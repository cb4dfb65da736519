use obj_model::draw::{DrawModel, RenderCommand, RenderPass};
use obj_model::gpu::{
    BindGroup, BindGroupLayout, BufferContents, Device, Sampler, Texture, TextureView,
};
use obj_model::model::{build_material, build_mesh, Material, Mesh, Model};
use obj_model::records::{MaterialTextures, MeshRecord};

fn sample_mesh(device: &mut Device, name: &str, indices: Vec<u32>, material_id: Option<usize>) -> Mesh {
    let n = indices.len();
    let rec = MeshRecord {
        name: name.to_string(),
        positions: vec![0; 3],
        texcoords: vec![0; 2],
        normals: vec![0; 3],
        indices,
        material_id,
    };
    let mesh = build_mesh(device, &rec, 2);
    assert_eq!(mesh.num_elements as usize, n);
    mesh
}

fn sample_material(device: &mut Device, base: u64) -> Material {
    let layout = BindGroupLayout::material();
    let textures = MaterialTextures {
        diffuse: Texture { view: TextureView { id: base }, sampler: Sampler { id: base + 1 } },
        diffuse_upload: obj_model::gpu::CommandBuffer { id: base + 2 },
        normal: Texture { view: TextureView { id: base + 3 }, sampler: Sampler { id: base + 4 } },
        normal_upload: obj_model::gpu::CommandBuffer { id: base + 5 },
    };
    build_material(device, &layout, "mat".to_string(), textures)
}

fn mesh_command_block(mesh: &Mesh, material: &Material, uniforms: &BindGroup, instances: (u32, u32)) -> Vec<RenderCommand> {
    vec![
        RenderCommand::SetVertexBuffer { slot: 0, buffer: mesh.vertex_buffer.handle },
        RenderCommand::SetIndexBuffer { buffer: mesh.index_buffer.handle },
        RenderCommand::SetBindGroup { index: 0, group: material.bind_group.handle },
        RenderCommand::SetBindGroup { index: 1, group: uniforms.handle },
        RenderCommand::DrawIndexed {
            start_index: 0,
            end_index: mesh.num_elements,
            base_vertex: 0,
            start_instance: instances.0,
            end_instance: instances.1,
        },
    ]
}

#[test]
fn draw_mesh_instanced_records_five_commands() {
    let mut device = Device::new();
    let mesh = sample_mesh(&mut device, "m", vec![0, 0, 0], Some(0));
    let material = sample_material(&mut device, 50);
    let uniforms = BindGroup { handle: 99, bindings: vec![] };
    let mut pass = RenderPass::new();
    pass.draw_mesh_instanced(&mesh, &material, 2..5, &uniforms);
    assert_eq!(pass.commands, mesh_command_block(&mesh, &material, &uniforms, (2, 5)));
}

#[test]
fn draw_mesh_uses_single_instance() {
    let mut device = Device::new();
    let mesh = sample_mesh(&mut device, "m", vec![0], None);
    let material = sample_material(&mut device, 10);
    let uniforms = BindGroup { handle: 7, bindings: vec![] };
    let mut pass = RenderPass::new();
    pass.draw_mesh(&mesh, &material, &uniforms);
    assert_eq!(pass.commands, mesh_command_block(&mesh, &material, &uniforms, (0, 1)));
}

#[test]
fn draw_model_draws_each_mesh_in_order() {
    let mut device = Device::new();
    let mesh_a = sample_mesh(&mut device, "a", vec![0, 0, 0], Some(1));
    let mesh_b = sample_mesh(&mut device, "b", vec![0], None);
    let material_0 = sample_material(&mut device, 20);
    let material_1 = sample_material(&mut device, 40);
    let uniforms = BindGroup { handle: 3, bindings: vec![] };
    let model = Model { meshes: vec![mesh_a, mesh_b], materials: vec![material_0, material_1] };

    let mut pass = RenderPass::new();
    pass.draw_model(&model, &uniforms);

    // one block of five commands per mesh, in stored mesh order, each draw
    // bound to the mesh's own resolved material
    let mut expected = mesh_command_block(&model.meshes[0], &model.materials[1], &uniforms, (0, 1));
    expected.extend(mesh_command_block(&model.meshes[1], &model.materials[0], &uniforms, (0, 1)));
    assert_eq!(pass.commands, expected);
    let draws: Vec<&RenderCommand> = pass
        .commands
        .iter()
        .filter(|c| matches!(c, RenderCommand::DrawIndexed { .. }))
        .collect();
    assert_eq!(draws.len(), model.meshes.len());
}

#[test]
fn build_mesh_keeps_vertex_buffer_role() {
    let mut device = Device::new();
    let mesh = sample_mesh(&mut device, "m", vec![0, 0], Some(0));
    assert!(matches!(mesh.vertex_buffer.contents, BufferContents::Vertices(_)));
    assert!(matches!(mesh.index_buffer.contents, BufferContents::Indices(_)));
    assert_ne!(mesh.vertex_buffer.handle, mesh.index_buffer.handle);
}
