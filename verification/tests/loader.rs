use obj_model::gpu::{
    BindGroupLayout, Binding, BindingResource, BufferContents, CommandBuffer, Device, Sampler,
    Texture, TextureView,
};
use obj_model::model::{interleave_vertices, texture_requests, Model};
use obj_model::records::{
    check_mesh_record, resolve_normal_source, LoadFailure, MaterialRecord, MaterialTextures,
    MeshRecord,
};
use obj_model::vertex::ModelVertex;

fn material_record(normal: &str, params: Vec<(String, String)>) -> MaterialRecord {
    MaterialRecord {
        name: "mat".to_string(),
        diffuse_texture: "d.png".to_string(),
        normal_texture: normal.to_string(),
        unknown_param: params,
    }
}

fn textures_for(base: u64) -> MaterialTextures {
    MaterialTextures {
        diffuse: Texture { view: TextureView { id: base }, sampler: Sampler { id: base + 1 } },
        diffuse_upload: CommandBuffer { id: base + 2 },
        normal: Texture { view: TextureView { id: base + 3 }, sampler: Sampler { id: base + 4 } },
        normal_upload: CommandBuffer { id: base + 5 },
    }
}

#[test]
fn interleave_reads_components_by_index() {
    let positions: Vec<u32> = vec![1, 2, 3, 4, 5, 6];
    let texcoords: Vec<u32> = vec![10, 11, 12, 13];
    let normals: Vec<u32> = vec![20, 21, 22, 23, 24, 25];
    let vs = interleave_vertices(&positions, &texcoords, &normals);
    assert_eq!(vs.len(), 2);
    assert_eq!(
        vs[0],
        ModelVertex { position: [1, 2, 3], tex_coords: [10, 11], normal: [20, 21, 22] },
    );
    assert_eq!(
        vs[1],
        ModelVertex { position: [4, 5, 6], tex_coords: [12, 13], normal: [23, 24, 25] },
    );
}

#[test]
fn normal_map_dedicated_field_wins() {
    let mat = material_record(
        "n.png",
        vec![("map_Bump".to_string(), "bump.png".to_string())],
    );
    assert_eq!(resolve_normal_source(&mat), Some("n.png".to_string()));
}

#[test]
fn normal_map_fallback_key_used() {
    let mat = material_record(
        "",
        vec![
            ("map_Ke".to_string(), "emit.png".to_string()),
            ("map_Bump".to_string(), "bump.png".to_string()),
        ],
    );
    assert_eq!(resolve_normal_source(&mat), Some("bump.png".to_string()));
}

#[test]
fn normal_map_fallback_takes_first_match() {
    let mat = material_record(
        "",
        vec![
            ("map_Bump".to_string(), "first.png".to_string()),
            ("map_Bump".to_string(), "second.png".to_string()),
        ],
    );
    assert_eq!(resolve_normal_source(&mat), Some("first.png".to_string()));
}

#[test]
fn normal_map_missing_is_error() {
    let mat = material_record("", vec![("map_Ke".to_string(), "emit.png".to_string())]);
    assert_eq!(resolve_normal_source(&mat), None);
    let r = texture_requests("assets/scene.obj", &vec![mat]);
    assert!(matches!(r, Err(LoadFailure::MissingNormalMapError)));
}

#[test]
fn texture_requests_resolve_against_asset_directory() {
    let mat = material_record("", vec![("map_Bump".to_string(), "bump.png".to_string())]);
    let reqs = texture_requests("assets/scene.obj", &vec![mat]).unwrap();
    assert_eq!(reqs.len(), 1);
    assert_eq!(reqs[0].diffuse_path, "assets/d.png");
    assert_eq!(reqs[0].normal_path, "assets/bump.png");
}

#[test]
fn mesh_record_validation() {
    let good = MeshRecord {
        name: "m".to_string(),
        positions: vec![0; 6],
        texcoords: vec![0; 4],
        normals: vec![0; 6],
        indices: vec![0, 1],
        material_id: None,
    };
    assert!(check_mesh_record(&good, 1));
    // no material to fall back on
    assert!(!check_mesh_record(&good, 0));
    let short_normals = MeshRecord { normals: vec![0; 3], ..good };
    assert!(!check_mesh_record(&short_normals, 1));
}

#[test]
fn plan_rejects_invalid_mesh_record() {
    // positions describe one vertex but the normals array is short: the
    // records are structurally invalid, so planning is a parse failure
    let bad = MeshRecord {
        name: "m".to_string(),
        positions: vec![0; 3],
        texcoords: vec![0; 2],
        normals: vec![],
        indices: vec![0],
        material_id: None,
    };
    let materials = vec![material_record("n.png", vec![])];
    let r = Model::plan("assets/scene.obj", vec![bad], materials);
    assert!(matches!(r, Err(LoadFailure::ParseError)));
}

#[test]
fn plan_reports_missing_normal_map() {
    let materials = vec![material_record("", vec![])];
    let r = Model::plan("assets/scene.obj", vec![], materials);
    assert!(matches!(r, Err(LoadFailure::MissingNormalMapError)));
}

#[test]
fn plan_keeps_records_and_resolves_requests() {
    let materials = vec![material_record("n.png", vec![])];
    let meshes = vec![MeshRecord {
        name: "m".to_string(),
        positions: vec![0; 3],
        texcoords: vec![0; 2],
        normals: vec![0; 3],
        indices: vec![0],
        material_id: Some(0),
    }];
    let plan = Model::plan("assets/scene.obj", meshes, materials).unwrap();
    assert_eq!(plan.meshes.len(), 1);
    assert_eq!(plan.meshes[0].name, "m");
    assert_eq!(plan.materials.len(), 1);
    assert_eq!(plan.requests.len(), 1);
    assert_eq!(plan.requests[0].diffuse_path, "assets/d.png");
    assert_eq!(plan.requests[0].normal_path, "assets/n.png");
}

#[test]
fn load_assembles_model() {
    let materials = vec![material_record("n.png", vec![])];
    let meshes = vec![
        MeshRecord {
            name: "first".to_string(),
            positions: vec![1, 2, 3, 4, 5, 6],
            texcoords: vec![10, 11, 12, 13],
            normals: vec![20, 21, 22, 23, 24, 25],
            indices: vec![0, 1, 0],
            material_id: None,
        },
        MeshRecord {
            name: "second".to_string(),
            positions: vec![7, 8, 9],
            texcoords: vec![14, 15],
            normals: vec![26, 27, 28],
            indices: vec![0],
            material_id: Some(0),
        },
    ];
    let plan = Model::plan("assets/scene.obj", meshes, materials).unwrap();
    let mut device = Device::new();
    let layout = BindGroupLayout::material();
    let tex = textures_for(100);
    let (model, cmds) = Model::load(&mut device, &layout, plan, vec![Ok(tex)]).unwrap();

    // one material, built from the collaborator's textures, four slots in order
    assert_eq!(model.materials.len(), 1);
    let mat = &model.materials[0];
    assert_eq!(mat.name, "mat");
    assert_eq!(mat.diffuse_texture, tex.diffuse);
    assert_eq!(mat.normal_texture, tex.normal);
    assert_eq!(
        mat.bind_group.bindings,
        vec![
            Binding { binding: 0, resource: BindingResource::TextureView(tex.diffuse.view) },
            Binding { binding: 1, resource: BindingResource::Sampler(tex.diffuse.sampler) },
            Binding { binding: 2, resource: BindingResource::TextureView(tex.normal.view) },
            Binding { binding: 3, resource: BindingResource::Sampler(tex.normal.sampler) },
        ],
    );

    // meshes: unset material reference resolves to 0, element count matches
    assert_eq!(model.meshes.len(), 2);
    let first = &model.meshes[0];
    assert_eq!(first.name, "first");
    assert_eq!(first.material, 0);
    assert_eq!(first.num_elements, 3);
    // every material reference is inside the material list
    for mesh in &model.meshes {
        assert!(mesh.material < model.materials.len());
    }
    match &first.index_buffer.contents {
        BufferContents::Indices(idx) => {
            assert_eq!(idx, &vec![0, 1, 0]);
            assert_eq!(idx.len(), first.num_elements as usize);
        },
        BufferContents::Vertices(_) => panic!("index buffer holds vertices"),
    }
    match &first.vertex_buffer.contents {
        BufferContents::Vertices(vs) => {
            assert_eq!(vs.len(), 2);
            assert_eq!(
                vs[0],
                ModelVertex { position: [1, 2, 3], tex_coords: [10, 11], normal: [20, 21, 22] },
            );
        },
        BufferContents::Indices(_) => panic!("vertex buffer holds indices"),
    }
    assert_eq!(model.meshes[1].material, 0);
    assert_eq!(model.meshes[1].num_elements, 1);

    // deferred uploads: per material, diffuse then normal
    assert_eq!(cmds, vec![tex.diffuse_upload, tex.normal_upload]);
}

#[test]
fn load_propagates_texture_failure() {
    let materials = vec![material_record("n.png", vec![])];
    let plan = Model::plan("assets/scene.obj", vec![], materials).unwrap();
    let mut device = Device::new();
    let layout = BindGroupLayout::material();
    let r = Model::load(&mut device, &layout, plan, vec![Err(LoadFailure::TextureLoadError)]);
    assert!(matches!(r, Err(LoadFailure::TextureLoadError)));
}
