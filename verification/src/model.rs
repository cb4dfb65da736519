//! The model loader: validated records in, a renderer-ready `Model` and the
//! deferred texture-upload commands out.
//!
//! Loading runs in two steps. `Model::plan` takes the records an asset parse
//! produced as plain values, validates every mesh record, and resolves each
//! material's two image paths (applying the normal-map fallback rule); it
//! fails with `ParseError` or `MissingNormalMapError` and then no model is
//! ever produced. The caller then has the texture collaborator load each
//! request, and `Model::load` assembles the model from the plan and the
//! per-material texture results, propagating the first texture failure
//! unchanged. The parse itself, with its file reading, stays outside the
//! library: the parser may reject or abort on a malformed file, and the
//! caller surfaces that as `ParseError` before any texture work.

use vstd::prelude::*;
use crate::asset::{resolve_sibling, sibling_of};
use crate::gpu::{
    BindGroup, BindGroupLayout, Binding, BindingResource, CommandBuffer, Device, GpuBuffer, Texture,
};
use crate::records::{
    check_mesh_record, mesh_record_valid, normal_source, resolve_normal_source,
    resolved_material_index, LoadFailure, MaterialRecord, MaterialTextures, MeshRecord,
    TextureRequest,
};
use crate::vertex::ModelVertex;

verus! {

/// Vertex `i` reads position components `3i..3i+2`, texture-coordinate
/// components `2i..2i+1`, and normal components `3i..3i+2` of the flat arrays.
pub open spec fn vertex_matches(v: ModelVertex, p: Seq<u32>, t: Seq<u32>, n: Seq<u32>, i: int) -> bool {
    &&& v.position@[0] == p[3 * i]
    &&& v.position@[1] == p[3 * i + 1]
    &&& v.position@[2] == p[3 * i + 2]
    &&& v.tex_coords@[0] == t[2 * i]
    &&& v.tex_coords@[1] == t[2 * i + 1]
    &&& v.normal@[0] == n[3 * i]
    &&& v.normal@[1] == n[3 * i + 1]
    &&& v.normal@[2] == n[3 * i + 2]
}

/// `vs` is exactly the interleaving of the three flat component arrays: one
/// vertex per three position components, each reading its components by index.
pub open spec fn vertices_interleaved(vs: Seq<ModelVertex>, p: Seq<u32>, t: Seq<u32>, n: Seq<u32>) -> bool {
    &&& vs.len() == p.len() / 3
    &&& forall|i: int| 0 <= i < vs.len() ==> vertex_matches(#[trigger] vs[i], p, t, n, i)
}

/// Interleaves the flat position/texture-coordinate/normal arrays into one
/// vertex record per vertex index.
#[verifier::loop_isolation(false)]
pub fn interleave_vertices(positions: &Vec<u32>, texcoords: &Vec<u32>, normals: &Vec<u32>) -> (r:
    Vec<ModelVertex>)
    requires
        positions@.len() % 3 == 0,
        texcoords@.len() == 2 * (positions@.len() / 3),
        normals@.len() == positions@.len(),
    ensures
        vertices_interleaved(r@, positions@, texcoords@, normals@),
{
    let n: usize = positions.len() / 3;
    proof {
        assert(positions@.len() == 3 * n);
    }
    let mut out: Vec<ModelVertex> = Vec::new();
    let mut i: usize = 0;
    while i < n
        invariant
            0 <= i <= n,
            out@.len() == i,
            forall|k: int|
                0 <= k < i ==> vertex_matches(#[trigger] out@[k], positions@, texcoords@, normals@, k),
        decreases n - i,
    {
        let v = ModelVertex {
            position: [positions[3 * i], positions[3 * i + 1], positions[3 * i + 2]],
            tex_coords: [texcoords[2 * i], texcoords[2 * i + 1]],
            normal: [normals[3 * i], normals[3 * i + 1], normals[3 * i + 2]],
        };
        out.push(v);
        i = i + 1;
    }
    out
}

/// A mesh as the renderer consumes it: its geometry uploaded into two
/// device-resident buffers and a reference into the owning model's materials.
pub struct Mesh {
    pub name: String,
    pub vertex_buffer: GpuBuffer,
    pub index_buffer: GpuBuffer,
    pub num_elements: u32,
    pub material: usize,
}

impl Mesh {
    /// Role-correct buffers, and the element counter equal to the number of
    /// indices uploaded into the index buffer.
    pub open spec fn wf(self) -> bool {
        &&& self.vertex_buffer.is_vertex_buffer()
        &&& self.index_buffer.is_index_buffer()
        &&& self.num_elements == self.index_buffer.element_count()
    }

    /// This mesh is what loading `rec` produces: same name, the record's
    /// indices uploaded, its component arrays interleaved into the vertex
    /// buffer, and the material reference resolved (`0` where unset).
    pub open spec fn built_from(self, rec: MeshRecord) -> bool {
        &&& self.wf()
        &&& self.name@ == rec.name@
        &&& self.material == resolved_material_index(rec)
        &&& self.num_elements == rec.indices@.len()
        &&& self.index_buffer.index_data() == rec.indices@
        &&& vertices_interleaved(
            self.vertex_buffer.vertex_data(),
            rec.positions@,
            rec.texcoords@,
            rec.normals@,
        )
    }
}

/// The four entries of a material's resource group, in fixed slot order:
/// diffuse view, diffuse sampler, normal view, normal sampler.
pub open spec fn material_bindings(diffuse: Texture, normal: Texture) -> Seq<Binding> {
    seq![
        Binding { binding: 0, resource: BindingResource::TextureView(diffuse.view) },
        Binding { binding: 1, resource: BindingResource::Sampler(diffuse.sampler) },
        Binding { binding: 2, resource: BindingResource::TextureView(normal.view) },
        Binding { binding: 3, resource: BindingResource::Sampler(normal.sampler) },
    ]
}

/// A material: its two owned textures and the resource group binding them.
pub struct Material {
    pub name: String,
    pub diffuse_texture: Texture,
    pub normal_texture: Texture,
    pub bind_group: BindGroup,
}

impl Material {
    /// The resource group binds exactly this material's textures, in the
    /// fixed four-slot order.
    pub open spec fn wf(self) -> bool {
        self.bind_group.bindings@ == material_bindings(self.diffuse_texture, self.normal_texture)
    }

    /// This material is what loading `rec` with the collaborator's results
    /// `t` produces.
    pub open spec fn built_from(self, rec: MaterialRecord, t: MaterialTextures) -> bool {
        &&& self.wf()
        &&& self.name@ == rec.name@
        &&& self.diffuse_texture == t.diffuse
        &&& self.normal_texture == t.normal
    }
}

/// A loaded model: its meshes and the materials they reference. The model
/// exclusively owns both and every resource inside them.
pub struct Model {
    pub meshes: Vec<Mesh>,
    pub materials: Vec<Material>,
}

impl Model {
    /// Every mesh is well-formed and references an existing material, and
    /// every material's resource group binds its own textures.
    pub open spec fn wf(self) -> bool {
        &&& forall|j: int|
            0 <= j < self.meshes@.len() ==> (#[trigger] self.meshes@[j]).wf() && self.meshes@[j].material
                < self.materials@.len()
        &&& forall|i: int| 0 <= i < self.materials@.len() ==> (#[trigger] self.materials@[i]).wf()
    }
}

/// `req` carries the two full image paths of `mat`, resolved against the
/// directory of the asset at `asset`, the normal map by the fallback rule.
pub open spec fn request_resolves(req: TextureRequest, mat: MaterialRecord, asset: Seq<char>) -> bool {
    &&& req.diffuse_path@ == sibling_of(asset, mat.diffuse_texture@)
    &&& normal_source(mat) matches Some(nm) && req.normal_path@ == sibling_of(asset, nm)
}

/// Resolves the two image paths of every material against the asset's
/// directory. Fails with `MissingNormalMapError` exactly when some material
/// has neither normal-map reference; no default is synthesized.
#[verifier::loop_isolation(false)]
pub fn texture_requests(path: &str, materials: &Vec<MaterialRecord>) -> (r: Result<
    Vec<TextureRequest>,
    LoadFailure,
>)
    ensures
        match r {
            Ok(reqs) => {
                &&& reqs@.len() == materials@.len()
                &&& forall|i: int|
                    0 <= i < materials@.len() ==> request_resolves(
                        #[trigger] reqs@[i],
                        materials@[i],
                        path@,
                    )
            },
            Err(e) => {
                &&& e == LoadFailure::MissingNormalMapError
                &&& exists|i: int|
                    0 <= i < materials@.len() && normal_source(#[trigger] materials@[i]) is None
            },
        },
{
    let mut reqs: Vec<TextureRequest> = Vec::new();
    let mut i: usize = 0;
    while i < materials.len()
        invariant
            0 <= i <= materials@.len(),
            reqs@.len() == i,
            forall|k: int|
                0 <= k < i ==> request_resolves(#[trigger] reqs@[k], materials@[k], path@),
        decreases materials@.len() - i,
    {
        let mat = &materials[i];
        let normal_name = match resolve_normal_source(mat) {
            Some(nm) => nm,
            None => {
                proof {
                    assert(normal_source(materials@[i as int]) is None);
                }
                return Err(LoadFailure::MissingNormalMapError);
            },
        };
        let diffuse_path = resolve_sibling(path, mat.diffuse_texture.as_str());
        let normal_path = resolve_sibling(path, normal_name.as_str());
        reqs.push(TextureRequest { diffuse_path, normal_path });
        i = i + 1;
    }
    Ok(reqs)
}

/// Everything `Model::load` needs besides the texture results: the validated
/// mesh and material records and the resolved per-material texture requests.
pub struct LoadPlan {
    pub meshes: Vec<MeshRecord>,
    pub materials: Vec<MaterialRecord>,
    pub requests: Vec<TextureRequest>,
}

impl LoadPlan {
    /// Every mesh record is valid against this plan's material count.
    pub open spec fn meshes_valid(self) -> bool {
        forall|j: int|
            0 <= j < self.meshes@.len() ==> mesh_record_valid(
                #[trigger] self.meshes@[j],
                self.materials@.len() as nat,
            )
    }

    /// One resolved request per material, against the asset at `asset`.
    pub open spec fn wf(self, asset: Seq<char>) -> bool {
        &&& self.meshes_valid()
        &&& self.requests@.len() == self.materials@.len()
        &&& forall|i: int|
            0 <= i < self.materials@.len() ==> request_resolves(
                #[trigger] self.requests@[i],
                self.materials@[i],
                asset,
            )
    }
}

/// The error of the first texture result that failed, if any.
pub open spec fn first_texture_failure(ts: Seq<Result<MaterialTextures, LoadFailure>>) -> Option<
    LoadFailure,
>
    decreases ts.len(),
{
    if ts.len() == 0 {
        None
    } else {
        match ts[0] {
            Err(e) => Some(e),
            Ok(_) => first_texture_failure(ts.drop_first()),
        }
    }
}

proof fn lemma_first_texture_failure_skip(ts: Seq<Result<MaterialTextures, LoadFailure>>, i: int)
    requires
        0 <= i <= ts.len(),
        forall|k: int| 0 <= k < i ==> ts[k] is Ok,
    ensures
        first_texture_failure(ts) == first_texture_failure(ts.skip(i)),
    decreases i,
{
    assert(ts.skip(0) =~= ts);
    if i > 0 {
        assert(ts.drop_first() =~= ts.skip(1));
        assert(forall|k: int| 0 <= k < i - 1 ==> ts.skip(1)[k] is Ok);
        lemma_first_texture_failure_skip(ts.skip(1), i - 1);
        assert(ts.skip(1).skip(i - 1) =~= ts.skip(i));
    }
}

/// The result a successful texture load carried.
pub open spec fn texture_ok(t: Result<MaterialTextures, LoadFailure>) -> MaterialTextures {
    match t {
        Ok(m) => m,
        Err(_) => arbitrary(),
    }
}

/// The deferred upload commands a load returns: for each material, in order,
/// its diffuse upload then its normal upload.
pub open spec fn upload_commands(ts: Seq<Result<MaterialTextures, LoadFailure>>) -> Seq<
    CommandBuffer,
> {
    Seq::new(
        2 * ts.len(),
        |k: int|
            if k % 2 == 0 {
                texture_ok(ts[k / 2]).diffuse_upload
            } else {
                texture_ok(ts[k / 2]).normal_upload
            },
    )
}

/// Builds one material: binds the four slots in fixed order — diffuse view,
/// diffuse sampler, normal view, normal sampler — into one resource group.
pub fn build_material(
    device: &mut Device,
    layout: &BindGroupLayout,
    name: String,
    textures: MaterialTextures,
) -> (m: Material)
    requires
        layout.is_material_layout(),
    ensures
        m.wf(),
        m.name == name,
        m.diffuse_texture == textures.diffuse,
        m.normal_texture == textures.normal,
{
    let mut bindings: Vec<Binding> = Vec::new();
    bindings.push(Binding { binding: 0, resource: BindingResource::TextureView(textures.diffuse.view) });
    bindings.push(Binding { binding: 1, resource: BindingResource::Sampler(textures.diffuse.sampler) });
    bindings.push(Binding { binding: 2, resource: BindingResource::TextureView(textures.normal.view) });
    bindings.push(Binding { binding: 3, resource: BindingResource::Sampler(textures.normal.sampler) });
    proof {
        assert(bindings@ =~= material_bindings(textures.diffuse, textures.normal));
        assert(crate::gpu::bindings_match_layout(bindings@, *layout));
    }
    let bind_group = device.create_bind_group(layout, bindings);
    Material { name, diffuse_texture: textures.diffuse, normal_texture: textures.normal, bind_group }
}

/// Copies a `u32` vector element by element.
fn copy_u32s(v: &Vec<u32>) -> (r: Vec<u32>)
    ensures
        r@ == v@,
{
    let mut r: Vec<u32> = Vec::new();
    let mut i: usize = 0;
    while i < v.len()
        invariant
            0 <= i <= v@.len(),
            r@ == v@.take(i as int),
        decreases v@.len() - i,
    {
        r.push(v[i]);
        proof {
            assert(r@ =~= v@.take(i as int + 1));
        }
        i = i + 1;
    }
    proof {
        assert(v@.take(v@.len() as int) =~= v@);
    }
    r
}

/// Builds one mesh from a validated record: interleaves the component arrays,
/// uploads the vertex and index buffers, and resolves the material reference.
pub fn build_mesh(device: &mut Device, rec: &MeshRecord, n_materials: usize) -> (m: Mesh)
    requires
        mesh_record_valid(*rec, n_materials as nat),
    ensures
        m.built_from(*rec),
{
    let vertices = interleave_vertices(&rec.positions, &rec.texcoords, &rec.normals);
    let vertex_buffer = device.create_vertex_buffer(vertices);
    let indices = copy_u32s(&rec.indices);
    let num_elements: u32 = indices.len() as u32;
    let index_buffer = device.create_index_buffer(indices);
    let material: usize = match rec.material_id {
        Some(id) => id,
        None => 0,
    };
    Mesh { name: rec.name.clone(), vertex_buffer, index_buffer, num_elements, material }
}

impl Model {
    /// Prepares loading the records an asset parse produced: validates every
    /// mesh record and resolves every material's two image paths against the
    /// directory of the asset at `path`. `ParseError` exactly when some mesh
    /// record is structurally invalid (component arrays that do not describe
    /// the same vertex count, an element count over the counter's range, or a
    /// material reference no material answers); `MissingNormalMapError`
    /// exactly when the records are valid but some material has no resolvable
    /// normal map. On success the plan carries exactly the records handed in.
    #[verifier::loop_isolation(false)]
    pub fn plan(path: &str, meshes: Vec<MeshRecord>, materials: Vec<MaterialRecord>) -> (r:
        Result<LoadPlan, LoadFailure>)
        ensures
            (r matches Ok(p) ==> p.meshes == meshes && p.materials == materials && p.wf(path@)),
            r == Err::<LoadPlan, LoadFailure>(LoadFailure::ParseError) <==> (exists|j: int|
                0 <= j < meshes@.len() && !mesh_record_valid(
                    #[trigger] meshes@[j],
                    materials@.len() as nat,
                )),
            r == Err::<LoadPlan, LoadFailure>(LoadFailure::MissingNormalMapError) <==> {
                &&& forall|j: int|
                    0 <= j < meshes@.len() ==> mesh_record_valid(
                        #[trigger] meshes@[j],
                        materials@.len() as nat,
                    )
                &&& exists|i: int|
                    0 <= i < materials@.len() && normal_source(#[trigger] materials@[i]) is None
            },
    {
        let mut j: usize = 0;
        while j < meshes.len()
            invariant
                0 <= j <= meshes@.len(),
                forall|k: int|
                    0 <= k < j ==> mesh_record_valid(
                        #[trigger] meshes@[k],
                        materials@.len() as nat,
                    ),
            decreases meshes@.len() - j,
        {
            if !check_mesh_record(&meshes[j], materials.len()) {
                return Err(LoadFailure::ParseError);
            }
            j = j + 1;
        }
        let requests = match texture_requests(path, &materials) {
            Ok(reqs) => reqs,
            Err(e) => {
                return Err(e);
            },
        };
        proof {
            assert forall|i: int| 0 <= i < materials@.len() implies normal_source(
                #[trigger] materials@[i],
            ) is Some by {
                assert(request_resolves(requests@[i], materials@[i], path@));
            }
        }
        Ok(LoadPlan { meshes, materials, requests })
    }

    /// Assembles the model from a plan and the texture collaborator's
    /// per-material results. All-or-nothing: the first texture failure is
    /// propagated unchanged and nothing is returned besides it. On success the
    /// model is pinned exactly: each material built from its record and its
    /// textures, each mesh built from its record, and the deferred upload
    /// commands listed per material, diffuse before normal.
    #[verifier::loop_isolation(false)]
    pub fn load(
        device: &mut Device,
        layout: &BindGroupLayout,
        plan: LoadPlan,
        textures: Vec<Result<MaterialTextures, LoadFailure>>,
    ) -> (r: Result<(Model, Vec<CommandBuffer>), LoadFailure>)
        requires
            layout.is_material_layout(),
            textures@.len() == plan.materials@.len(),
            plan.meshes_valid(),
        ensures
            match r {
                Ok(mc) => {
                    &&& first_texture_failure(textures@) is None
                    &&& mc.0.wf()
                    &&& mc.0.materials@.len() == plan.materials@.len()
                    &&& forall|i: int|
                        0 <= i < plan.materials@.len() ==> (#[trigger] mc.0.materials@[i]).built_from(
                            plan.materials@[i],
                            texture_ok(textures@[i]),
                        )
                    &&& mc.0.meshes@.len() == plan.meshes@.len()
                    &&& forall|j: int|
                        0 <= j < plan.meshes@.len() ==> (#[trigger] mc.0.meshes@[j]).built_from(
                            plan.meshes@[j],
                        )
                    &&& mc.1@ == upload_commands(textures@)
                },
                Err(e) => first_texture_failure(textures@) == Some(e),
            },
    {
        let mut materials: Vec<Material> = Vec::new();
        let mut cmds: Vec<CommandBuffer> = Vec::new();
        let mut i: usize = 0;
        while i < plan.materials.len()
            invariant
                0 <= i <= plan.materials@.len(),
                materials@.len() == i,
                cmds@.len() == 2 * i,
                forall|k: int| 0 <= k < i ==> textures@[k] is Ok,
                forall|k: int|
                    0 <= k < i ==> (#[trigger] materials@[k]).built_from(
                        plan.materials@[k],
                        texture_ok(textures@[k]),
                    ),
                forall|k: int| 0 <= k < 2 * i ==> cmds@[k] == upload_commands(textures@)[k],
            decreases plan.materials@.len() - i,
        {
            let t = textures[i];
            match t {
                Ok(mt) => {
                    let name = plan.materials[i].name.clone();
                    let m = build_material(device, layout, name, mt);
                    materials.push(m);
                    cmds.push(mt.diffuse_upload);
                    cmds.push(mt.normal_upload);
                    proof {
                        assert(upload_commands(textures@)[2 * i as int] == mt.diffuse_upload);
                        assert(upload_commands(textures@)[2 * i as int + 1] == mt.normal_upload);
                    }
                },
                Err(e) => {
                    proof {
                        lemma_first_texture_failure_skip(textures@, i as int);
                        assert(textures@.skip(i as int)[0] == textures@[i as int]);
                    }
                    return Err(e);
                },
            }
            i = i + 1;
        }
        proof {
            lemma_first_texture_failure_skip(textures@, textures@.len() as int);
            assert(textures@.skip(textures@.len() as int) =~= Seq::<
                Result<MaterialTextures, LoadFailure>,
            >::empty());
            assert(cmds@ =~= upload_commands(textures@));
        }
        let mut meshes: Vec<Mesh> = Vec::new();
        let mut j: usize = 0;
        while j < plan.meshes.len()
            invariant
                0 <= j <= plan.meshes@.len(),
                meshes@.len() == j,
                forall|k: int|
                    0 <= k < j ==> (#[trigger] meshes@[k]).built_from(plan.meshes@[k]),
            decreases plan.meshes@.len() - j,
        {
            let m = build_mesh(device, &plan.meshes[j], materials.len());
            meshes.push(m);
            j = j + 1;
        }
        let model = Model { meshes, materials };
        proof {
            assert forall|k: int| 0 <= k < model.meshes@.len() implies (#[trigger] model.meshes@[k]).wf()
                && model.meshes@[k].material < model.materials@.len() by {
                assert(model.meshes@[k].built_from(plan.meshes@[k]));
                assert(mesh_record_valid(plan.meshes@[k], plan.materials@.len() as nat));
            }
        }
        Ok((model, cmds))
    }
}

} // verus!
