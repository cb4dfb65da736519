//! The draw dispatcher: binds a mesh's buffers, its material's resource group
//! and the caller's per-draw resources, then issues one indexed, instanced
//! draw. A `RenderPass` models a caller-owned recording context as the exact
//! sequence of commands recorded into it; no binding state persists between
//! calls — every draw rebinds everything it uses.

use vstd::prelude::*;
use core::ops::Range;
use crate::gpu::BindGroup;
use crate::model::{Material, Mesh, Model};

verus! {

/// One recorded command, referring to resources by their opaque handles.
#[derive(Clone, Copy, PartialEq, Eq, Structural, Debug)]
pub enum RenderCommand {
    SetVertexBuffer { slot: u32, buffer: u64 },
    SetIndexBuffer { buffer: u64 },
    SetBindGroup { index: u32, group: u64 },
    DrawIndexed {
        start_index: u32,
        end_index: u32,
        base_vertex: i32,
        start_instance: u32,
        end_instance: u32,
    },
}

/// The five commands one mesh draw records, in order: vertex buffer at slot 0,
/// index buffer, material group at binding-group slot 0, per-draw group at
/// slot 1, then one indexed draw over `[0, num_elements)` and `instances`.
pub open spec fn mesh_commands(
    mesh: Mesh,
    material: Material,
    instances: Range<u32>,
    uniforms: BindGroup,
) -> Seq<RenderCommand> {
    seq![
        RenderCommand::SetVertexBuffer { slot: 0, buffer: mesh.vertex_buffer.handle },
        RenderCommand::SetIndexBuffer { buffer: mesh.index_buffer.handle },
        RenderCommand::SetBindGroup { index: 0, group: material.bind_group.handle },
        RenderCommand::SetBindGroup { index: 1, group: uniforms.handle },
        RenderCommand::DrawIndexed {
            start_index: 0,
            end_index: mesh.num_elements,
            base_vertex: 0,
            start_instance: instances.start,
            end_instance: instances.end,
        },
    ]
}

/// The commands drawing `meshes` in stored order records: each mesh's five
/// commands, the material resolved through the mesh's own reference.
pub open spec fn meshes_commands(
    meshes: Seq<Mesh>,
    materials: Seq<Material>,
    instances: Range<u32>,
    uniforms: BindGroup,
) -> Seq<RenderCommand>
    decreases meshes.len(),
{
    if meshes.len() == 0 {
        Seq::empty()
    } else {
        meshes_commands(meshes.drop_last(), materials, instances, uniforms) + mesh_commands(
            meshes.last(),
            materials[meshes.last().material as int],
            instances,
            uniforms,
        )
    }
}

/// The commands drawing a whole model records.
pub open spec fn model_commands(model: Model, instances: Range<u32>, uniforms: BindGroup) -> Seq<
    RenderCommand,
> {
    meshes_commands(model.meshes@, model.materials@, instances, uniforms)
}

/// A recording context: the commands recorded into it so far, in order.
pub struct RenderPass {
    pub commands: Vec<RenderCommand>,
}

impl RenderPass {
    /// A fresh pass with nothing recorded.
    pub fn new() -> (r: RenderPass)
        ensures
            r.commands@ == Seq::<RenderCommand>::empty(),
    {
        RenderPass { commands: Vec::new() }
    }
}

/// A recording context that models and materials can be drawn onto.
pub trait DrawModel {
    /// The commands recorded so far.
    spec fn recorded(&self) -> Seq<RenderCommand>;

    /// Draws one mesh with one instance.
    fn draw_mesh(&mut self, mesh: &Mesh, material: &Material, uniforms: &BindGroup)
        ensures
            final(self).recorded() == old(self).recorded() + mesh_commands(
                *mesh,
                *material,
                (Range { start: 0u32, end: 1u32 }),
                *uniforms,
            ),
    ;

    /// Binds `mesh`'s buffers, `material`'s resource group at binding-group
    /// slot 0 and `uniforms` at slot 1, then issues one indexed draw over
    /// `[0, mesh.num_elements)` indices and `instances` instances.
    fn draw_mesh_instanced(
        &mut self,
        mesh: &Mesh,
        material: &Material,
        instances: Range<u32>,
        uniforms: &BindGroup,
    )
        ensures
            final(self).recorded() == old(self).recorded() + mesh_commands(
                *mesh,
                *material,
                instances,
                *uniforms,
            ),
    ;

    /// Draws every mesh of `model` with one instance.
    fn draw_model(&mut self, model: &Model, uniforms: &BindGroup)
        requires
            model.wf(),
        ensures
            final(self).recorded() == old(self).recorded() + model_commands(
                *model,
                (Range { start: 0u32, end: 1u32 }),
                *uniforms,
            ),
    ;

    /// Draws every mesh of `model` in stored order, resolving each mesh's
    /// material through its reference; nothing is batched or elided.
    fn draw_model_instanced(
        &mut self,
        model: &Model,
        instances: Range<u32>,
        uniforms: &BindGroup,
    )
        requires
            model.wf(),
        ensures
            final(self).recorded() == old(self).recorded() + model_commands(
                *model,
                instances,
                *uniforms,
            ),
    ;
}

impl DrawModel for RenderPass {
    open spec fn recorded(&self) -> Seq<RenderCommand> {
        self.commands@
    }

    fn draw_mesh(&mut self, mesh: &Mesh, material: &Material, uniforms: &BindGroup) {
        self.draw_mesh_instanced(mesh, material, Range { start: 0, end: 1 }, uniforms);
    }

    fn draw_mesh_instanced(
        &mut self,
        mesh: &Mesh,
        material: &Material,
        instances: Range<u32>,
        uniforms: &BindGroup,
    ) {
        self.commands.push(
            RenderCommand::SetVertexBuffer { slot: 0, buffer: mesh.vertex_buffer.handle },
        );
        self.commands.push(RenderCommand::SetIndexBuffer { buffer: mesh.index_buffer.handle });
        self.commands.push(RenderCommand::SetBindGroup { index: 0, group: material.bind_group.handle });
        self.commands.push(RenderCommand::SetBindGroup { index: 1, group: uniforms.handle });
        self.commands.push(
            RenderCommand::DrawIndexed {
                start_index: 0,
                end_index: mesh.num_elements,
                base_vertex: 0,
                start_instance: instances.start,
                end_instance: instances.end,
            },
        );
        proof {
            assert(self.commands@ =~= old(self).commands@ + mesh_commands(
                *mesh,
                *material,
                instances,
                *uniforms,
            ));
        }
    }

    fn draw_model(&mut self, model: &Model, uniforms: &BindGroup) {
        self.draw_model_instanced(model, Range { start: 0, end: 1 }, uniforms);
    }

    #[verifier::loop_isolation(false)]
    fn draw_model_instanced(
        &mut self,
        model: &Model,
        instances: Range<u32>,
        uniforms: &BindGroup,
    ) {
        let mut j: usize = 0;
        while j < model.meshes.len()
            invariant
                0 <= j <= model.meshes@.len(),
                self.commands@ == old(self).commands@ + meshes_commands(
                    model.meshes@.take(j as int),
                    model.materials@,
                    instances,
                    *uniforms,
                ),
            decreases model.meshes@.len() - j,
        {
            let mesh = &model.meshes[j];
            let material = &model.materials[mesh.material];
            let inst = Range { start: instances.start, end: instances.end };
            self.draw_mesh_instanced(mesh, material, inst, uniforms);
            proof {
                assert(model.meshes@.take(j as int + 1).drop_last() =~= model.meshes@.take(
                    j as int,
                ));
                assert(model.meshes@.take(j as int + 1).last() == model.meshes@[j as int]);
                assert(self.commands@ =~= old(self).commands@ + meshes_commands(
                    model.meshes@.take(j as int + 1),
                    model.materials@,
                    instances,
                    *uniforms,
                ));
            }
            j = j + 1;
        }
        proof {
            assert(model.meshes@.take(model.meshes@.len() as int) =~= model.meshes@);
        }
    }
}

/// Law: drawing a model records, per mesh and in `meshes` order, exactly that
/// mesh's five commands — so exactly one indexed draw per mesh, each bound to
/// its resolved material's resource group.
pub proof fn lemma_meshes_commands_per_mesh(
    meshes: Seq<Mesh>,
    materials: Seq<Material>,
    instances: Range<u32>,
    uniforms: BindGroup,
)
    ensures
        meshes_commands(meshes, materials, instances, uniforms).len() == 5 * meshes.len(),
        forall|j: int|
            0 <= j < meshes.len() ==> meshes_commands(meshes, materials, instances, uniforms).subrange(
                5 * j,
                5 * j + 5,
            ) == mesh_commands(
                meshes[j],
                materials[meshes[j].material as int],
                instances,
                uniforms,
            ),
    decreases meshes.len(),
{
    if meshes.len() > 0 {
        let prefix = meshes_commands(meshes.drop_last(), materials, instances, uniforms);
        let whole = meshes_commands(meshes, materials, instances, uniforms);
        lemma_meshes_commands_per_mesh(meshes.drop_last(), materials, instances, uniforms);
        assert forall|j: int| 0 <= j < meshes.len() implies whole.subrange(5 * j, 5 * j + 5)
            == mesh_commands(
            meshes[j],
            materials[meshes[j].material as int],
            instances,
            uniforms,
        ) by {
            if j < meshes.len() - 1 {
                assert(meshes.drop_last()[j] == meshes[j]);
                assert(whole.subrange(5 * j, 5 * j + 5) =~= prefix.subrange(5 * j, 5 * j + 5));
            } else {
                assert(whole.subrange(5 * j, 5 * j + 5) =~= mesh_commands(
                    meshes[j],
                    materials[meshes[j].material as int],
                    instances,
                    uniforms,
                ));
            }
        }
    }
}

/// Law over a whole model: `model_commands` is five commands per mesh, in
/// stored order, the draw of mesh `j` standing at index `5j + 4` and its
/// material group bound at index `5j + 2`.
pub proof fn lemma_model_commands_per_mesh(model: Model, instances: Range<u32>, uniforms: BindGroup)
    requires
        model.wf(),
    ensures
        model_commands(model, instances, uniforms).len() == 5 * model.meshes@.len(),
        forall|j: int|
            0 <= j < model.meshes@.len() ==> model_commands(model, instances, uniforms).subrange(
                5 * j,
                5 * j + 5,
            ) == mesh_commands(
                model.meshes@[j],
                model.materials@[model.meshes@[j].material as int],
                instances,
                uniforms,
            ),
{
    lemma_meshes_commands_per_mesh(model.meshes@, model.materials@, instances, uniforms);
}

} // verus!
