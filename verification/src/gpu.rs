//! The library's model of device-resident resources.
//!
//! A buffer carries the data that was uploaded into it, so contracts can speak
//! of its contents; every resource also carries an opaque `u64` handle, which
//! is what a recorded command refers to. Textures, samplers and deferred
//! upload command buffers are created by an outside collaborator and enter the
//! library as opaque handles.

use vstd::prelude::*;
use crate::vertex::ModelVertex;

verus! {

/// Handle to a texture view created by the texture collaborator.
#[derive(Clone, Copy, PartialEq, Eq, Structural, Debug)]
pub struct TextureView {
    pub id: u64,
}

/// Handle to a sampler created by the texture collaborator.
#[derive(Clone, Copy, PartialEq, Eq, Structural, Debug)]
pub struct Sampler {
    pub id: u64,
}

/// An owned texture resource: its view and its sampler.
#[derive(Clone, Copy, PartialEq, Eq, Structural, Debug)]
pub struct Texture {
    pub view: TextureView,
    pub sampler: Sampler,
}

/// Handle to a deferred upload command recorded by the texture collaborator;
/// the caller of the loader must submit it before the texture is sampled.
#[derive(Clone, Copy, PartialEq, Eq, Structural, Debug)]
pub struct CommandBuffer {
    pub id: u64,
}

/// Role a buffer was created for.
#[derive(Clone, Copy, PartialEq, Eq, Structural, Debug)]
pub enum BufferUsage {
    Vertex,
    Index,
}

/// What was uploaded into a buffer.
pub enum BufferContents {
    Vertices(Vec<ModelVertex>),
    Indices(Vec<u32>),
}

/// A device-resident buffer: an opaque handle plus the model of what it holds.
pub struct GpuBuffer {
    pub handle: u64,
    pub usage: BufferUsage,
    pub contents: BufferContents,
}

impl GpuBuffer {
    /// The vertices this buffer holds, empty if it is not a vertex buffer.
    pub open spec fn vertex_data(self) -> Seq<ModelVertex> {
        match self.contents {
            BufferContents::Vertices(v) => v@,
            BufferContents::Indices(_) => Seq::empty(),
        }
    }

    /// The indices this buffer holds, empty if it is not an index buffer.
    pub open spec fn index_data(self) -> Seq<u32> {
        match self.contents {
            BufferContents::Vertices(_) => Seq::empty(),
            BufferContents::Indices(v) => v@,
        }
    }

    /// How many elements were uploaded into this buffer.
    pub open spec fn element_count(self) -> nat {
        match self.contents {
            BufferContents::Vertices(v) => v@.len(),
            BufferContents::Indices(v) => v@.len(),
        }
    }

    pub open spec fn is_vertex_buffer(self) -> bool {
        self.usage == BufferUsage::Vertex && self.contents is Vertices
    }

    pub open spec fn is_index_buffer(self) -> bool {
        self.usage == BufferUsage::Index && self.contents is Indices
    }
}

/// Kind of resource a binding slot of a layout accepts.
#[derive(Clone, Copy, PartialEq, Eq, Structural, Debug)]
pub enum BindingType {
    SampledTexture,
    Sampler,
}

/// Layout of a resource group: the kinds its numbered slots accept, in order.
pub struct BindGroupLayout {
    pub entries: Vec<BindingType>,
}

impl BindGroupLayout {
    /// The fixed four-slot material layout: diffuse view, diffuse sampler,
    /// normal view, normal sampler.
    pub open spec fn is_material_layout(self) -> bool {
        self.entries@ == seq![
            BindingType::SampledTexture,
            BindingType::Sampler,
            BindingType::SampledTexture,
            BindingType::Sampler,
        ]
    }

    /// Builds the fixed four-slot material layout.
    pub fn material() -> (r: BindGroupLayout)
        ensures
            r.is_material_layout(),
    {
        let mut entries: Vec<BindingType> = Vec::new();
        entries.push(BindingType::SampledTexture);
        entries.push(BindingType::Sampler);
        entries.push(BindingType::SampledTexture);
        entries.push(BindingType::Sampler);
        proof {
            assert(entries@ =~= seq![
                BindingType::SampledTexture,
                BindingType::Sampler,
                BindingType::SampledTexture,
                BindingType::Sampler,
            ]);
        }
        BindGroupLayout { entries }
    }
}

/// A resource bound into one slot of a resource group.
#[derive(Clone, Copy, PartialEq, Eq, Structural, Debug)]
pub enum BindingResource {
    TextureView(TextureView),
    Sampler(Sampler),
}

impl BindingResource {
    /// The kind of layout slot this resource fits.
    pub open spec fn binding_type(self) -> BindingType {
        match self {
            BindingResource::TextureView(_) => BindingType::SampledTexture,
            BindingResource::Sampler(_) => BindingType::Sampler,
        }
    }
}

/// One entry of a resource group: slot number and the resource bound there.
#[derive(Clone, Copy, PartialEq, Eq, Structural, Debug)]
pub struct Binding {
    pub binding: u32,
    pub resource: BindingResource,
}

/// Whether `bindings` fills `layout` slot by slot: entry `i` is bound at slot
/// number `i` and its resource kind matches the layout's kind for that slot.
pub open spec fn bindings_match_layout(bindings: Seq<Binding>, layout: BindGroupLayout) -> bool {
    &&& bindings.len() == layout.entries@.len()
    &&& forall|i: int|
        0 <= i < bindings.len() ==> #[trigger] bindings[i].binding == i && bindings[i].resource.binding_type()
            == layout.entries@[i]
}

/// An opaque bound-resource group: an opaque handle plus the model of the
/// entries it was built from.
pub struct BindGroup {
    pub handle: u64,
    pub bindings: Vec<Binding>,
}

/// The resource-creation context: it wraps data handed to it into
/// device-resident resources and stamps each with a fresh-looking handle.
pub struct Device {
    pub next_handle: u64,
}

/// The handle counter after one resource was created.
pub open spec fn next_handle_after(h: u64) -> u64 {
    if h == u64::MAX {
        0
    } else {
        (h + 1) as u64
    }
}

impl Device {
    pub fn new() -> (r: Device)
        ensures
            r.next_handle == 0,
    {
        Device { next_handle: 0 }
    }

    fn take_handle(&mut self) -> (h: u64)
        ensures
            h == old(self).next_handle,
            final(self).next_handle == next_handle_after(old(self).next_handle),
    {
        let h = self.next_handle;
        self.next_handle = if h == u64::MAX {
            0
        } else {
            h + 1
        };
        h
    }

    /// Uploads `data` into a new vertex-role buffer.
    pub fn create_vertex_buffer(&mut self, data: Vec<ModelVertex>) -> (b: GpuBuffer)
        ensures
            b.usage == BufferUsage::Vertex,
            b.contents == BufferContents::Vertices(data),
            b.handle == old(self).next_handle,
            final(self).next_handle == next_handle_after(old(self).next_handle),
    {
        let handle = self.take_handle();
        GpuBuffer { handle, usage: BufferUsage::Vertex, contents: BufferContents::Vertices(data) }
    }

    /// Uploads `data` into a new index-role buffer.
    pub fn create_index_buffer(&mut self, data: Vec<u32>) -> (b: GpuBuffer)
        ensures
            b.usage == BufferUsage::Index,
            b.contents == BufferContents::Indices(data),
            b.handle == old(self).next_handle,
            final(self).next_handle == next_handle_after(old(self).next_handle),
    {
        let handle = self.take_handle();
        GpuBuffer { handle, usage: BufferUsage::Index, contents: BufferContents::Indices(data) }
    }

    /// Binds `bindings` into a new resource group shaped by `layout`.
    pub fn create_bind_group(&mut self, layout: &BindGroupLayout, bindings: Vec<Binding>) -> (g:
        BindGroup)
        requires
            bindings_match_layout(bindings@, *layout),
        ensures
            g.bindings == bindings,
            g.handle == old(self).next_handle,
            final(self).next_handle == next_handle_after(old(self).next_handle),
    {
        let handle = self.take_handle();
        BindGroup { handle, bindings }
    }
}

} // verus!
