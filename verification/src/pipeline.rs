//! The pipeline registry: the shared bind-group layout, the two compute
//! program descriptors ("init" and "update" entry points), the handles
//! under which their compilation is queued, and the per-frame bind group
//! that maps the layout's single binding slot to the frame's output image
//! view.
//!
//! Compilation itself happens on an external, asynchronous compiler that
//! the registry only polls; a poll result is one of the three
//! `PipelineStatus` values and is handed to the simulation node as a plain
//! value each frame.

use vstd::prelude::*;

verus! {

/// The kind of resource a binding slot declares. This system binds a
/// single write-only 2-D storage texture.
#[derive(Clone, Copy, PartialEq, Eq, Structural, Debug)]
pub enum BindingKind {
    StorageTexture2DWriteOnly,
}

/// One slot of a bind-group layout: which binding index, and what kind of
/// resource a compute program expects there.
#[derive(Clone, Copy, PartialEq, Eq, Structural, Debug)]
pub struct BindGroupLayoutEntry {
    pub binding: u32,
    pub kind: BindingKind,
}

/// A fixed declaration of the resources a compute program expects;
/// created once and shared by both compiled programs.
#[derive(Debug)]
pub struct BindGroupLayout {
    pub entries: Vec<BindGroupLayoutEntry>,
}

/// The one layout this system uses: exactly one write-only 2-D storage
/// texture at binding slot 0.
pub open spec fn is_single_texture_layout(l: BindGroupLayout) -> bool {
    &&& l.entries@.len() == 1
    &&& l.entries@[0].binding == 0
    &&& l.entries@[0].kind is StorageTexture2DWriteOnly
}

/// The entry point a compute program descriptor selects in the shader
/// source. By convention the source exposes exactly these two.
#[derive(Clone, Copy, PartialEq, Eq, Structural, Debug)]
pub enum ShaderEntryPoint {
    Init,
    Update,
}

impl ShaderEntryPoint {
    /// The entry point's conventional name in the shader source.
    pub fn name(&self) -> (r: &'static str)
        ensures
            *self is Init ==> r@ == "init"@,
            *self is Update ==> r@ == "update"@,
    {
        match self {
            ShaderEntryPoint::Init => "init",
            ShaderEntryPoint::Update => "update",
        }
    }
}

/// Everything needed to queue one compute program for compilation: the
/// entry point and the layout it is compiled against.
#[derive(Debug)]
pub struct ComputePipelineDescriptor {
    pub entry_point: ShaderEntryPoint,
    pub layout: BindGroupLayout,
}

/// Opaque identifier of a queued compute program; readiness is polled
/// from the external compiler under this handle.
#[derive(Clone, Copy, PartialEq, Eq, Structural, Debug)]
pub struct PipelineHandle {
    pub id: u32,
}

/// The non-blocking readiness of a queued compute program. A program may
/// stay `Compiling` for arbitrarily many frames; the external compiler
/// never moves a program back from `Ready`.
#[derive(Clone, Copy, PartialEq, Eq, Structural, Debug)]
pub enum PipelineStatus {
    Compiling,
    Ready,
    Failed,
}

/// The registry of the two compute programs: the shared layout, the two
/// descriptors built against it, and the handles under which their
/// compilation was queued.
#[derive(Debug)]
pub struct VoxelShadersPipeline {
    pub init_pipeline: PipelineHandle,
    pub update_pipeline: PipelineHandle,
    pub texture_bind_group_layout: BindGroupLayout,
    pub init_descriptor: ComputePipelineDescriptor,
    pub update_descriptor: ComputePipelineDescriptor,
}

impl VoxelShadersPipeline {
    /// The registry's invariant: the shared layout declares the single
    /// texture binding; both descriptors use that same layout; one
    /// descriptor selects each entry point; the two handles are distinct.
    pub open spec fn wf(self) -> bool {
        &&& is_single_texture_layout(self.texture_bind_group_layout)
        &&& self.init_descriptor.entry_point is Init
        &&& self.update_descriptor.entry_point is Update
        &&& self.init_descriptor.layout.entries@ == self.texture_bind_group_layout.entries@
        &&& self.update_descriptor.layout.entries@ == self.texture_bind_group_layout.entries@
        &&& self.init_pipeline != self.update_pipeline
    }

    /// Build the registry: one shared single-texture layout, and the two
    /// program descriptors queued under distinct handles.
    pub fn new() -> (r: Self)
        ensures
            r.wf(),
            r.init_pipeline.id == 0,
            r.update_pipeline.id == 1,
    {
        let texture_bind_group_layout = single_texture_bind_group_layout();
        let init_layout = single_texture_bind_group_layout();
        let update_layout = single_texture_bind_group_layout();
        proof {
            assert(init_layout.entries@ =~= texture_bind_group_layout.entries@);
            assert(update_layout.entries@ =~= texture_bind_group_layout.entries@);
        }
        VoxelShadersPipeline {
            init_pipeline: PipelineHandle { id: 0 },
            update_pipeline: PipelineHandle { id: 1 },
            texture_bind_group_layout,
            init_descriptor: ComputePipelineDescriptor {
                entry_point: ShaderEntryPoint::Init,
                layout: init_layout,
            },
            update_descriptor: ComputePipelineDescriptor {
                entry_point: ShaderEntryPoint::Update,
                layout: update_layout,
            },
        }
    }
}

/// Declare the layout both compute programs expect: one write-only 2-D
/// storage texture at binding slot 0.
fn single_texture_bind_group_layout() -> (r: BindGroupLayout)
    ensures
        is_single_texture_layout(r),
        r.entries@ =~= seq![
            BindGroupLayoutEntry { binding: 0, kind: BindingKind::StorageTexture2DWriteOnly },
        ],
{
    let mut entries: Vec<BindGroupLayoutEntry> = Vec::new();
    entries.push(BindGroupLayoutEntry { binding: 0, kind: BindingKind::StorageTexture2DWriteOnly });
    BindGroupLayout { entries }
}

/// The per-frame concrete binding of GPU resources to the shared layout:
/// the output image view (identified host-side by a plain id) bound at
/// slot 0.
#[derive(Clone, Copy, PartialEq, Eq, Structural, Debug)]
pub struct BindGroup {
    pub binding0_view: u64,
}

/// The bind-group builder: runs once per frame, after the output image has
/// been resolved to its GPU-side view for that frame, and maps binding
/// slot 0 to that view. The result replaces any bind group of an earlier
/// frame.
pub fn queue_bind_group(pipeline: &VoxelShadersPipeline, image_view: u64) -> (r: BindGroup)
    requires
        pipeline.wf(),
    ensures
        r.binding0_view == image_view,
{
    BindGroup { binding0_view: image_view }
}

} // verus!
