//! The simulation engine's configuration and its frame-loop owner: the
//! grid dimensions fixed at startup, the workgroup-aligned dispatch
//! sizing, and the owner that holds the buffer store, the pipeline
//! registry and the simulation node and drives their per-frame steps.

use crate::buffers::VoxelPipelineBuffers;
use crate::node::Dispatch;
use crate::node::VoxelSandboxState;
use crate::node::VoxelSandboxNode;
use crate::node::spec_advance;
use crate::pipeline::BindGroup;
use crate::pipeline::PipelineStatus;
use crate::pipeline::VoxelShadersPipeline;
use crate::pipeline::queue_bind_group;
use vstd::prelude::*;

verus! {

/// The grid size this system is configured with.
pub const SIM_WIDTH: u32 = 800;

/// The grid size this system is configured with.
pub const SIM_HEIGHT: u32 = 600;

/// The fixed local workgroup edge size of both compute programs; the
/// host-side dispatch grid is sized by rounding each grid dimension up to
/// a multiple of it.
pub const WORKGROUP_SIZE: u32 = 8;

/// `x / d` rounded up.
pub open spec fn spec_div_ceil(x: nat, d: nat) -> nat
    recommends
        d > 0,
{
    (((x + d - 1) as int) / (d as int)) as nat
}

/// The size of one compute dispatch's workgroup grid, per axis.
#[derive(Clone, Copy, PartialEq, Eq, Structural, Debug)]
pub struct WorkgroupCounts {
    pub x: u32,
    pub y: u32,
    pub z: u32,
}

/// Immutable simulation configuration: grid width and height, fixed
/// before any frame executes.
#[derive(Clone, Copy, PartialEq, Eq, Structural, Debug)]
pub struct SimulationGrid {
    pub width: u32,
    pub height: u32,
}

impl SimulationGrid {
    /// Valid grid sizes: both dimensions positive, and the cell count
    /// representable in 32 bits so the storage buffers can be sized.
    pub open spec fn wf(self) -> bool {
        &&& 0 < self.width
        &&& 0 < self.height
        &&& self.width * self.height <= u32::MAX
    }

    /// The number of cells one storage buffer holds.
    pub open spec fn spec_voxels(self) -> nat {
        (self.width * self.height) as nat
    }

    /// The dispatch grid's x extent: `ceil(width / WORKGROUP_SIZE)`.
    pub open spec fn spec_workgroups_x(self) -> nat {
        spec_div_ceil(self.width as nat, WORKGROUP_SIZE as nat)
    }

    /// The dispatch grid's y extent: `ceil(height / WORKGROUP_SIZE)`.
    pub open spec fn spec_workgroups_y(self) -> nat {
        spec_div_ceil(self.height as nat, WORKGROUP_SIZE as nat)
    }

    pub fn new(width: u32, height: u32) -> (r: Self)
        requires
            0 < width,
            0 < height,
            width * height <= u32::MAX,
        ensures
            r.width == width,
            r.height == height,
            r.wf(),
    {
        SimulationGrid { width, height }
    }

    /// The cell count of one storage buffer.
    pub fn voxels(&self) -> (r: u32)
        requires
            self.wf(),
        ensures
            r == self.spec_voxels(),
    {
        self.width * self.height
    }

    /// The workgroup counts of one compute dispatch over this grid:
    /// `ceil(width / WORKGROUP_SIZE)` x `ceil(height / WORKGROUP_SIZE)` x 1.
    pub fn workgroup_counts(&self) -> (r: WorkgroupCounts)
        requires
            self.wf(),
        ensures
            r.x == self.spec_workgroups_x(),
            r.y == self.spec_workgroups_y(),
            r.z == 1,
    {
        let x = self.width / WORKGROUP_SIZE
            + (if self.width % WORKGROUP_SIZE == 0 { 0 } else { 1 });
        let y = self.height / WORKGROUP_SIZE
            + (if self.height % WORKGROUP_SIZE == 0 { 0 } else { 1 });
        proof {
            lemma_div_ceil_by_quotient(self.width as nat, WORKGROUP_SIZE as nat);
            lemma_div_ceil_by_quotient(self.height as nat, WORKGROUP_SIZE as nat);
        }
        WorkgroupCounts { x, y, z: 1 }
    }
}

/// The frame-loop owner: it holds the dimension/buffer store, the
/// pipeline registry and the simulation node, and drives their per-frame
/// steps in order — bind-group building, then the node's advance, then
/// its dispatch, then (after an update dispatch only) the double-buffer
/// swap.
#[derive(Debug)]
pub struct VoxelEngine {
    pub grid: SimulationGrid,
    pub buffers: VoxelPipelineBuffers,
    pub pipeline: VoxelShadersPipeline,
    pub node: VoxelSandboxNode,
    pub bind_group: Option<BindGroup>,
}

impl VoxelEngine {
    /// The engine's invariant: a valid grid, a buffer store built for
    /// that grid, and a well-formed pipeline registry.
    pub open spec fn wf(self) -> bool {
        &&& self.grid.wf()
        &&& self.buffers.wf(self.grid)
        &&& self.pipeline.wf()
    }

    /// One-time startup: build the buffer store and the pipeline registry
    /// for the given grid and start the node in `Loading` with no bind
    /// group yet.
    pub fn new(width: u32, height: u32) -> (r: Self)
        requires
            0 < width,
            0 < height,
            width * height <= u32::MAX,
        ensures
            r.wf(),
            r.grid.width == width,
            r.grid.height == height,
            r.buffers.all_cells_zero(),
            r.buffers.double_indices.current == 0,
            r.buffers.double_indices.next == 1,
            r.node.state is Loading,
            r.bind_group is None,
            r.pipeline.init_pipeline.id == 0,
            r.pipeline.update_pipeline.id == 1,
    {
        let grid = SimulationGrid::new(width, height);
        let buffers = VoxelPipelineBuffers::new(&grid);
        let pipeline = VoxelShadersPipeline::new();
        VoxelEngine { grid, buffers, pipeline, node: VoxelSandboxNode::default(), bind_group: None }
    }

    /// One rendered frame: re-resolve the bind group from this frame's
    /// output image view (none resolved means no bind group and a skipped
    /// dispatch), advance the node on the polled readiness of the two
    /// programs, issue the dispatch the new state calls for, and swap the
    /// double-buffer indices exactly when an update dispatch was issued.
    /// Nothing else about the engine changes.
    pub fn frame(
        &mut self,
        init_status: PipelineStatus,
        update_status: PipelineStatus,
        resolved_view: Option<u64>,
    ) -> (d: Option<Dispatch>)
        requires
            old(self).wf(),
        ensures
            final(self).wf(),
            final(self).grid == old(self).grid,
            final(self).pipeline == old(self).pipeline,
            final(self).buffers.dimentions == old(self).buffers.dimentions,
            final(self).buffers.in_out_double_buffers == old(self).buffers.in_out_double_buffers,
            final(self).node.state == spec_advance(old(self).node.state, init_status, update_status),
            resolved_view matches Some(v) ==> final(self).bind_group == Some(
                BindGroup { binding0_view: v },
            ),
            resolved_view is None ==> final(self).bind_group is None,
            d is Some <==> final(self).bind_group is Some && !(final(self).node.state is Loading),
            final(self).node.state is Init ==> (final(self).bind_group matches Some(bg) ==> d
                == Some(
                Dispatch {
                    pipeline: old(self).pipeline.init_pipeline,
                    bind_group: bg,
                    workgroups: (WorkgroupCounts {
                        x: (old(self).grid.spec_workgroups_x() as u32),
                        y: (old(self).grid.spec_workgroups_y() as u32),
                        z: 1u32,
                    }),
                },
            )),
            final(self).node.state is Update ==> (final(self).bind_group matches Some(bg) ==> d
                == Some(
                Dispatch {
                    pipeline: old(self).pipeline.update_pipeline,
                    bind_group: bg,
                    workgroups: (WorkgroupCounts {
                        x: (old(self).grid.spec_workgroups_x() as u32),
                        y: (old(self).grid.spec_workgroups_y() as u32),
                        z: 1u32,
                    }),
                },
            )),
            d is Some && final(self).node.state is Update ==> final(self).buffers.double_indices
                == old(self).buffers.double_indices.spec_swap(),
            !(d is Some && final(self).node.state is Update) ==> final(self).buffers.double_indices
                == old(self).buffers.double_indices,
    {
        self.bind_group = match resolved_view {
            Some(v) => Some(queue_bind_group(&self.pipeline, v)),
            None => None,
        };
        self.node.update(init_status, update_status);
        let d = self.node.run(&self.pipeline, self.bind_group, &self.grid);
        if d.is_some() {
            if let VoxelSandboxState::Update = self.node.state {
                self.buffers.double_indices.swap();
            }
        }
        d
    }
}

/// Rounding up a division equals the truncating quotient, plus one when
/// the division leaves a remainder.
proof fn lemma_div_ceil_by_quotient(x: nat, d: nat)
    requires
        d > 0,
    ensures
        spec_div_ceil(x, d) == x / d + (if x % d == 0 { 0int } else { 1int }),
{
    let q = x / d;
    let r = x % d;
    assert(x == d * q + r && 0 <= r < d) by {
        vstd::arithmetic::div_mod::lemma_fundamental_div_mod(x as int, d as int);
    }
    if r == 0 {
        assert((x + d - 1) as int / d as int == q) by (nonlinear_arith)
            requires
                x == d * q && d > 0 && q >= 0,
        ;
    } else {
        assert((x + d - 1) as int / d as int == q + 1) by (nonlinear_arith)
            requires
                x == d * q + r && 0 < r < d && q >= 0,
        ;
    }
}

} // verus!

