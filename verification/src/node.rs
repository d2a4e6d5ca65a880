//! The simulation node: a three-state machine (Loading, Init, Update)
//! that, once per frame, advances on the polled readiness of the two
//! compute programs and then decides which single compute dispatch — if
//! any — that frame issues.

use crate::engine::SimulationGrid;
use crate::engine::WorkgroupCounts;
use crate::pipeline::BindGroup;
use crate::pipeline::PipelineHandle;
use crate::pipeline::PipelineStatus;
use crate::pipeline::VoxelShadersPipeline;
use vstd::prelude::*;

verus! {

/// The node's state. Initial state is `Loading`; `Update` is terminal.
#[derive(Clone, Copy, PartialEq, Eq, Structural, Debug)]
pub enum VoxelSandboxState {
    Loading,
    Init,
    Update,
}

/// The position of a state along the one legal path
/// `Loading -> Init -> Update`.
pub open spec fn state_index(s: VoxelSandboxState) -> int {
    match s {
        VoxelSandboxState::Loading => 0,
        VoxelSandboxState::Init => 1,
        VoxelSandboxState::Update => 2,
    }
}

/// The per-frame advance step as a function of the polled readiness of
/// the two programs: `Loading` moves to `Init` exactly when the init
/// program is ready, `Init` moves to `Update` exactly when the update
/// program is ready, and `Update` never transitions.
pub open spec fn spec_advance(
    s: VoxelSandboxState,
    init_status: PipelineStatus,
    update_status: PipelineStatus,
) -> VoxelSandboxState {
    match s {
        VoxelSandboxState::Loading => if init_status is Ready {
            VoxelSandboxState::Init
        } else {
            VoxelSandboxState::Loading
        },
        VoxelSandboxState::Init => if update_status is Ready {
            VoxelSandboxState::Update
        } else {
            VoxelSandboxState::Init
        },
        VoxelSandboxState::Update => VoxelSandboxState::Update,
    }
}

/// The state after a whole sequence of frames, each polling the two
/// programs once; `observations[k]` is frame `k`'s (init, update)
/// readiness pair.
pub open spec fn spec_advance_seq(
    s: VoxelSandboxState,
    observations: Seq<(PipelineStatus, PipelineStatus)>,
) -> VoxelSandboxState
    decreases observations.len(),
{
    if observations.len() == 0 {
        s
    } else {
        spec_advance_seq(
            spec_advance(s, observations[0].0, observations[0].1),
            observations.drop_first(),
        )
    }
}

/// One compute dispatch as the node issues it: which queued program runs,
/// against which bind group, over which workgroup grid.
#[derive(Clone, Copy, PartialEq, Eq, Structural, Debug)]
pub struct Dispatch {
    pub pipeline: PipelineHandle,
    pub bind_group: BindGroup,
    pub workgroups: WorkgroupCounts,
}

/// The simulation node; it owns its state exclusively, and only its own
/// per-frame `update` step mutates it.
#[derive(Debug)]
pub struct VoxelSandboxNode {
    pub state: VoxelSandboxState,
}

impl Default for VoxelSandboxNode {
    /// A fresh node starts in `Loading`.
    fn default() -> (r: Self)
        ensures
            r.state is Loading,
    {
        Self { state: VoxelSandboxState::Loading }
    }
}

impl VoxelSandboxNode {
    /// The per-frame advance step: transition on the polled readiness of
    /// whichever program the current state awaits. Runs before `run`
    /// each frame. A `Failed` or `Compiling` poll leaves the state
    /// unchanged.
    pub fn update(&mut self, init_status: PipelineStatus, update_status: PipelineStatus)
        ensures
            final(self).state == spec_advance(old(self).state, init_status, update_status),
    {
        match self.state {
            VoxelSandboxState::Loading => {
                if let PipelineStatus::Ready = init_status {
                    self.state = VoxelSandboxState::Init;
                }
            },
            VoxelSandboxState::Init => {
                if let PipelineStatus::Ready = update_status {
                    self.state = VoxelSandboxState::Update;
                }
            },
            VoxelSandboxState::Update => {},
        }
    }

    /// The per-frame dispatch step, reading the (possibly just-updated)
    /// state: no GPU work in `Loading`; exactly one dispatch of the init
    /// program in `Init`; exactly one dispatch of the update program in
    /// `Update`. With no bind group for this frame the dispatch is
    /// skipped. The workgroup grid is always
    /// `ceil(width / WORKGROUP_SIZE)` x `ceil(height / WORKGROUP_SIZE)` x 1.
    pub fn run(
        &self,
        pipeline: &VoxelShadersPipeline,
        bind_group: Option<BindGroup>,
        grid: &SimulationGrid,
    ) -> (d: Option<Dispatch>)
        requires
            grid.wf(),
        ensures
            bind_group is None ==> d is None,
            self.state is Loading ==> d is None,
            self.state is Init ==> (bind_group matches Some(bg) ==> d == Some(
                Dispatch {
                    pipeline: pipeline.init_pipeline,
                    bind_group: bg,
                    workgroups: (WorkgroupCounts {
                        x: (grid.spec_workgroups_x() as u32),
                        y: (grid.spec_workgroups_y() as u32),
                        z: 1u32,
                    }),
                },
            )),
            self.state is Update ==> (bind_group matches Some(bg) ==> d == Some(
                Dispatch {
                    pipeline: pipeline.update_pipeline,
                    bind_group: bg,
                    workgroups: (WorkgroupCounts {
                        x: (grid.spec_workgroups_x() as u32),
                        y: (grid.spec_workgroups_y() as u32),
                        z: 1u32,
                    }),
                },
            )),
    {
        let bg = match bind_group {
            Some(bg) => bg,
            None => {
                return None;
            },
        };
        match self.state {
            VoxelSandboxState::Loading => None,
            VoxelSandboxState::Init => Some(
                Dispatch {
                    pipeline: pipeline.init_pipeline,
                    bind_group: bg,
                    workgroups: grid.workgroup_counts(),
                },
            ),
            VoxelSandboxState::Update => Some(
                Dispatch {
                    pipeline: pipeline.update_pipeline,
                    bind_group: bg,
                    workgroups: grid.workgroup_counts(),
                },
            ),
        }
    }
}

/// One advance step is monotonic along `Loading -> Init -> Update` and
/// moves at most one state forward; it moves exactly when the awaited
/// program is ready.
pub proof fn lemma_advance_monotonic_step(
    s: VoxelSandboxState,
    init_status: PipelineStatus,
    update_status: PipelineStatus,
)
    ensures
        state_index(s) <= state_index(spec_advance(s, init_status, update_status)),
        state_index(spec_advance(s, init_status, update_status)) <= state_index(s) + 1,
        state_index(spec_advance(s, init_status, update_status)) == state_index(s) + 1 <==> (s
            is Loading && init_status is Ready) || (s is Init && update_status is Ready),
{
}

/// No sequence of readiness observations can move the state backwards:
/// after any run of frames the state's position along
/// `Loading -> Init -> Update` is at least where it started.
pub proof fn lemma_advance_seq_monotonic(
    s: VoxelSandboxState,
    observations: Seq<(PipelineStatus, PipelineStatus)>,
)
    ensures
        state_index(s) <= state_index(spec_advance_seq(s, observations)),
    decreases observations.len(),
{
    if observations.len() > 0 {
        lemma_advance_seq_monotonic(
            spec_advance(s, observations[0].0, observations[0].1),
            observations.drop_first(),
        );
    }
}

/// If the init program is never observed ready (for instance, its
/// compilation permanently failed), the node never leaves `Loading`.
pub proof fn lemma_init_never_ready_stays_loading(
    observations: Seq<(PipelineStatus, PipelineStatus)>,
)
    requires
        forall|k: int| 0 <= k < observations.len() ==> !((#[trigger] observations[k]).0 is Ready),
    ensures
        spec_advance_seq(VoxelSandboxState::Loading, observations) is Loading,
    decreases observations.len(),
{
    if observations.len() > 0 {
        lemma_init_never_ready_stays_loading(observations.drop_first());
    }
}

/// If the update program is never observed ready, the node never reaches
/// `Update` from any earlier state.
pub proof fn lemma_update_never_ready_stays_short_of_update(
    s: VoxelSandboxState,
    observations: Seq<(PipelineStatus, PipelineStatus)>,
)
    requires
        s !is Update,
        forall|k: int| 0 <= k < observations.len() ==> !((#[trigger] observations[k]).1 is Ready),
    ensures
        spec_advance_seq(s, observations) !is Update,
    decreases observations.len(),
{
    if observations.len() > 0 {
        lemma_update_never_ready_stays_short_of_update(
            spec_advance(s, observations[0].0, observations[0].1),
            observations.drop_first(),
        );
    }
}

} // verus!
