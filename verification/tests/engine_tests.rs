use sandboxed::buffers::BufferUsage;
use sandboxed::buffers::DoubleBufferIndices;
use sandboxed::buffers::VoxelPipelineBuffers;
use sandboxed::buffers::create_storage_buffer_with_data;
use sandboxed::buffers::create_uniform_buffer;
use sandboxed::engine::SimulationGrid;
use sandboxed::engine::VoxelEngine;
use sandboxed::pipeline::PipelineStatus;
use sandboxed::pipeline::ShaderEntryPoint;
use sandboxed::pipeline::VoxelShadersPipeline;
use sandboxed::pipeline::queue_bind_group;
use sandboxed::node::VoxelSandboxNode;
use sandboxed::node::VoxelSandboxState;

#[test]
fn storage_buffers_sized_and_zeroed_for_small_grid() {
    let grid = SimulationGrid::new(3, 5);
    let buffers = VoxelPipelineBuffers::new(&grid);
    assert_eq!(buffers.in_out_double_buffers.len(), 2);
    for buffer in &buffers.in_out_double_buffers {
        assert_eq!(buffer.usage, BufferUsage::Storage);
        assert_eq!(buffer.words.len(), 15);
        assert!(buffer.words.iter().all(|&w| w == 0));
    }
    assert_eq!(buffers.dimentions.usage, BufferUsage::Uniform);
    assert_eq!(buffers.dimentions.words, vec![3, 5]);
}

#[test]
fn swap_twice_restores_the_index_pair() {
    let mut indices = DoubleBufferIndices::default();
    assert_eq!(indices.current, 0);
    assert_eq!(indices.next, 1);
    indices.swap();
    assert_eq!(indices.current, 1);
    assert_eq!(indices.next, 0);
    indices.swap();
    assert_eq!(indices.current, 0);
    assert_eq!(indices.next, 1);
}

#[test]
fn swap_alternates_with_the_call_count() {
    let mut indices = DoubleBufferIndices::default();
    for n in 1..10usize {
        indices.swap();
        assert_eq!(indices.current, n % 2);
        assert_eq!(indices.next, (n + 1) % 2);
    }
}

#[test]
fn state_machine_follows_the_one_legal_path() {
    let mut node = VoxelSandboxNode::default();
    assert_eq!(node.state, VoxelSandboxState::Loading);

    node.update(PipelineStatus::Compiling, PipelineStatus::Compiling);
    assert_eq!(node.state, VoxelSandboxState::Loading);

    // The update program being ready does not let Loading skip ahead.
    node.update(PipelineStatus::Compiling, PipelineStatus::Ready);
    assert_eq!(node.state, VoxelSandboxState::Loading);

    node.update(PipelineStatus::Ready, PipelineStatus::Compiling);
    assert_eq!(node.state, VoxelSandboxState::Init);

    // The init program's status no longer matters in Init.
    node.update(PipelineStatus::Failed, PipelineStatus::Compiling);
    assert_eq!(node.state, VoxelSandboxState::Init);

    node.update(PipelineStatus::Failed, PipelineStatus::Ready);
    assert_eq!(node.state, VoxelSandboxState::Update);

    // Update is terminal, whatever is observed afterwards.
    node.update(PipelineStatus::Failed, PipelineStatus::Failed);
    assert_eq!(node.state, VoxelSandboxState::Update);
    node.update(PipelineStatus::Compiling, PipelineStatus::Compiling);
    assert_eq!(node.state, VoxelSandboxState::Update);
}

#[test]
fn loading_issues_no_dispatch_init_and_update_issue_one_each() {
    let mut engine = VoxelEngine::new(800, 600);

    // Frame 1: still loading, bind group present: no dispatch.
    let d1 = engine.frame(PipelineStatus::Compiling, PipelineStatus::Compiling, Some(11));
    assert_eq!(engine.node.state, VoxelSandboxState::Loading);
    assert!(d1.is_none());

    // Frame 2: init program ready: one dispatch of the init program.
    let d2 = engine.frame(PipelineStatus::Ready, PipelineStatus::Compiling, Some(11));
    assert_eq!(engine.node.state, VoxelSandboxState::Init);
    let d2 = d2.expect("the Init frame issues exactly one dispatch");
    assert_eq!(d2.pipeline, engine.pipeline.init_pipeline);
    assert_eq!(d2.bind_group.binding0_view, 11);

    // Frame 3: update program ready: one dispatch of the update program.
    let d3 = engine.frame(PipelineStatus::Ready, PipelineStatus::Ready, Some(11));
    assert_eq!(engine.node.state, VoxelSandboxState::Update);
    let d3 = d3.expect("an Update frame issues exactly one dispatch");
    assert_eq!(d3.pipeline, engine.pipeline.update_pipeline);
}

#[test]
fn update_dispatch_is_followed_by_exactly_one_swap() {
    let mut engine = VoxelEngine::new(16, 16);
    engine.frame(PipelineStatus::Ready, PipelineStatus::Ready, Some(1));
    assert_eq!(engine.node.state, VoxelSandboxState::Init);
    assert_eq!(engine.buffers.double_indices.current, 0);
    assert_eq!(engine.buffers.double_indices.next, 1);

    // First update dispatch: one swap.
    engine.frame(PipelineStatus::Ready, PipelineStatus::Ready, Some(1));
    assert_eq!(engine.node.state, VoxelSandboxState::Update);
    assert_eq!(engine.buffers.double_indices.current, 1);
    assert_eq!(engine.buffers.double_indices.next, 0);

    // A skipped Update frame (no bind group) does not swap.
    let skipped = engine.frame(PipelineStatus::Ready, PipelineStatus::Ready, None);
    assert!(skipped.is_none());
    assert_eq!(engine.buffers.double_indices.current, 1);
    assert_eq!(engine.buffers.double_indices.next, 0);

    // The next dispatched Update frame swaps back.
    engine.frame(PipelineStatus::Ready, PipelineStatus::Ready, Some(2));
    assert_eq!(engine.buffers.double_indices.current, 0);
    assert_eq!(engine.buffers.double_indices.next, 1);
}

#[test]
fn workgroup_counts_match_the_ceiling_formula() {
    let grid = SimulationGrid::new(800, 600);
    let counts = grid.workgroup_counts();
    assert_eq!((counts.x, counts.y, counts.z), (100, 75, 1));

    // Dimensions that are not multiples of the workgroup edge round up.
    let grid = SimulationGrid::new(10, 9);
    let counts = grid.workgroup_counts();
    assert_eq!((counts.x, counts.y, counts.z), (2, 2, 1));

    // Minimal grid still dispatches one workgroup.
    let grid = SimulationGrid::new(1, 1);
    let counts = grid.workgroup_counts();
    assert_eq!((counts.x, counts.y, counts.z), (1, 1, 1));
}

#[test]
fn dispatch_carries_the_configured_workgroup_grid() {
    let mut engine = VoxelEngine::new(800, 600);
    let d = engine
        .frame(PipelineStatus::Ready, PipelineStatus::Compiling, Some(3))
        .expect("init dispatch");
    assert_eq!(d.workgroups.x, 100);
    assert_eq!(d.workgroups.y, 75);
    assert_eq!(d.workgroups.z, 1);
}

#[test]
fn permanently_failed_init_program_pins_the_node_to_loading() {
    let mut engine = VoxelEngine::new(8, 8);
    for frame in 0..50u64 {
        let d = engine.frame(PipelineStatus::Failed, PipelineStatus::Ready, Some(frame));
        assert_eq!(engine.node.state, VoxelSandboxState::Loading);
        assert!(d.is_none(), "no dispatch may ever use a failed program");
    }
}

#[test]
fn permanently_failed_update_program_pins_the_node_to_init() {
    let mut engine = VoxelEngine::new(8, 8);
    engine.frame(PipelineStatus::Ready, PipelineStatus::Failed, Some(0));
    for frame in 0..50u64 {
        let d = engine.frame(PipelineStatus::Ready, PipelineStatus::Failed, Some(frame));
        assert_eq!(engine.node.state, VoxelSandboxState::Init);
        let d = d.expect("the Init frame still dispatches the init program");
        assert_eq!(d.pipeline, engine.pipeline.init_pipeline);
    }
}

#[test]
fn end_to_end_store_for_the_configured_grid() {
    let engine = VoxelEngine::new(800, 600);
    assert_eq!(engine.buffers.dimentions.words, vec![800, 600]);
    assert_eq!(engine.buffers.in_out_double_buffers.len(), 2);
    for buffer in &engine.buffers.in_out_double_buffers {
        assert_eq!(buffer.words.len(), 480_000);
        assert!(buffer.words.iter().all(|&w| w == 0));
    }
}

#[test]
fn uniform_payload_is_the_words_in_device_byte_order() {
    let dims = create_uniform_buffer(&vec![800, 600]);
    let payload = dims.payload();
    let mut expected = Vec::new();
    expected.extend_from_slice(&800u32.to_ne_bytes());
    expected.extend_from_slice(&600u32.to_ne_bytes());
    assert_eq!(payload, expected);
}

#[test]
fn storage_payload_of_a_zeroed_buffer_is_all_zero_bytes() {
    let storage = create_storage_buffer_with_data(&vec![0; 12]);
    assert_eq!(storage.usage, BufferUsage::Storage);
    let payload = storage.payload();
    assert_eq!(payload.len(), 48);
    assert!(payload.iter().all(|&b| b == 0));
}

#[test]
fn registry_queues_both_programs_against_the_shared_layout() {
    let registry = VoxelShadersPipeline::new();
    assert_ne!(registry.init_pipeline, registry.update_pipeline);
    assert_eq!(registry.texture_bind_group_layout.entries.len(), 1);
    assert_eq!(registry.texture_bind_group_layout.entries[0].binding, 0);
    assert_eq!(registry.init_descriptor.entry_point, ShaderEntryPoint::Init);
    assert_eq!(registry.update_descriptor.entry_point, ShaderEntryPoint::Update);
    assert_eq!(
        registry.init_descriptor.layout.entries,
        registry.texture_bind_group_layout.entries
    );
    assert_eq!(
        registry.update_descriptor.layout.entries,
        registry.texture_bind_group_layout.entries
    );
    assert_eq!(registry.init_descriptor.entry_point.name(), "init");
    assert_eq!(registry.update_descriptor.entry_point.name(), "update");
}

#[test]
fn bind_group_maps_slot_zero_to_the_frame_view() {
    let registry = VoxelShadersPipeline::new();
    let bind_group = queue_bind_group(&registry, 42);
    assert_eq!(bind_group.binding0_view, 42);
}

#[test]
fn each_frame_replaces_the_bind_group() {
    let mut engine = VoxelEngine::new(8, 8);
    engine.frame(PipelineStatus::Compiling, PipelineStatus::Compiling, Some(5));
    assert_eq!(engine.bind_group.map(|b| b.binding0_view), Some(5));
    engine.frame(PipelineStatus::Compiling, PipelineStatus::Compiling, Some(6));
    assert_eq!(engine.bind_group.map(|b| b.binding0_view), Some(6));
    engine.frame(PipelineStatus::Compiling, PipelineStatus::Compiling, None);
    assert!(engine.bind_group.is_none());
}
