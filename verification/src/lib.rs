//! Host-side orchestration of a GPU-resident, double-buffered voxel
//! simulation: the dimension/buffer store, the compute-pipeline registry,
//! the per-frame bind-group builder, and the three-state simulation node
//! that decides which compute dispatch each frame issues.

pub mod buffers;
pub mod engine;
pub mod node;
pub mod pipeline;
