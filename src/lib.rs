//! Reference grids for a 3D scene: line-list meshes built from grid
//! descriptors, the materials that draw them, the bookkeeping of generated
//! child entities, and the snapping that makes a tracked grid look infinite.
pub mod axis;
pub mod material;
pub mod mesh;
pub mod mesher;
pub mod model;
pub mod registry;
pub mod schedule;
pub mod tracking;

pub use material::{ClippedLineMaterial, LineMaterial, SimpleLineMaterial};
pub use mesh::{main_grid_vertices_and_size, sub_grid_vertices_and_scale, SUB_GRID_NORMAL_OFFSET};
pub use mesher::{
    grid_axis_mesher, main_grid_mesher_tracked, main_grid_mesher_untracked, sub_grid_mesher,
    ChildSpec, LineMesh,
};
pub use model::{
    EntityId, Grid, GridAlignment, GridAxis, SubGrid, TrackedGrid, Vec3i, TICKS_PER_UNIT,
};
pub use registry::{ChildKind, ChildRecord, ChildRegistry};
pub use schedule::{passes_to_run, reaped_kinds, ComponentFlags, DescriptorKind, MesherPasses};
pub use tracking::{custom_tracked_grid_updater, tracked_grid_updater, tracked_translation};
