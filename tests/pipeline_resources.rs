use vizzy::error::SimulationError;
use vizzy::pipeline::{grid_layout, next_pass, step_passes, ComputePass, GRID_SPAN, MAX_CELLS_PER_SIDE};
use vizzy::resources::ResourceSlot;

#[test]
fn passes_run_in_order() {
    assert_eq!(
        step_passes(),
        vec![
            ComputePass::GridClear,
            ComputePass::GridPopulate,
            ComputePass::DensityCompute,
            ComputePass::PhysicsIntegrate,
        ]
    );
    assert_eq!(next_pass(ComputePass::GridClear), Some(ComputePass::GridPopulate));
    assert_eq!(next_pass(ComputePass::DensityCompute), Some(ComputePass::PhysicsIntegrate));
    assert_eq!(next_pass(ComputePass::PhysicsIntegrate), None);
}

#[test]
fn grid_cells_follow_density_radius() {
    let g = grid_layout(40_000);
    assert_eq!(g.cells_per_side, 50);
    assert_eq!(g.cell_size, 40_000);
    let g = grid_layout(30_000);
    assert_eq!(g.cells_per_side, 66);
    assert_eq!(g.cell_size, 30_304);
    assert!(g.cell_size >= 30_000);
    assert!(g.cells_per_side as i64 * g.cell_size >= GRID_SPAN);
    let tiny = grid_layout(1);
    assert_eq!(tiny.cells_per_side as i64, MAX_CELLS_PER_SIDE);
    let huge = grid_layout(5 * GRID_SPAN);
    assert_eq!(huge.cells_per_side, 1);
    assert_eq!(huge.cell_size, GRID_SPAN);
}

#[test]
fn failed_rebuild_keeps_resource() {
    let mut slot = ResourceSlot::new(String::from("first"));
    assert_eq!(slot.commit(Some(String::from("second"))), Ok(()));
    assert_eq!(slot.current(), "second");
    assert_eq!(slot.generation(), 1);
    assert_eq!(slot.commit(None), Err(SimulationError::GpuResourceFailure));
    assert_eq!(slot.current(), "second");
    assert_eq!(slot.generation(), 1);
}
