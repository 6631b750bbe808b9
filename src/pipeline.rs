//! The per-step compute schedule of the particle-collision simulation and
//! the spatial grid it bins particles into.
//!
//! The simulation bounds span `[-1, 1]` on each axis, `GRID_SPAN` units.

use vstd::prelude::*;

verus! {

/// Width of the simulation bounds in units of `1 / UNIT`.
pub const GRID_SPAN: i64 = 2_000_000;

/// Most cells along one side of the grid.
pub const MAX_CELLS_PER_SIDE: i64 = 1024;

/// The compute passes of one step.
#[derive(Clone, Copy, Debug, PartialEq, Eq, Structural)]
pub enum ComputePass {
    /// Zero the per-cell occupancy counters.
    GridClear,
    /// Scatter each particle index into its cell.
    GridPopulate,
    /// Sum neighbour contributions into a local density.
    DensityCompute,
    /// Apply forces, collisions and damping, then move the particles.
    PhysicsIntegrate,
}

/// The order of the passes within one step; each reads only what the passes
/// before it finished writing.
pub open spec fn pass_order() -> Seq<ComputePass> {
    seq![
        ComputePass::GridClear,
        ComputePass::GridPopulate,
        ComputePass::DensityCompute,
        ComputePass::PhysicsIntegrate,
    ]
}

/// The passes of one step, in the order they are submitted.
pub fn step_passes() -> (r: Vec<ComputePass>)
    ensures
        r@ == pass_order(),
{
    let r = vec![
        ComputePass::GridClear,
        ComputePass::GridPopulate,
        ComputePass::DensityCompute,
        ComputePass::PhysicsIntegrate,
    ];
    assert(r@ =~= pass_order());
    r
}

/// The pass that follows `pass` within a step; `None` after the last.
pub fn next_pass(pass: ComputePass) -> (r: Option<ComputePass>)
    ensures
        forall|i: int|
            0 <= i < pass_order().len() && #[trigger] pass_order()[i] == pass ==> if i + 1 < pass_order().len() {
                r == Some(pass_order()[i + 1])
            } else {
                r is None
            },
{
    match pass {
        ComputePass::GridClear => Some(ComputePass::GridPopulate),
        ComputePass::GridPopulate => Some(ComputePass::DensityCompute),
        ComputePass::DensityCompute => Some(ComputePass::PhysicsIntegrate),
        ComputePass::PhysicsIntegrate => None,
    }
}

/// A uniform grid over the simulation bounds.
#[derive(Clone, Copy, Debug, PartialEq, Eq, Structural)]
pub struct GridLayout {
    pub cells_per_side: u32,
    /// Side of one cell in units of `1 / UNIT`.
    pub cell_size: i64,
}

/// Cells per side for a density radius: as many as fit whole, at least one
/// and at most `MAX_CELLS_PER_SIDE`.
pub open spec fn cells_for_radius(density_radius: int) -> int {
    let fit = GRID_SPAN as int / density_radius;
    if fit < 1 {
        1
    } else if fit > MAX_CELLS_PER_SIDE {
        MAX_CELLS_PER_SIDE as int
    } else {
        fit
    }
}

/// The grid whose cells are no narrower than the density radius, so that a
/// particle's neighbours within that radius lie in its own or an adjacent
/// cell.
pub fn grid_layout(density_radius: i64) -> (r: GridLayout)
    requires
        density_radius > 0,
    ensures
        r.cells_per_side == cells_for_radius(density_radius as int),
        r.cell_size == (GRID_SPAN + r.cells_per_side - 1) / (r.cells_per_side as int),
        r.cells_per_side * r.cell_size >= GRID_SPAN,
        density_radius <= GRID_SPAN ==> r.cell_size >= density_radius,
{
    let fit = GRID_SPAN / density_radius;
    let cells: i64 = if fit < 1 {
        1
    } else if fit > MAX_CELLS_PER_SIDE {
        MAX_CELLS_PER_SIDE
    } else {
        fit
    };
    let cell_size = (GRID_SPAN + cells - 1) / cells;
    proof {
        let c = cells as int;
        let s = cell_size as int;
        vstd::arithmetic::div_mod::lemma_fundamental_div_mod(GRID_SPAN + c - 1, c);
        assert(c * s >= GRID_SPAN) by (nonlinear_arith)
            requires
                GRID_SPAN + c - 1 == c * s + (GRID_SPAN + c - 1) % c,
                0 <= (GRID_SPAN + c - 1) % c < c,
        ;
        if density_radius <= GRID_SPAN {
            let d = density_radius as int;
            vstd::arithmetic::div_mod::lemma_fundamental_div_mod(GRID_SPAN as int, d);
            assert(fit >= 1) by {
                vstd::arithmetic::div_mod::lemma_div_is_ordered(d, GRID_SPAN as int, d);
                vstd::arithmetic::div_mod::lemma_div_by_self(d);
            }
            assert(c * d <= GRID_SPAN) by (nonlinear_arith)
                requires
                    GRID_SPAN == d * fit + (GRID_SPAN as int) % d,
                    0 <= (GRID_SPAN as int) % d,
                    1 <= c <= fit,
                    d > 0,
            ;
            assert(s >= d) by (nonlinear_arith)
                requires
                    c * s >= GRID_SPAN,
                    c * d <= GRID_SPAN,
                    c >= 1,
            ;
        }
    }
    GridLayout { cells_per_side: cells as u32, cell_size }
}

} // verus!
