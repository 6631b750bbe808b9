//! The active-simulation holder and the force-matrix commands.
//!
//! A matrix command mutates the settings and hands back the flattened
//! matrix; the caller builds the device buffer from it and reports the
//! outcome to `finish_force_matrix_rebuild`, which restores the previous
//! matrix when the rebuild failed, so settings and device resources never
//! disagree.

use crate::error::SimulationError;
use crate::matrix::{applied, flattened, EntryMap, ForceMatrix, MatrixOp, Rearrangement};
use crate::simulation::{matrix_fits, SimulationType};
use vstd::prelude::*;

verus! {

/// Holds the one active simulation, if any.
#[derive(Debug)]
pub struct SimulationManager {
    pub current_simulation: Option<SimulationType>,
}

/// A matrix change waiting for its device buffer.
#[derive(Debug)]
pub struct MatrixRebuild {
    /// The matrix before the change.
    pub previous: ForceMatrix,
    /// The new matrix row after row: the content of the new buffer.
    pub data: Vec<i32>,
}

impl SimulationManager {
    pub open spec fn wf(&self) -> bool {
        self.current_simulation matches Some(s) ==> s.wf()
    }

    /// A holder with no active simulation.
    pub fn new() -> (r: SimulationManager)
        ensures
            r.current_simulation is None,
            r.wf(),
    {
        SimulationManager { current_simulation: None }
    }

    /// Replaces the active simulation by a new one of the kind called
    /// `kind`. An unknown kind leaves the active simulation in place.
    pub fn start_simulation(&mut self, kind: &str, width: u32, height: u32) -> (r: Result<
        (),
        SimulationError,
    >)
        requires
            old(self).wf(),
        ensures
            final(self).wf(),
            crate::simulation::kind_named(kind@) is None ==> r == Err::<(), SimulationError>(
                SimulationError::UnknownSimulationKind,
            ) && *final(self) == *old(self),
            crate::simulation::kind_named(kind@) matches Some(k) ==> r is Ok && (
            final(self).current_simulation matches Some(s) && s.kind() == k && s.common()
                == crate::simulation::fresh_common(width, height)),
    {
        match SimulationType::new(kind, width, height) {
            Ok(s) => {
                self.current_simulation = Some(s);
                Ok(())
            },
            Err(e) => Err(e),
        }
    }

    /// Whether the active simulation, if any, is well formed.
    pub fn is_well_formed(&self) -> (r: bool)
        ensures
            r == self.wf(),
    {
        match &self.current_simulation {
            Some(s) => s.is_well_formed(),
            None => true,
        }
    }

    /// Drops the active simulation.
    pub fn destroy_simulation(&mut self)
        ensures
            final(self).current_simulation is None,
            final(self).wf(),
    {
        self.current_simulation = None;
    }
}

/// What a matrix command does: with a species-interaction simulation active,
/// its matrix becomes `applied(previous, op)` and nothing else changes, and the
/// rebuild holds the previous matrix and the new one flattened; otherwise the
/// command is refused and nothing changes.
pub open spec fn matrix_command_done(
    before: SimulationManager,
    after: SimulationManager,
    op: MatrixOp,
    r: Result<MatrixRebuild, SimulationError>,
) -> bool {
    &&& after.wf()
    &&& before.current_simulation matches Some(SimulationType::ParticleLife(p)) ==> {
        &&& after.current_simulation matches Some(SimulationType::ParticleLife(q))
        &&& q.common == p.common
        &&& q.force_matrix@ == applied(p.force_matrix@, op)
        &&& r matches Ok(rb)
        &&& rb.previous@ == p.force_matrix@
        &&& rb.data@ == flattened(q.force_matrix@)
    }
    &&& !(before.current_simulation matches Some(SimulationType::ParticleLife(_))) ==> {
        &&& r == Err::<MatrixRebuild, SimulationError>(SimulationError::WrongSimulationKind)
        &&& after == before
    }
}

/// Applies `op` to the active simulation's force matrix.
pub fn force_matrix_command(manager: &mut SimulationManager, op: MatrixOp) -> (r: Result<
    MatrixRebuild,
    SimulationError,
>)
    requires
        old(manager).wf(),
    ensures
        matrix_command_done(*old(manager), *final(manager), op, r),
{
    match &mut manager.current_simulation {
        Some(sim) => {
            let previous = match sim {
                SimulationType::ParticleLife(p) => p.force_matrix.duplicate(),
                _ => return Err(SimulationError::WrongSimulationKind),
            };
            match sim.apply_force_matrix_op(op) {
                Ok(data) => Ok(MatrixRebuild { previous, data }),
                Err(e) => Err(e),
            }
        },
        None => Err(SimulationError::WrongSimulationKind),
    }
}

/// Settles a matrix command once its buffer was built (`built`) or not.
/// After a failed build the previous matrix is put back and the failure is
/// reported; after a successful one nothing changes.
pub fn finish_force_matrix_rebuild(
    manager: &mut SimulationManager,
    rebuild: MatrixRebuild,
    built: bool,
) -> (r: Result<(), SimulationError>)
    requires
        old(manager).wf(),
    ensures
        final(manager).wf(),
        built ==> r is Ok && *final(manager) == *old(manager),
        !built ==> r == Err::<(), SimulationError>(SimulationError::GpuResourceFailure),
        !built ==> match old(manager).current_simulation {
            Some(SimulationType::ParticleLife(p)) => if matrix_fits(rebuild.previous@) {
                final(manager).current_simulation matches Some(SimulationType::ParticleLife(q))
                    && q.common == p.common && q.force_matrix@ == rebuild.previous@
            } else {
                *final(manager) == *old(manager)
            },
            _ => *final(manager) == *old(manager),
        },
{
    if built {
        return Ok(());
    }
    if let Some(SimulationType::ParticleLife(p)) = &mut manager.current_simulation {
        let previous = rebuild.previous;
        if previous.size() >= 1 && previous.is_well_formed() {
            p.force_matrix = previous;
        }
    }
    Err(SimulationError::GpuResourceFailure)
}

/// Multiplies every coefficient by the fixed-point factor `scale_factor`.
pub fn scale_force_matrix(manager: &mut SimulationManager, scale_factor: i32) -> (r: Result<
    MatrixRebuild,
    SimulationError,
>)
    requires
        old(manager).wf(),
    ensures
        matrix_command_done(
            *old(manager),
            *final(manager),
            MatrixOp::Entrywise(EntryMap::Scale(scale_factor)),
            r,
        ),
{
    force_matrix_command(manager, MatrixOp::Entrywise(EntryMap::Scale(scale_factor)))
}

/// Reverses the column order.
pub fn flip_force_matrix_horizontal(manager: &mut SimulationManager) -> (r: Result<
    MatrixRebuild,
    SimulationError,
>)
    requires
        old(manager).wf(),
    ensures
        matrix_command_done(
            *old(manager),
            *final(manager),
            MatrixOp::Reorder(Rearrangement::FlipHorizontal),
            r,
        ),
{
    force_matrix_command(manager, MatrixOp::Reorder(Rearrangement::FlipHorizontal))
}

/// Reverses the row order.
pub fn flip_force_matrix_vertical(manager: &mut SimulationManager) -> (r: Result<
    MatrixRebuild,
    SimulationError,
>)
    requires
        old(manager).wf(),
    ensures
        matrix_command_done(
            *old(manager),
            *final(manager),
            MatrixOp::Reorder(Rearrangement::FlipVertical),
            r,
        ),
{
    force_matrix_command(manager, MatrixOp::Reorder(Rearrangement::FlipVertical))
}

/// Turns the matrix a quarter turn clockwise.
pub fn rotate_force_matrix_clockwise(manager: &mut SimulationManager) -> (r: Result<
    MatrixRebuild,
    SimulationError,
>)
    requires
        old(manager).wf(),
    ensures
        matrix_command_done(
            *old(manager),
            *final(manager),
            MatrixOp::Reorder(Rearrangement::RotateClockwise),
            r,
        ),
{
    force_matrix_command(manager, MatrixOp::Reorder(Rearrangement::RotateClockwise))
}

/// Turns the matrix a quarter turn counterclockwise.
pub fn rotate_force_matrix_counterclockwise(manager: &mut SimulationManager) -> (r: Result<
    MatrixRebuild,
    SimulationError,
>)
    requires
        old(manager).wf(),
    ensures
        matrix_command_done(
            *old(manager),
            *final(manager),
            MatrixOp::Reorder(Rearrangement::RotateCounterClockwise),
            r,
        ),
{
    force_matrix_command(manager, MatrixOp::Reorder(Rearrangement::RotateCounterClockwise))
}

/// Shifts the columns one place left, wrapping around.
pub fn shift_force_matrix_left(manager: &mut SimulationManager) -> (r: Result<
    MatrixRebuild,
    SimulationError,
>)
    requires
        old(manager).wf(),
    ensures
        matrix_command_done(
            *old(manager),
            *final(manager),
            MatrixOp::Reorder(Rearrangement::ShiftLeft),
            r,
        ),
{
    force_matrix_command(manager, MatrixOp::Reorder(Rearrangement::ShiftLeft))
}

/// Shifts the columns one place right, wrapping around.
pub fn shift_force_matrix_right(manager: &mut SimulationManager) -> (r: Result<
    MatrixRebuild,
    SimulationError,
>)
    requires
        old(manager).wf(),
    ensures
        matrix_command_done(
            *old(manager),
            *final(manager),
            MatrixOp::Reorder(Rearrangement::ShiftRight),
            r,
        ),
{
    force_matrix_command(manager, MatrixOp::Reorder(Rearrangement::ShiftRight))
}

/// Shifts the rows one place up, wrapping around.
pub fn shift_force_matrix_up(manager: &mut SimulationManager) -> (r: Result<
    MatrixRebuild,
    SimulationError,
>)
    requires
        old(manager).wf(),
    ensures
        matrix_command_done(
            *old(manager),
            *final(manager),
            MatrixOp::Reorder(Rearrangement::ShiftUp),
            r,
        ),
{
    force_matrix_command(manager, MatrixOp::Reorder(Rearrangement::ShiftUp))
}

/// Shifts the rows one place down, wrapping around.
pub fn shift_force_matrix_down(manager: &mut SimulationManager) -> (r: Result<
    MatrixRebuild,
    SimulationError,
>)
    requires
        old(manager).wf(),
    ensures
        matrix_command_done(
            *old(manager),
            *final(manager),
            MatrixOp::Reorder(Rearrangement::ShiftDown),
            r,
        ),
{
    force_matrix_command(manager, MatrixOp::Reorder(Rearrangement::ShiftDown))
}

/// Sets every coefficient to zero.
pub fn zero_force_matrix(manager: &mut SimulationManager) -> (r: Result<
    MatrixRebuild,
    SimulationError,
>)
    requires
        old(manager).wf(),
    ensures
        matrix_command_done(*old(manager), *final(manager), MatrixOp::Entrywise(EntryMap::Zero), r),
{
    force_matrix_command(manager, MatrixOp::Entrywise(EntryMap::Zero))
}

/// Negates every coefficient.
pub fn flip_force_matrix_sign(manager: &mut SimulationManager) -> (r: Result<
    MatrixRebuild,
    SimulationError,
>)
    requires
        old(manager).wf(),
    ensures
        matrix_command_done(
            *old(manager),
            *final(manager),
            MatrixOp::Entrywise(EntryMap::Negate),
            r,
        ),
{
    force_matrix_command(manager, MatrixOp::Entrywise(EntryMap::Negate))
}

} // verus!
