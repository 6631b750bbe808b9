//! Failures reported by the simulation engine.

use vstd::prelude::*;

verus! {

/// Every failure the engine reports; none of them ends the process.
#[derive(Clone, Copy, Debug, PartialEq, Eq, Structural)]
pub enum SimulationError {
    /// The operation belongs to another simulation kind than the active one.
    WrongSimulationKind,
    /// No setting of the active simulation has the given name.
    UnknownSetting,
    /// The value has the wrong type or lies outside the setting's range.
    InvalidValue,
    /// A device buffer or bind group could not be built, or the surface is
    /// unusable; the previous resources stay in place.
    GpuResourceFailure,
    /// No simulation kind has the given name.
    UnknownSimulationKind,
}

} // verus!
