//! Whole-resource rebuild with an atomic swap.
//!
//! A slot holds the device resource that the next pass reads. A rebuild
//! produces a complete replacement or nothing; only a complete replacement is
//! swapped in, so a failed rebuild leaves the previous, still valid resource.

use crate::error::SimulationError;
use crate::simulation::next_step;
use vstd::prelude::*;

verus! {

/// The current resource and how many times it was replaced.
#[derive(Debug)]
pub struct ResourceSlot<R> {
    current: R,
    generation: u64,
}

impl<R> ResourceSlot<R> {
    pub closed spec fn resource(&self) -> R {
        self.current
    }

    pub closed spec fn generation_spec(&self) -> u64 {
        self.generation
    }

    /// A slot holding `initial`.
    pub fn new(initial: R) -> (r: ResourceSlot<R>)
        ensures
            r.resource() == initial,
            r.generation_spec() == 0,
    {
        ResourceSlot { current: initial, generation: 0 }
    }

    /// The resource the next pass reads.
    pub fn current(&self) -> (r: &R)
        ensures
            *r == self.resource(),
    {
        &self.current
    }

    /// Number of completed swaps.
    pub fn generation(&self) -> (r: u64)
        ensures
            r == self.generation_spec(),
    {
        self.generation
    }

    /// Swaps in the outcome of a rebuild: a complete replacement takes the
    /// old resource's place; a failed rebuild (`None`) is reported and the
    /// old resource stays.
    pub fn commit(&mut self, rebuilt: Option<R>) -> (r: Result<(), SimulationError>)
        ensures
            rebuilt matches Some(x) ==> r is Ok && final(self).resource() == x
                && final(self).generation_spec() == next_step(old(self).generation_spec()),
            rebuilt is None ==> r == Err::<(), SimulationError>(SimulationError::GpuResourceFailure)
                && final(self).resource() == old(self).resource()
                && final(self).generation_spec() == old(self).generation_spec(),
    {
        match rebuilt {
            Some(x) => {
                self.current = x;
                if self.generation < u64::MAX {
                    self.generation = self.generation + 1;
                }
                Ok(())
            },
            None => Err(SimulationError::GpuResourceFailure),
        }
    }
}

} // verus!
