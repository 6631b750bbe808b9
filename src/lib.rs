//! Simulation engine core: the species-interaction matrix algebra, the
//! particle-collision settings and compute-pass schedule, the GPU resource
//! swap rules and the closed dispatcher over simulation kinds.

pub mod camera;
pub mod commands;
pub mod error;
pub mod laws;
pub mod matrix;
pub mod pellets;
pub mod pipeline;
mod random;
pub mod resources;
pub mod simulation;
pub mod text;
