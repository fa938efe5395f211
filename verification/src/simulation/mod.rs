//! Rules of a simulation and of a batch of them.

pub mod engine;
pub mod runner;

pub use engine::SimulationError;
