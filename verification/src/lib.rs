//! Core of an interactive 2D rigid-body sandbox: a deterministic scenario
//! catalog, a scene orchestrator that drives an external physics engine
//! through explicit engine operations, and a diagnostic overlay builder.
//!
//! Scalars are fixed-point: an `i64` counts millionths of a unit
//! (`math::UNIT`), so every scenario constant is represented exactly and all
//! geometry is plain integer arithmetic.

pub mod body;
pub mod math;
pub mod orchestrator;
pub mod overlay;
pub mod probes;
pub mod rng;
pub mod scenarios;
pub mod tuning;
pub mod world;
