//! An in-memory key-value store with typed values and lazy, per-key expiry,
//! and the command language that drives it.

pub mod cli;
mod clock;
pub mod laws;
pub mod map_model;
pub mod model;
pub mod numbers;
