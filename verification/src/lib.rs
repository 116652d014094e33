//! Diagnostic inference engine over a fixed taxonomy of structural invariants.

pub mod analysis;
pub mod digest;
pub mod engine;
pub mod fus;
pub mod inference;
pub mod operators;
pub mod text;
