//! What holds of resolution and of reconstruction on every input.

pub mod idempotence;
pub mod nesting;
pub mod reassembly;
pub mod resolution;
pub mod rewriting;
