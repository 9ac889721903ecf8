//! The concrete algorithms built on the shared improving-heuristic loop.
pub mod lns;
pub mod sa;
pub mod vns;
