//! Scores: what is said of a trace, and when no number may be said.
pub mod assembly;
pub mod result;
