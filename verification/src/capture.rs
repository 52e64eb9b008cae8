//! Capturing a reasoning trace: the trace itself, how it is sealed and signed,
//! and the steps that lead from a stored event to a persisted batch.
pub mod client;
pub mod laws;
pub mod seal;
pub mod trace;
