//! What an operator sets.
pub mod egress;
