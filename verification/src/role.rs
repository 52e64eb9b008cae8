//! The ways in which lens-core is deployed.
pub mod relay;
