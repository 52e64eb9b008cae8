//! The way of one trace through the science layer.
pub mod lifecycle;
