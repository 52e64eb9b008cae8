//! Lens-core: sealing and signing an agent's reasoning traces, scoring them, and
//! what a host gets of it.
//!
//! The keys, the store, the canonicalizer and the engine that persists are the
//! host's. This library holds the rules: what is signed, what is asked of the
//! host and what follows from each of its answers.
pub mod base64url;
pub mod capture;
pub mod codec;
pub mod config;
pub mod detector;
pub mod ffi;
pub mod json;
pub mod pipeline;
pub mod role;
pub mod scoring;
pub mod text;
pub mod wire;
