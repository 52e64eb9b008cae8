//! What crosses the wire.
pub mod signer;
