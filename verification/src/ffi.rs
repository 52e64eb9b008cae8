//! What a host in another language sees: its values, its errors, and what each
//! of its calls does.
pub mod batch;
pub mod client;
pub mod engine;
pub mod event;
pub mod laws;
pub mod relay;
pub mod scrub;
pub mod value;
