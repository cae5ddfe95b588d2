//! GPU-accelerated output backend.
pub mod context;
