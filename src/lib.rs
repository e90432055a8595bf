//! Safe lifecycle core for callback-driven native device channels.
//!
//! The native library is driven by a thin layer outside this crate; the
//! decisions of that layer (which native calls to make, in which order,
//! and which callback contexts may be freed) are made and proved here.
pub mod channel;
pub mod error;
pub mod laws;
pub mod payload;
