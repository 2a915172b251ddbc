//! Verified decoding of the in-memory game structures of Anno 1800.
pub mod api;
pub mod ffi;
pub mod hooks;
pub mod loader;
pub mod memory;
