//! What the loader computes: where a module exports a function.
pub mod export_table;
