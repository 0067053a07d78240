//! Battery status reaction engine: resolves property-change events against a
//! configuration tree, renders notification bodies from live metrics, and
//! tracks the per-channel notification lifecycle.

pub mod config;
pub mod duration;
pub mod render;
pub mod engine;
