//! Assembling a host model and a fragment: the staged placement pipeline.
pub mod builder;
pub mod exact;
pub mod laws;
pub mod orientation;
pub mod params;
pub mod placement;
pub mod resolver;
pub mod rigid;
