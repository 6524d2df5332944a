//! The file formats that a model can be written in.
pub mod msi;
