//! What the configuration of a project holds, once it has been read.
pub mod adsorbate_table;
pub mod element_table;
pub mod project;
