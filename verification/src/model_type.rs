//! What a file format records of a model beside its atoms and its cell.
pub mod msi;
