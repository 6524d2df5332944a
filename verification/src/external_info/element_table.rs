//! The table of elements of a project.
use vstd::prelude::*;

verus! {

/// What the table of elements records of one element.
#[derive(Debug, Clone)]
pub struct Element<S> {
    /// The symbol of the element.
    pub element: String,
    /// The atomic number.
    pub atomic_number: u8,
    /// The number of atomic orbitals in the basis for population analysis.
    pub lcao: u8,
    /// The atomic mass.
    pub mass: S,
    /// The name of the potential file.
    pub pot: String,
    /// The initial spin.
    pub spin: u8,
}

/// The table of elements.
#[derive(Debug)]
pub struct ElmTab<S> {
    /// The elements, where the table lists any.
    pub elements: Option<Vec<Element<S>>>,
}

} // verus!
