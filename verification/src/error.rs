//! The failures that the library reports.
use vstd::prelude::*;

verus! {

/// An atom id that is not a 1-based index into its collection.
#[derive(Debug, Clone, Copy, PartialEq, Eq, Structural)]
pub struct InvalidIndex;

impl InvalidIndex {
    /// The text that describes this failure.
    pub fn message(&self) -> (r: String)
        ensures
            r@ == "Invalid index"@,
    {
        "Invalid index".to_owned()
    }
}

/// Three points that were to span a plane lie on one line.
#[derive(Debug, Clone, Copy, PartialEq, Eq, Structural)]
pub struct CollinearPoints;

impl CollinearPoints {
    /// The text that describes this failure.
    pub fn message(&self) -> (r: String)
        ensures
            r@ == "The given points are on one line!"@,
    {
        "The given points are on one line!".to_owned()
    }
}

/// A coordinate that is not finite: infinite, or not a number.
#[derive(Debug, Clone, Copy, PartialEq, Eq, Structural)]
pub struct InvalidCoord;

impl InvalidCoord {
    /// The text that describes this failure.
    pub fn message(&self) -> (r: String)
        ensures
            r@ == "Invalid coordinate: not finite"@,
    {
        "Invalid coordinate: not finite".to_owned()
    }
}

/// Why a set of placement parameters cannot be finalized.
#[derive(Debug, Clone, Copy, PartialEq, Eq, Structural)]
pub enum ParamsError {
    /// Required fields were never given. Each flag says whether that field is
    /// among the missing ones; at least one of them is set.
    Missing { coord_atom_ids: bool, bond_length: bool },
    /// The two stem atoms are the same atom, which asks for a virtual stem,
    /// but no plane atoms were given to derive it from.
    VirtualStemWithoutPlane,
}

/// Why a placement cannot go on. A caller can skip the placement at hand and
/// carry on with the next one.
#[derive(Debug, Clone, Copy, PartialEq, Eq, Structural)]
pub enum AssembleError {
    /// An atom id does not name an atom of the collection it refers to.
    InvalidIndex,
    /// No target location was set before the parameters were handed over.
    MissingLocation,
    /// A plane angle is to be applied but no plane atoms were given.
    MissingPlane,
    /// The fragment is to be pitched but no stem-to-bond angle was given.
    MissingStemCoordAngle,
    /// The plane atoms lie on one line.
    CollinearPoints,
    /// A coordinate of the fragment is not finite.
    InvalidCoord,
}

} // verus!
