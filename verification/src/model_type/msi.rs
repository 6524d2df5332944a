//! What an `msi` file records of a model beside its atoms and its cell.
use vstd::prelude::*;
use crate::kernel::{from_int, from_int_of, functional, quotient, quotient_of, Kernel};

verus! {

/// What an `msi` file records of a model beside its atoms and its cell.
#[derive(Debug, Clone)]
pub struct MsiModel<S> {
    /// The kind of periodicity.
    pub periodic_type: u8,
    /// The space group.
    pub space_group: String,
    /// The tolerance of the crystal symmetry.
    pub cry_tolerance: S,
}

impl<S: Copy> MsiModel<S> {
    /// The kind of periodicity.
    pub fn periodic_type(&self) -> (r: u8)
        ensures
            r == self.periodic_type,
    {
        self.periodic_type
    }

    /// The space group.
    pub fn space_group(&self) -> (r: &str)
        ensures
            r@ == self.space_group@,
    {
        self.space_group.as_str()
    }

    /// The tolerance of the crystal symmetry.
    pub fn cry_tolerance(&self) -> (r: S)
        ensures
            r == self.cry_tolerance,
    {
        self.cry_tolerance
    }

    /// What a model is given where nothing else is known: periodicity 100,
    /// space group "1 1", and a tolerance of five hundredths.
    pub fn default_for<K: Kernel<Scalar = S>>() -> (r: Self)
        ensures
            r.periodic_type == 100,
            r.space_group@ == "1 1"@,
            functional::<K>() ==> r.cry_tolerance == quotient_of::<K>(
                from_int_of::<K>(5),
                from_int_of::<K>(100),
            ),
    {
        Self {
            periodic_type: 100,
            space_group: "1 1".to_owned(),
            cry_tolerance: quotient::<K>(from_int::<K>(5), from_int::<K>(100)),
        }
    }
}

} // verus!
