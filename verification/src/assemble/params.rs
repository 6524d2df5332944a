//! The parameters of one placement, and the builder that checks them.
use vstd::prelude::*;
use crate::error::ParamsError;
use crate::kernel::Vector3;
use crate::lattice::{is_valid_id, valid_id};

verus! {

/// What a set of placement parameters holds, as plain mathematical values.
pub struct ParamsView<S> {
    /// The direction, relative to the host, that the stem is yawed toward.
    pub ads_direction: Option<Vector3<S>>,
    /// The angle between the fragment's plane and the vertical, in degrees.
    pub plane_angle: Option<S>,
    /// The angle between the stem and the bonding direction, in degrees.
    pub stem_coord_angle: Option<S>,
    /// The distance between the coordination reference and the target.
    pub bond_length: S,
    /// The ids of the fragment atoms that bond to the host.
    pub coord_atom_ids: Seq<u32>,
    /// The ids of the two fragment atoms that define the stem.
    pub stem_atom_ids: Option<(u32, u32)>,
    /// The ids of the three fragment atoms that define the plane.
    pub plane_atom_ids: Option<(u32, u32, u32)>,
}

impl<S> ParamsView<S> {
    /// The stem is given by one atom only, and has to be derived from the
    /// plane.
    pub open spec fn stem_is_virtual(self) -> bool {
        self.stem_atom_ids matches Some(ids) && ids.0 == ids.1
    }

    /// What holds of every finalized set of parameters: there is a
    /// coordination atom, and a virtual stem comes with a plane.
    pub open spec fn wf(self) -> bool {
        &&& self.coord_atom_ids.len() > 0
        &&& self.stem_is_virtual() ==> self.plane_atom_ids is Some
    }

    /// Every id names an atom of a fragment of `len` atoms.
    pub open spec fn ids_valid(self, len: nat) -> bool {
        &&& forall|i: int|
            0 <= i < self.coord_atom_ids.len() ==> valid_id(#[trigger] self.coord_atom_ids[i], len)
        &&& self.stem_atom_ids matches Some(ids) ==> valid_id(ids.0, len) && valid_id(ids.1, len)
        &&& self.plane_atom_ids matches Some(ids) ==> valid_id(ids.0, len) && valid_id(ids.1, len)
            && valid_id(ids.2, len)
    }

    /// The id of the first coordination atom.
    pub open spec fn first_coord_id(self) -> u32
        recommends
            self.coord_atom_ids.len() > 0,
    {
        self.coord_atom_ids[0]
    }
}

/// The two ids of a stem, as a pair.
pub open spec fn stem_pair(ids: Option<&[u32; 2]>) -> Option<(u32, u32)> {
    match ids {
        Some(ids) => Some((ids@[0], ids@[1])),
        None => None,
    }
}

/// The three ids of a plane, as a triple.
pub open spec fn plane_triple(ids: Option<&[u32; 3]>) -> Option<(u32, u32, u32)> {
    match ids {
        Some(ids) => Some((ids@[0], ids@[1], ids@[2])),
        None => None,
    }
}

/// The parameters of one placement. A value of this type has passed
/// [`AdsParamsBuilder::finish`], and cannot be changed afterwards.
#[derive(Debug)]
pub struct AdsParams<'a, S> {
    ads_direction: Option<Vector3<S>>,
    adsorbate_plane_angle: Option<S>,
    stem_coord_angle: Option<S>,
    bond_length: S,
    coord_atom_ids: &'a [u32],
    stem_atom_ids: Option<&'a [u32; 2]>,
    plane_atom_ids: Option<&'a [u32; 3]>,
}

impl<'a, S> View for AdsParams<'a, S> {
    type V = ParamsView<S>;

    closed spec fn view(&self) -> ParamsView<S> {
        ParamsView {
            ads_direction: self.ads_direction,
            plane_angle: self.adsorbate_plane_angle,
            stem_coord_angle: self.stem_coord_angle,
            bond_length: self.bond_length,
            coord_atom_ids: self.coord_atom_ids@,
            stem_atom_ids: stem_pair(self.stem_atom_ids),
            plane_atom_ids: plane_triple(self.plane_atom_ids),
        }
    }
}

impl<'a, S> AdsParams<'a, S> {
    /// The invariant of the type.
    #[verifier::type_invariant]
    pub open spec fn inv(&self) -> bool {
        self@.wf()
    }
}

impl<'a, S: Copy> AdsParams<'a, S> {
    /// The direction that the stem is yawed toward, where one was given.
    pub fn ads_direction(&self) -> (r: Option<&Vector3<S>>)
        ensures
            r == match self@.ads_direction {
                Some(d) => Some(&d),
                None => None,
            },
            self@.wf(),
    {
        proof {
            use_type_invariant(self);
        }
        self.ads_direction.as_ref()
    }

    /// The angle between the fragment's plane and the vertical, in degrees.
    pub fn adsorbate_plane_angle(&self) -> (r: Option<S>)
        ensures
            r == self@.plane_angle,
            self@.wf(),
    {
        proof {
            use_type_invariant(self);
        }
        self.adsorbate_plane_angle
    }

    /// The angle between the stem and the bonding direction, in degrees.
    pub fn stem_coord_angle(&self) -> (r: Option<S>)
        ensures
            r == self@.stem_coord_angle,
            self@.wf(),
    {
        proof {
            use_type_invariant(self);
        }
        self.stem_coord_angle
    }

    /// The distance between the coordination reference and the target.
    pub fn bond_length(&self) -> (r: S)
        ensures
            r == self@.bond_length,
            self@.wf(),
    {
        proof {
            use_type_invariant(self);
        }
        self.bond_length
    }

    /// The ids of the fragment atoms that bond to the host: at least one.
    pub fn coord_atom_ids(&self) -> (r: &'a [u32])
        ensures
            r@ == self@.coord_atom_ids,
            r@.len() > 0,
            self@.wf(),
    {
        proof {
            use_type_invariant(self);
        }
        self.coord_atom_ids
    }

    /// The ids of the two fragment atoms that define the stem.
    pub fn stem_atom_ids(&self) -> (r: Option<&'a [u32; 2]>)
        ensures
            stem_pair(r) == self@.stem_atom_ids,
            self@.wf(),
    {
        proof {
            use_type_invariant(self);
        }
        self.stem_atom_ids
    }

    /// The ids of the three fragment atoms that define the plane.
    pub fn plane_atom_ids(&self) -> (r: Option<&'a [u32; 3]>)
        ensures
            plane_triple(r) == self@.plane_atom_ids,
            self@.wf(),
    {
        proof {
            use_type_invariant(self);
        }
        self.plane_atom_ids
    }
}

impl<'a, S: Copy> AdsParams<'a, S> {
    /// Decides whether every id of these parameters names an atom of a
    /// fragment of `atoms` atoms.
    pub fn ids_valid_for(&self, atoms: usize) -> (r: bool)
        ensures
            r == self@.ids_valid(atoms as nat),
    {
        let coord_atom_ids = self.coord_atom_ids();
        let mut i: usize = 0;
        while i < coord_atom_ids.len()
            invariant
                0 <= i <= coord_atom_ids@.len(),
                coord_atom_ids@ == self@.coord_atom_ids,
                forall|j: int| 0 <= j < i ==> valid_id(#[trigger] coord_atom_ids@[j], atoms as nat),
            decreases coord_atom_ids@.len() - i,
        {
            if !is_valid_id(coord_atom_ids[i], atoms) {
                return false;
            }
            i = i + 1;
        }
        let stem_ok = match self.stem_atom_ids() {
            Some(ids) => is_valid_id(ids[0], atoms) && is_valid_id(ids[1], atoms),
            None => true,
        };
        let plane_ok = match self.plane_atom_ids() {
            Some(ids) => is_valid_id(ids[0], atoms) && is_valid_id(ids[1], atoms) && is_valid_id(
                ids[2],
                atoms,
            ),
            None => true,
        };
        stem_ok && plane_ok
    }
}

/// Collects the parameters of a placement one by one. Nothing is checked
/// until [`AdsParamsBuilder::finish`].
#[derive(Debug)]
pub struct AdsParamsBuilder<'a, S> {
    /// The direction that the stem is yawed toward.
    pub ads_direction: Option<Vector3<S>>,
    /// The angle between the fragment's plane and the vertical, in degrees.
    pub adsorbate_plane_angle: Option<S>,
    /// The angle between the stem and the bonding direction, in degrees.
    pub stem_coord_angle: Option<S>,
    /// The distance between the coordination reference and the target.
    pub bond_length: Option<S>,
    /// The ids of the fragment atoms that bond to the host.
    pub coord_atom_ids: Option<&'a [u32]>,
    /// The ids of the two fragment atoms that define the stem.
    pub stem_atom_ids: Option<&'a [u32; 2]>,
    /// The ids of the three fragment atoms that define the plane.
    pub plane_atom_ids: Option<&'a [u32; 3]>,
}

impl<'a, S: Copy> AdsParamsBuilder<'a, S> {
    /// No coordination atom has been given, or an empty list of them.
    pub open spec fn lacks_coord_atom_ids(&self) -> bool {
        match self.coord_atom_ids {
            Some(ids) => ids@.len() == 0,
            None => true,
        }
    }

    /// The stem is to be virtual, and no plane was given to derive it from.
    pub open spec fn lacks_plane_for_virtual_stem(&self) -> bool {
        &&& self.stem_atom_ids matches Some(ids) && ids@[0] == ids@[1]
        &&& self.plane_atom_ids is None
    }

    /// What [`AdsParamsBuilder::finish`] answers.
    pub open spec fn verdict(&self) -> Result<ParamsView<S>, ParamsError> {
        if self.lacks_coord_atom_ids() || self.bond_length is None {
            Err(
                ParamsError::Missing {
                    coord_atom_ids: self.lacks_coord_atom_ids(),
                    bond_length: self.bond_length is None,
                },
            )
        } else if self.lacks_plane_for_virtual_stem() {
            Err(ParamsError::VirtualStemWithoutPlane)
        } else {
            Ok(
                ParamsView {
                    ads_direction: self.ads_direction,
                    plane_angle: self.adsorbate_plane_angle,
                    stem_coord_angle: self.stem_coord_angle,
                    bond_length: self.bond_length->Some_0,
                    coord_atom_ids: self.coord_atom_ids->Some_0@,
                    stem_atom_ids: stem_pair(self.stem_atom_ids),
                    plane_atom_ids: plane_triple(self.plane_atom_ids),
                },
            )
        }
    }

    /// Starts with nothing set.
    pub fn new() -> (builder: Self)
        ensures
            builder == (AdsParamsBuilder::<'a, S> {
                ads_direction: None,
                adsorbate_plane_angle: None,
                stem_coord_angle: None,
                bond_length: None,
                coord_atom_ids: None,
                stem_atom_ids: None,
                plane_atom_ids: None,
            }),
    {
        AdsParamsBuilder {
            ads_direction: None,
            adsorbate_plane_angle: None,
            stem_coord_angle: None,
            bond_length: None,
            coord_atom_ids: None,
            stem_atom_ids: None,
            plane_atom_ids: None,
        }
    }

    /// Sets, or clears, the direction that the stem is yawed toward.
    pub fn with_ads_direction(self, ads_direction: Option<Vector3<S>>) -> (builder: Self)
        ensures
            builder == (AdsParamsBuilder { ads_direction, ..self }),
    {
        AdsParamsBuilder { ads_direction, ..self }
    }

    /// Sets, or clears, the angle between the fragment's plane and the
    /// vertical.
    pub fn with_plane_angle(self, plane_angle: Option<S>) -> (builder: Self)
        ensures
            builder == (AdsParamsBuilder { adsorbate_plane_angle: plane_angle, ..self }),
    {
        AdsParamsBuilder { adsorbate_plane_angle: plane_angle, ..self }
    }

    /// Sets the bond length.
    pub fn with_bond_length(self, bond_length: S) -> (builder: Self)
        ensures
            builder == (AdsParamsBuilder { bond_length: Some(bond_length), ..self }),
    {
        AdsParamsBuilder { bond_length: Some(bond_length), ..self }
    }

    /// Sets, or clears, the angle between the stem and the bonding direction.
    pub fn with_stem_coord_angle(self, coord_angle: Option<S>) -> (builder: Self)
        ensures
            builder == (AdsParamsBuilder { stem_coord_angle: coord_angle, ..self }),
    {
        AdsParamsBuilder { stem_coord_angle: coord_angle, ..self }
    }

    /// Sets the coordination atoms.
    pub fn with_coord_atom_ids(self, coord_atom_ids: &'a [u32]) -> (builder: Self)
        ensures
            builder == (AdsParamsBuilder { coord_atom_ids: Some(coord_atom_ids), ..self }),
    {
        AdsParamsBuilder { coord_atom_ids: Some(coord_atom_ids), ..self }
    }

    /// Sets, or clears, the stem atoms.
    pub fn with_stem_atom_ids(self, stem_atom_ids: Option<&'a [u32; 2]>) -> (builder: Self)
        ensures
            builder == (AdsParamsBuilder { stem_atom_ids, ..self }),
    {
        AdsParamsBuilder { stem_atom_ids, ..self }
    }

    /// Sets, or clears, the plane atoms.
    pub fn with_plane_atom_ids(self, plane_atom_ids: Option<&'a [u32; 3]>) -> (builder: Self)
        ensures
            builder == (AdsParamsBuilder { plane_atom_ids, ..self }),
    {
        AdsParamsBuilder { plane_atom_ids, ..self }
    }

    /// Checks what was collected and seals it.
    ///
    /// Fails where a required field is missing, and names each missing one;
    /// else fails where the stem is virtual and there is no plane. So no
    /// parameters with a virtual stem and no plane ever reach the pipeline.
    pub fn finish(self) -> (params: Result<AdsParams<'a, S>, ParamsError>)
        ensures
            match params {
                Ok(p) => self.verdict() == Ok::<ParamsView<S>, ParamsError>(p@),
                Err(e) => self.verdict() == Err::<ParamsView<S>, ParamsError>(e),
            },
            params matches Ok(p) ==> p@.wf(),
            self.lacks_plane_for_virtual_stem() ==> params is Err,
    {
        let lacks_coord_atom_ids = match self.coord_atom_ids {
            Some(ids) => ids.len() == 0,
            None => true,
        };
        let lacks_bond_length = self.bond_length.is_none();
        if lacks_coord_atom_ids || lacks_bond_length {
            return Err(
                ParamsError::Missing {
                    coord_atom_ids: lacks_coord_atom_ids,
                    bond_length: lacks_bond_length,
                },
            );
        }
        let virtual_stem = match self.stem_atom_ids {
            Some(ids) => ids[0] == ids[1],
            None => false,
        };
        if virtual_stem && self.plane_atom_ids.is_none() {
            return Err(ParamsError::VirtualStemWithoutPlane);
        }
        Ok(
            AdsParams {
                ads_direction: self.ads_direction,
                adsorbate_plane_angle: self.adsorbate_plane_angle,
                stem_coord_angle: self.stem_coord_angle,
                bond_length: self.bond_length.unwrap(),
                coord_atom_ids: self.coord_atom_ids.unwrap(),
                stem_atom_ids: self.stem_atom_ids,
                plane_atom_ids: self.plane_atom_ids,
            },
        )
    }
}

} // verus!
