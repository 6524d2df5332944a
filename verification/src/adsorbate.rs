//! What is known of a fragment beside its atoms.
use std::marker::PhantomData;
use vstd::prelude::*;
use crate::lattice::LatticeModel;

verus! {

/// One atom, or one coordination atom.
pub struct Single;

/// Two atoms, or two coordination atoms.
pub struct Double;

/// More than two atoms, or more than two coordination atoms.
pub struct Multi;

/// How many atoms a fragment has.
pub trait AtomNum {

}

/// How many coordination atoms a fragment has.
pub trait CoordNum {

}

/// The reaction pathway that a fragment belongs to.
pub trait Pathway {

}

impl AtomNum for Single {

}

impl AtomNum for Double {

}

impl AtomNum for Multi {

}

impl CoordNum for Single {

}

impl CoordNum for Double {

}

impl CoordNum for Multi {

}

/// A fragment: its model and what is known of it.
#[derive(Debug)]
pub struct Adsorbate<S, M, P: Pathway, N: AtomNum, C: CoordNum> {
    /// The atoms of the fragment.
    pub lattice_model: LatticeModel<S, M>,
    /// What is known of the fragment beside its atoms.
    pub ads_info: AdsInfo<S>,
    /// The pathway of the fragment.
    pub pathway: PhantomData<P>,
    /// The number of its atoms.
    pub atom_num: PhantomData<N>,
    /// The number of its coordination atoms.
    pub coord_num: PhantomData<C>,
}

/// What a table of fragments records of one fragment.
#[derive(Debug, Clone)]
pub struct AdsInfo<S> {
    /// The name of the fragment.
    pub name: String,
    /// The ids of the atoms that bond to the host.
    pub coord_atom_ids: Vec<u32>,
    /// The ids of the two atoms that define the stem.
    pub stem_atom_ids: Option<[u32; 2]>,
    /// The ids of the three atoms that define the plane.
    pub plane_atom_ids: Option<[u32; 3]>,
    /// The angle between the plane and the vertical, in degrees.
    pub plane_angle: Option<S>,
    /// The angle between the stem and the bonding direction, in degrees.
    pub stem_angle_at_coord: Option<S>,
    /// The bond length.
    pub bond_length: Option<S>,
    /// Whether the fragment is symmetric about its stem.
    pub symmetric: bool,
    /// The id of the atom that is to end up above the coordination atom.
    pub upper_atom_id: u32,
    /// The number of atoms.
    pub atom_nums: u32,
    /// The name of the pathway.
    pub path_name: String,
}

impl<S: Copy> AdsInfo<S> {
    /// The name of the fragment.
    pub fn name(&self) -> (r: &str)
        ensures
            r@ == self.name@,
    {
        self.name.as_str()
    }

    /// The ids of the atoms that bond to the host.
    pub fn coord_atom_ids(&self) -> (r: &[u32])
        ensures
            r@ == self.coord_atom_ids@,
    {
        self.coord_atom_ids.as_slice()
    }

    /// The ids of the two atoms that define the stem.
    pub fn stem_atom_ids(&self) -> (r: Option<&[u32; 2]>)
        ensures
            r == match self.stem_atom_ids {
                Some(ids) => Some(&ids),
                None => None,
            },
    {
        self.stem_atom_ids.as_ref()
    }

    /// Whether the fragment is symmetric about its stem.
    pub fn symmetric(&self) -> (r: bool)
        ensures
            r == self.symmetric,
    {
        self.symmetric
    }

    /// The id of the atom that is to end up above the coordination atom.
    pub fn upper_atom_id(&self) -> (r: u32)
        ensures
            r == self.upper_atom_id,
    {
        self.upper_atom_id
    }

    /// The number of atoms.
    pub fn atom_nums(&self) -> (r: u32)
        ensures
            r == self.atom_nums,
    {
        self.atom_nums
    }

    /// The name of the pathway.
    pub fn path_name(&self) -> (r: &str)
        ensures
            r@ == self.path_name@,
    {
        self.path_name.as_str()
    }

    /// The angle between the plane and the vertical, in degrees.
    pub fn plane_angle(&self) -> (r: Option<S>)
        ensures
            r == self.plane_angle,
    {
        self.plane_angle
    }

    /// The angle between the stem and the bonding direction, in degrees.
    pub fn stem_angle_at_coord(&self) -> (r: Option<S>)
        ensures
            r == self.stem_angle_at_coord,
    {
        self.stem_angle_at_coord
    }

    /// The ids of the three atoms that define the plane.
    pub fn plane_atom_ids(&self) -> (r: Option<&[u32; 3]>)
        ensures
            r == match self.plane_atom_ids {
                Some(ids) => Some(&ids),
                None => None,
            },
    {
        self.plane_atom_ids.as_ref()
    }

    /// Sets, or clears, the angle between the plane and the vertical.
    pub fn set_plane_angle(&mut self, plane_angle: Option<S>)
        ensures
            *final(self) == (AdsInfo { plane_angle, ..*old(self) }),
    {
        self.plane_angle = plane_angle;
    }

    /// The bond length.
    pub fn bond_length(&self) -> (r: Option<S>)
        ensures
            r == self.bond_length,
    {
        self.bond_length
    }
}

} // verus!
