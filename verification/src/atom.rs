//! One atom of a model.
use std::cmp::Ordering;
use vstd::prelude::*;
use vstd::std_specs::cmp::{PartialEqSpecImpl, PartialOrdSpecImpl};
use crate::kernel::{
    functional, rotate, rotate_of, translate, translate_of, Kernel, Point3, Rotation, Vector3,
};

verus! {

/// An atom: what it is, where it is, and the id it goes by in its model.
#[derive(Debug, Clone)]
pub struct Atom<S, M> {
    /// The symbol of the element.
    pub element_symbol: String,
    /// The atomic number of the element.
    pub element_id: u32,
    /// The cartesian coordinates of the atom.
    pub xyz: Point3<S>,
    /// The id of the atom in its model, counted from one.
    pub atom_id: u32,
    /// What the model's file format records beside the atom.
    pub model_type: M,
}

impl<S, M> Atom<S, M> {
    /// The atom `self` at another place.
    pub open spec fn at(self, xyz: Point3<S>) -> Self {
        Atom { xyz, ..self }
    }

    /// The atom `self` under another id.
    pub open spec fn renumbered(self, atom_id: u32) -> Self {
        Atom { atom_id, ..self }
    }

    /// Creates a new atom.
    pub fn new(
        element_symbol: String,
        element_id: u32,
        xyz: Point3<S>,
        atom_id: u32,
        model_type: M,
    ) -> (atom: Self)
        ensures
            atom == (Atom { element_symbol, element_id, xyz, atom_id, model_type }),
    {
        Self { element_symbol, element_id, xyz, atom_id, model_type }
    }

    /// The symbol of the element.
    pub fn element_symbol(&self) -> (symbol: &str)
        ensures
            symbol@ == self.element_symbol@,
    {
        self.element_symbol.as_str()
    }

    /// Sets the symbol of the element.
    pub fn set_element_symbol(&mut self, element_symbol: String)
        ensures
            *final(self) == (Atom { element_symbol, ..*old(self) }),
    {
        self.element_symbol = element_symbol;
    }

    /// The atomic number of the element.
    pub fn element_id(&self) -> (id: u32)
        ensures
            id == self.element_id,
    {
        self.element_id
    }

    /// Sets the atomic number of the element.
    pub fn set_element_id(&mut self, element_id: u32)
        ensures
            *final(self) == (Atom { element_id, ..*old(self) }),
    {
        self.element_id = element_id;
    }

    /// The cartesian coordinates of the atom.
    pub fn xyz(&self) -> (xyz: &Point3<S>)
        ensures
            *xyz == self.xyz,
    {
        &self.xyz
    }

    /// Moves the atom to `xyz`.
    pub fn set_xyz(&mut self, xyz: Point3<S>)
        ensures
            *final(self) == old(self).at(xyz),
    {
        self.xyz = xyz;
    }

    /// The id of the atom in its model.
    pub fn atom_id(&self) -> (id: u32)
        ensures
            id == self.atom_id,
    {
        self.atom_id
    }

    /// Sets the id of the atom in its model.
    pub fn set_atom_id(&mut self, atom_id: u32)
        ensures
            *final(self) == old(self).renumbered(atom_id),
    {
        self.atom_id = atom_id;
    }

    /// What the model's file format records beside the atom.
    pub fn model_type(&self) -> (model_type: &M)
        ensures
            *model_type == self.model_type,
    {
        &self.model_type
    }

    /// Replaces what the model's file format records beside the atom.
    pub fn set_model_type(&mut self, model_type: M)
        ensures
            *final(self) == (Atom { model_type, ..*old(self) }),
    {
        self.model_type = model_type;
    }
}

impl<S: Copy, M> Atom<S, M> {
    /// Turns the atom about the origin. Only its position changes.
    pub fn rotate<K: Kernel<Scalar = S>>(&mut self, rotation: &Rotation<S>)
        ensures
            final(self).at(old(self).xyz) == *old(self),
            call_ensures(K::rotate, (*rotation, old(self).xyz), final(self).xyz),
            functional::<K>() ==> *final(self) == old(self).at(
                rotate_of::<K>(*rotation, old(self).xyz),
            ),
    {
        self.xyz = rotate::<K>(*rotation, self.xyz);
    }

    /// Moves the atom by a displacement. Only its position changes.
    pub fn translate<K: Kernel<Scalar = S>>(&mut self, translation: &Vector3<S>)
        ensures
            final(self).at(old(self).xyz) == *old(self),
            call_ensures(K::translate, (old(self).xyz, *translation), final(self).xyz),
            functional::<K>() ==> *final(self) == old(self).at(
                translate_of::<K>(old(self).xyz, *translation),
            ),
    {
        self.xyz = translate::<K>(self.xyz, *translation);
    }
}

/// Two atoms count as equal where they go by the same id.
impl<S, M> PartialEq for Atom<S, M> {
    fn eq(&self, other: &Self) -> (r: bool) {
        self.atom_id == other.atom_id
    }
}

impl<S, M> Eq for Atom<S, M> {

}

impl<S, M> PartialEqSpecImpl for Atom<S, M> {
    open spec fn obeys_eq_spec() -> bool {
        true
    }

    open spec fn eq_spec(&self, other: &Self) -> bool {
        self.atom_id == other.atom_id
    }
}

/// Atoms are ordered by their ids.
impl<S, M> PartialOrd for Atom<S, M> {
    fn partial_cmp(&self, other: &Self) -> (r: Option<Ordering>) {
        if self.atom_id < other.atom_id {
            Some(Ordering::Less)
        } else if self.atom_id > other.atom_id {
            Some(Ordering::Greater)
        } else {
            Some(Ordering::Equal)
        }
    }
}

impl<S, M> PartialOrdSpecImpl for Atom<S, M> {
    open spec fn obeys_partial_cmp_spec() -> bool {
        true
    }

    open spec fn partial_cmp_spec(&self, other: &Self) -> Option<Ordering> {
        if self.atom_id < other.atom_id {
            Some(Ordering::Less)
        } else if self.atom_id > other.atom_id {
            Some(Ordering::Greater)
        } else {
            Some(Ordering::Equal)
        }
    }
}

} // verus!
