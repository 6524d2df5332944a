//! What every molecule offers: its atoms, by their ids.
pub mod adsorbate;

use vstd::prelude::*;
use crate::atom::Atom;
use crate::error::InvalidIndex;
use crate::kernel::{displacement, displacement_of, functional, Kernel, Vector3};
use crate::lattice::{is_valid_id, valid_id, LatticeModel};

verus! {

/// A molecule: a collection of atoms that go by their ids.
pub trait Molecule<S: Copy, M> {
    /// The atoms of the molecule, in order.
    spec fn atoms_of(&self) -> Seq<Atom<S, M>>;

    /// The atoms of the molecule, in order.
    fn get_atoms(&self) -> (atoms: &[Atom<S, M>])
        ensures
            atoms@ == self.atoms_of(),
    ;

    /// The atoms of the molecule, to be changed in place.
    fn get_mut_atoms(&mut self) -> (atoms: &mut Vec<Atom<S, M>>)
        ensures
            atoms@ == old(self).atoms_of(),
            final(self).atoms_of() == final(atoms)@,
    ;

    /// The atom that goes by `atom_id`, which is the `atom_id`-th atom.
    /// Fails exactly where `atom_id` is zero or beyond the last atom.
    fn get_atom_by_id(&self, atom_id: u32) -> (atom: Result<&Atom<S, M>, InvalidIndex>)
        ensures
            valid_id(atom_id, self.atoms_of().len()) ==> atom == Ok::<&Atom<S, M>, InvalidIndex>(
                &self.atoms_of()[atom_id - 1],
            ),
            !valid_id(atom_id, self.atoms_of().len()) ==> atom is Err,
    {
        let atoms = self.get_atoms();
        if is_valid_id(atom_id, atoms.len()) {
            Ok(&atoms[(atom_id - 1) as usize])
        } else {
            Err(InvalidIndex)
        }
    }

    /// The atom that goes by `atom_id`, to be changed in place. Fails
    /// exactly where `atom_id` is zero or beyond the last atom.
    fn get_mut_atom_by_id(&mut self, atom_id: u32) -> (atom: Result<&mut Atom<S, M>, InvalidIndex>)
        ensures
            match atom {
                Ok(a) => {
                    &&& valid_id(atom_id, old(self).atoms_of().len())
                    &&& *a == old(self).atoms_of()[atom_id - 1]
                    &&& final(self).atoms_of() == old(self).atoms_of().update(
                        atom_id - 1,
                        *final(a),
                    )
                },
                Err(_) => !valid_id(atom_id, old(self).atoms_of().len()),
            },
    {
        let atoms = self.get_mut_atoms();
        if is_valid_id(atom_id, atoms.len()) {
            Ok(&mut atoms[(atom_id - 1) as usize])
        } else {
            Err(InvalidIndex)
        }
    }

    /// The vector that leads from atom `a_id` to atom `b_id`. Fails exactly
    /// where one of the two ids names no atom.
    fn get_vector_ab<K: Kernel<Scalar = S>>(&self, a_id: u32, b_id: u32) -> (v: Result<
        Vector3<S>,
        InvalidIndex,
    >)
        ensures
            v is Ok <==> valid_id(a_id, self.atoms_of().len()) && valid_id(
                b_id,
                self.atoms_of().len(),
            ),
            functional::<K>() && v is Ok ==> v->Ok_0 == displacement_of::<K>(
                self.atoms_of()[b_id - 1].xyz,
                self.atoms_of()[a_id - 1].xyz,
            ),
    {
        let atom_a = self.get_atom_by_id(a_id)?;
        let atom_b = self.get_atom_by_id(b_id)?;
        Ok(displacement::<K>(atom_b.xyz, atom_a.xyz))
    }
}

impl<S: Copy, M> Molecule<S, M> for LatticeModel<S, M> {
    open spec fn atoms_of(&self) -> Seq<Atom<S, M>> {
        self.atoms@
    }

    fn get_atoms(&self) -> (atoms: &[Atom<S, M>]) {
        self.atoms.as_slice()
    }

    fn get_mut_atoms(&mut self) -> (atoms: &mut Vec<Atom<S, M>>) {
        &mut self.atoms
    }
}

} // verus!
