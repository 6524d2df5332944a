//! What a molecule that is to be adsorbed offers beside its atoms.
use vstd::prelude::*;
use crate::assemble::resolver::at;
use crate::error::InvalidIndex;
use crate::kernel::{
    angle, angle_of, axis_angle, axis_angle_of, cross, cross_of, displacement_of, from_int,
    from_int_of, functional, less, less_of, normalize, normalize_of, pi, pi_of, quotient,
    quotient_of, reversed, reversed_of, z_axis, z_axis_of, zero_of, Kernel, Point3, Rotation,
    Vector3,
};
use crate::lattice::{positions, rotated_of, same_atoms_moved, translated_of, valid_id};
use crate::molecule::Molecule;

verus! {

/// The stem of a molecule: the vector from the first stem atom to the
/// second.
pub open spec fn stem_vector_of<K: Kernel>(places: Seq<Point3<K::Scalar>>, stem: [u32; 2]) -> Vector3<
    K::Scalar,
> {
    displacement_of::<K>(at(places, stem@[1]), at(places, stem@[0]))
}

/// The unit normal of the plane of a molecule: the cross product of the
/// vectors from the first plane atom to the second and to the third, scaled
/// to length one.
pub open spec fn unit_plane_normal_of<K: Kernel>(
    places: Seq<Point3<K::Scalar>>,
    plane: [u32; 3],
) -> Vector3<K::Scalar> {
    normalize_of::<K>(
        cross_of::<K>(
            displacement_of::<K>(at(places, plane@[1]), at(places, plane@[0])),
            displacement_of::<K>(at(places, plane@[2]), at(places, plane@[0])),
        ),
    )
}

/// The rotation that sets a molecule upright.
///
/// With `is_vertical`, the molecule is turned about its stem until its plane
/// is vertical: by the angle between the normal of the plane and the
/// projection of that normal on the horizontal plane, about the stem where
/// the cross product of the normal and its projection makes less than a
/// right angle with the stem, and about the reversed stem otherwise.
/// Without, the stem is turned into the direction of the z axis.
pub open spec fn upright_turn_of<K: Kernel>(
    places: Seq<Point3<K::Scalar>>,
    stem: [u32; 2],
    plane: [u32; 3],
    is_vertical: bool,
) -> Rotation<K::Scalar> {
    let stem_vector = stem_vector_of::<K>(places, stem);
    if is_vertical {
        let normal = unit_plane_normal_of::<K>(places, plane);
        let level = Vector3 { x: normal.x, y: normal.y, z: zero_of::<K>() };
        let turn = angle_of::<K>(normal, level);
        let axis = cross_of::<K>(normal, level);
        if less_of::<K>(
            angle_of::<K>(axis, stem_vector),
            quotient_of::<K>(pi_of::<K>(), from_int_of::<K>(2)),
        ) {
            axis_angle_of::<K>(stem_vector, turn)
        } else {
            axis_angle_of::<K>(reversed_of::<K>(stem_vector), turn)
        }
    } else {
        axis_angle_of::<K>(
            cross_of::<K>(stem_vector, z_axis_of::<K>()),
            angle_of::<K>(stem_vector, z_axis_of::<K>()),
        )
    }
}

/// The molecule `places` turned upside down: turned by a half turn about its
/// stem.
pub open spec fn overturned_of<K: Kernel>(places: Seq<Point3<K::Scalar>>, stem: [u32; 2]) -> Seq<
    Point3<K::Scalar>,
> {
    rotated_of::<K>(axis_angle_of::<K>(stem_vector_of::<K>(places, stem), pi_of::<K>()), places)
}

/// The ids that setting a molecule of `atoms` atoms upright reads all name
/// atoms of it.
pub open spec fn upright_ids_valid(stem: [u32; 2], plane: [u32; 3], is_vertical: bool, atoms: nat) -> bool {
    &&& valid_id(stem@[0], atoms)
    &&& valid_id(stem@[1], atoms)
    &&& is_vertical ==> valid_id(plane@[0], atoms) && valid_id(plane@[1], atoms) && valid_id(
        plane@[2],
        atoms,
    )
}

/// A molecule that is to be adsorbed: it has a name, a stem and a plane,
/// knows whether it points upward, and can be turned and moved as one.
pub trait AdsorbateTraits<K: Kernel, M>: Molecule<K::Scalar, M> {
    /// The ids of the two atoms that define the stem.
    spec fn stem_ids(&self) -> [u32; 2];

    /// The ids of the three atoms that define the plane.
    spec fn plane_ids(&self) -> [u32; 3];

    /// The name of the molecule.
    fn get_ads_name(&self) -> String;

    /// The ids of the two atoms that define the stem.
    fn get_stem_atom_ids(&self) -> (ids: [u32; 2])
        ensures
            ids == self.stem_ids(),
    ;

    /// The ids of the three atoms that define the plane.
    fn get_plane_atom_ids(&self) -> (ids: [u32; 3])
        ensures
            ids == self.plane_ids(),
    ;

    /// Whether the molecule points upward.
    fn is_upward(&self) -> Result<bool, InvalidIndex>;

    /// Turns every atom about the origin by one and the same rotation.
    /// Nothing but the positions changes.
    fn rotate(&mut self, rotation: &Rotation<K::Scalar>)
        ensures
            final(self).stem_ids() == old(self).stem_ids(),
            final(self).plane_ids() == old(self).plane_ids(),
            same_atoms_moved(old(self).atoms_of(), final(self).atoms_of()),
            functional::<K>() ==> positions(final(self).atoms_of()) == rotated_of::<K>(
                *rotation,
                positions(old(self).atoms_of()),
            ),
    ;

    /// Moves every atom by one and the same displacement. Nothing but the
    /// positions changes.
    fn translate(&mut self, translation: &Vector3<K::Scalar>)
        ensures
            final(self).stem_ids() == old(self).stem_ids(),
            final(self).plane_ids() == old(self).plane_ids(),
            same_atoms_moved(old(self).atoms_of(), final(self).atoms_of()),
            functional::<K>() ==> positions(final(self).atoms_of()) == translated_of::<K>(
                positions(old(self).atoms_of()),
                *translation,
            ),
    ;

    /// The stem of the molecule. Fails exactly where a stem id names no
    /// atom.
    fn get_stem_vector(&self) -> (v: Result<Vector3<K::Scalar>, InvalidIndex>)
        ensures
            v is Ok <==> valid_id(self.stem_ids()@[0], self.atoms_of().len()) && valid_id(
                self.stem_ids()@[1],
                self.atoms_of().len(),
            ),
            functional::<K>() && v is Ok ==> v->Ok_0 == stem_vector_of::<K>(
                positions(self.atoms_of()),
                self.stem_ids(),
            ),
    {
        let ids = self.get_stem_atom_ids();
        self.get_vector_ab::<K>(ids[0], ids[1])
    }

    /// The unit normal of the plane of the molecule. Fails exactly where a
    /// plane id names no atom.
    fn get_plane_normal(&self) -> (n: Result<Vector3<K::Scalar>, InvalidIndex>)
        ensures
            n is Ok <==> valid_id(self.plane_ids()@[0], self.atoms_of().len()) && valid_id(
                self.plane_ids()@[1],
                self.atoms_of().len(),
            ) && valid_id(self.plane_ids()@[2], self.atoms_of().len()),
            functional::<K>() && n is Ok ==> n->Ok_0 == unit_plane_normal_of::<K>(
                positions(self.atoms_of()),
                self.plane_ids(),
            ),
    {
        let ids = self.get_plane_atom_ids();
        let ab = self.get_vector_ab::<K>(ids[0], ids[1])?;
        let ac = self.get_vector_ab::<K>(ids[0], ids[2])?;
        Ok(normalize::<K>(cross::<K>(ab, ac)))
    }

    /// Sets the molecule upright: with `is_vertical`, its plane is made
    /// vertical; without, its stem is. Should it then not point upward, it is
    /// turned upside down.
    ///
    /// The molecule keeps its atoms, moved at most. Where an id that is read
    /// names no atom, nothing is moved and the failure is reported. Else the
    /// molecule is turned by [`upright_turn_of`], and it is then for
    /// `is_upward` to say whether it is turned by [`overturned_of`] as well.
    fn make_upright(&mut self, is_vertical: bool) -> (r: Result<(), InvalidIndex>)
        ensures
            same_atoms_moved(old(self).atoms_of(), final(self).atoms_of()),
            !upright_ids_valid(
                old(self).stem_ids(),
                old(self).plane_ids(),
                is_vertical,
                old(self).atoms_of().len(),
            ) ==> r is Err && final(self).atoms_of() == old(self).atoms_of(),
            functional::<K>() && upright_ids_valid(
                old(self).stem_ids(),
                old(self).plane_ids(),
                is_vertical,
                old(self).atoms_of().len(),
            ) ==> {
                let turned = rotated_of::<K>(
                    upright_turn_of::<K>(
                        positions(old(self).atoms_of()),
                        old(self).stem_ids(),
                        old(self).plane_ids(),
                        is_vertical,
                    ),
                    positions(old(self).atoms_of()),
                );
                ||| positions(final(self).atoms_of()) == turned
                ||| r is Ok && positions(final(self).atoms_of()) == overturned_of::<K>(
                    turned,
                    old(self).stem_ids(),
                )
            },
    {
        assert(self.atoms_of() =~= crate::lattice::placed(
            self.atoms_of(),
            positions(self.atoms_of()),
        ));
        let ghost before = self.atoms_of();
        let stem_vector = self.get_stem_vector()?;
        let turn = if is_vertical {
            let normal = self.get_plane_normal()?;
            let level = Vector3 { x: normal.x, y: normal.y, z: from_int::<K>(0) };
            let turn = angle::<K>(normal, level);
            let axis = cross::<K>(normal, level);
            let right_angle = quotient::<K>(pi::<K>(), from_int::<K>(2));
            if less::<K>(angle::<K>(axis, stem_vector), right_angle) {
                axis_angle::<K>(stem_vector, turn)
            } else {
                axis_angle::<K>(reversed::<K>(stem_vector), turn)
            }
        } else {
            let up = z_axis::<K>();
            axis_angle::<K>(cross::<K>(stem_vector, up), angle::<K>(stem_vector, up))
        };
        self.rotate(&turn);
        let ghost turned = self.atoms_of();
        if !self.is_upward()? {
            let stem_vector = self.get_stem_vector()?;
            let half_turn = axis_angle::<K>(stem_vector, pi::<K>());
            self.rotate(&half_turn);
            assert(self.atoms_of() =~= crate::lattice::placed(
                before,
                positions(self.atoms_of()),
            ));
        }
        Ok(())
    }
}

} // verus!
