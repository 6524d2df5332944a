//! The placement stage: the translation that brings the oriented fragment to
//! its bonding distance from the target location.
use vstd::prelude::*;
use crate::assemble::orientation::{check_coordinate, checked_of, follows};
use crate::assemble::params::{AdsParams, ParamsView};
use crate::assemble::resolver::{at, coord_stem_of, get_coord_stem_vector, position_of};
use crate::assemble::rigid::{
    lemma_rigid_still, lemma_rigid_step, only_shifted, rigidly_moved, Motion,
};
use crate::error::AssembleError;
use crate::kernel::{
    angle, angle_of, displacement, displacement_of, from_int, from_int_of, functional, less,
    less_of, normalize, normalize_of, scale, scale_of, sum, sum_of, to_degrees, to_degrees_of,
    translate, translate_of, zero_of, Kernel, Point3, Vector3,
};
use crate::lattice::{placed, positions, translated_of, valid_id, LatticeModel};
use crate::math_helper::{centroid_of, centroid_of_points};

verus! {

/// The point straight above `location`, at the height `bond_length`.
pub open spec fn lifted_of<K: Kernel>(
    location: Point3<K::Scalar>,
    bond_length: K::Scalar,
) -> Point3<K::Scalar> {
    Point3 { x: location.x, y: location.y, z: sum_of::<K>(location.z, bond_length) }
}

/// The places of the atoms that go by `ids`, in the order of `ids`.
pub open spec fn points_at<S>(places: Seq<Point3<S>>, ids: Seq<u32>) -> Seq<Point3<S>> {
    Seq::new(ids.len(), |i: int| at(places, ids[i]))
}

/// The fragment placed by several coordination atoms: moved so that their
/// centroid comes to lie straight above the location, at the bond length.
pub open spec fn multiple_coord_of<K: Kernel>(
    places: Seq<Point3<K::Scalar>>,
    params: ParamsView<K::Scalar>,
    location: Point3<K::Scalar>,
) -> Seq<Point3<K::Scalar>> {
    translated_of::<K>(
        places,
        displacement_of::<K>(
            lifted_of::<K>(location, params.bond_length),
            centroid_of::<K>(points_at(places, params.coord_atom_ids)),
        ),
    )
}

/// An angle to the vertical, in degrees, at which a single coordination atom
/// is placed along its bonding direction: strictly between 1 and 61, or
/// strictly between 119 and 179.
pub open spec fn in_band_of<K: Kernel>(degrees: K::Scalar) -> bool {
    ||| less_of::<K>(from_int_of::<K>(1), degrees) && less_of::<K>(degrees, from_int_of::<K>(61))
    ||| less_of::<K>(from_int_of::<K>(119), degrees) && less_of::<K>(
        degrees,
        from_int_of::<K>(179),
    )
}

/// Where a single coordination atom with the bonding direction `direction`
/// comes to lie: at the bond length from the location along `direction`
/// where the angle of `direction` to the vertical is in the band, and
/// straight above the location otherwise.
pub open spec fn single_target_of<K: Kernel>(
    direction: Vector3<K::Scalar>,
    location: Point3<K::Scalar>,
    bond_length: K::Scalar,
) -> Point3<K::Scalar> {
    let vertical = Vector3 { x: zero_of::<K>(), y: zero_of::<K>(), z: bond_length };
    if in_band_of::<K>(to_degrees_of::<K>(angle_of::<K>(direction, vertical))) {
        translate_of::<K>(location, scale_of::<K>(normalize_of::<K>(direction), bond_length))
    } else {
        lifted_of::<K>(location, bond_length)
    }
}

/// The fragment placed by its single coordination atom: moved so that this
/// atom comes to lie at [`single_target_of`].
pub open spec fn single_coord_of<K: Kernel>(
    places: Seq<Point3<K::Scalar>>,
    params: ParamsView<K::Scalar>,
    location: Point3<K::Scalar>,
) -> Result<Seq<Point3<K::Scalar>>, AssembleError> {
    match coord_stem_of::<K>(places, params) {
        Ok(direction) => Ok(
            translated_of::<K>(
                places,
                displacement_of::<K>(
                    single_target_of::<K>(direction, location, params.bond_length),
                    at(places, params.first_coord_id()),
                ),
            ),
        ),
        Err(e) => Err(e),
    }
}

/// The fragment after the placement stage, checked: placed by the centroid
/// of its coordination atoms where there are several, and by its single
/// coordination atom otherwise.
pub open spec fn ready_of<K: Kernel>(
    places: Seq<Point3<K::Scalar>>,
    params: ParamsView<K::Scalar>,
    location: Point3<K::Scalar>,
) -> Result<Seq<Point3<K::Scalar>>, AssembleError> {
    if params.coord_atom_ids.len() > 1 {
        checked_of::<K>(multiple_coord_of::<K>(places, params, location))
    } else {
        match single_coord_of::<K>(places, params, location) {
            Ok(moved) => checked_of::<K>(moved),
            Err(e) => Err(e),
        }
    }
}

/// The point straight above `location`, at the height `bond_length`.
pub fn lifted<K: Kernel>(location: Point3<K::Scalar>, bond_length: K::Scalar) -> (p: Point3<
    K::Scalar,
>)
    ensures
        functional::<K>() ==> p == lifted_of::<K>(location, bond_length),
{
    Point3 { x: location.x, y: location.y, z: sum::<K>(location.z, bond_length) }
}

/// Whether an angle to the vertical, in degrees, is in the band in which a
/// single coordination atom is placed along its bonding direction.
pub fn in_band<K: Kernel>(degrees: K::Scalar) -> (r: bool)
    ensures
        functional::<K>() ==> r == in_band_of::<K>(degrees),
{
    let low = less::<K>(from_int::<K>(1), degrees) && less::<K>(degrees, from_int::<K>(61));
    let high = less::<K>(from_int::<K>(119), degrees) && less::<K>(degrees, from_int::<K>(179));
    low || high
}

/// Places the fragment by its first coordination atom: at the bond length
/// from the location along the bonding direction where that direction is
/// tilted enough, and straight above the location otherwise. The fragment
/// moves as one, by one translation, and is not turned.
///
/// With a real stem it always succeeds. With a virtual stem it fails only
/// where the kernel finds the plane atoms on one line, and the fragment then
/// stays as it was.
pub fn single_coord<K: Kernel, M>(
    fragment: &mut LatticeModel<K::Scalar, M>,
    params: &AdsParams<K::Scalar>,
    location: Point3<K::Scalar>,
) -> (r: Result<(), AssembleError>)
    requires
        params@.ids_valid(old(fragment).atoms@.len()),
    ensures
        final(fragment).moved_from(old(fragment)),
        rigidly_moved::<K>(positions(old(fragment).atoms@), positions(final(fragment).atoms@)),
        r is Ok ==> only_shifted::<K>(
            positions(old(fragment).atoms@),
            positions(final(fragment).atoms@),
        ),
        r is Err ==> *final(fragment) == *old(fragment),
        r matches Err(e) ==> e == AssembleError::CollinearPoints,
        !params@.stem_is_virtual() ==> r is Ok,
        functional::<K>() ==> match single_coord_of::<K>(
            positions(old(fragment).atoms@),
            params@,
            location,
        ) {
            Ok(places) => r is Ok && positions(final(fragment).atoms@) == places,
            Err(e) => r == Err::<(), AssembleError>(e),
        },
{
    assert(fragment.atoms@ =~= placed(fragment.atoms@, positions(fragment.atoms@)));
    proof {
        lemma_rigid_still::<K>(positions(fragment.atoms@));
    }
    let coord_atom_ids = params.coord_atom_ids();
    assert(valid_id(coord_atom_ids@[0], fragment.atoms@.len()));
    let coord = position_of(fragment, coord_atom_ids[0]);
    let bond_length = params.bond_length();
    let direction = match get_coord_stem_vector::<K, M>(fragment, params) {
        Ok(v) => v,
        Err(e) => {
            return Err(e);
        },
    };
    let vertical = Vector3 { x: from_int::<K>(0), y: from_int::<K>(0), z: bond_length };
    let degrees = to_degrees::<K>(angle::<K>(direction, vertical));
    let target = if in_band::<K>(degrees) {
        translate::<K>(location, scale::<K>(normalize::<K>(direction), bond_length))
    } else {
        lifted::<K>(location, bond_length)
    };
    let shift = displacement::<K>(target, coord);
    fragment.translate::<K>(&shift);
    proof {
        lemma_rigid_step::<K>(
            Motion::Shift(shift),
            positions(old(fragment).atoms@),
            positions(fragment.atoms@),
        );
    }
    Ok(())
}

/// Places the fragment by the centroid of its coordination atoms, straight
/// above the location at the bond length. The fragment moves as one, by one
/// translation, and is not turned.
pub fn multiple_coord<K: Kernel, M>(
    fragment: &mut LatticeModel<K::Scalar, M>,
    params: &AdsParams<K::Scalar>,
    location: Point3<K::Scalar>,
)
    requires
        params@.ids_valid(old(fragment).atoms@.len()),
    ensures
        final(fragment).moved_from(old(fragment)),
        rigidly_moved::<K>(positions(old(fragment).atoms@), positions(final(fragment).atoms@)),
        only_shifted::<K>(positions(old(fragment).atoms@), positions(final(fragment).atoms@)),
        functional::<K>() ==> positions(final(fragment).atoms@) == multiple_coord_of::<K>(
            positions(old(fragment).atoms@),
            params@,
            location,
        ),
{
    let coord_atom_ids = params.coord_atom_ids();
    let mut points: Vec<Point3<K::Scalar>> = Vec::new();
    let mut i: usize = 0;
    while i < coord_atom_ids.len()
        invariant
            0 <= i <= coord_atom_ids@.len(),
            coord_atom_ids@ == params@.coord_atom_ids,
            params@.ids_valid(fragment.atoms@.len()),
            points@ =~= points_at(positions(fragment.atoms@), coord_atom_ids@.take(i as int)),
        decreases coord_atom_ids@.len() - i,
    {
        assert(valid_id(coord_atom_ids@[i as int], fragment.atoms@.len()));
        points.push(position_of(fragment, coord_atom_ids[i]));
        i = i + 1;
    }
    assert(coord_atom_ids@.take(i as int) =~= coord_atom_ids@);
    let centroid = centroid_of_points::<K>(points.as_slice());
    let target = lifted::<K>(location, params.bond_length());
    let shift = displacement::<K>(target, centroid);
    fragment.translate::<K>(&shift);
    proof {
        lemma_rigid_step::<K>(
            Motion::Shift(shift),
            positions(old(fragment).atoms@),
            positions(fragment.atoms@),
        );
    }
}

/// What every run of the placement stage guarantees, where it turned the
/// fragment `before` into `after` and ended with `r`.
///
/// * The fragment holds the same atoms, moved at most, and moved as one
///   body: by one translation of the kernel, applied to every atom alike,
///   and by no rotation.
/// * No other failure is reported than a coordinate that is not finite or,
///   with a single coordination atom and a virtual stem, plane atoms on one
///   line. In the latter case the fragment stays as it was.
/// * With a functional kernel the run follows [`ready_of`].
pub open spec fn positioned<K: Kernel, M>(
    before: LatticeModel<K::Scalar, M>,
    params: ParamsView<K::Scalar>,
    location: Point3<K::Scalar>,
    after: LatticeModel<K::Scalar, M>,
    r: Result<(), AssembleError>,
) -> bool {
    &&& after.moved_from(&before)
    &&& rigidly_moved::<K>(positions(before.atoms@), positions(after.atoms@))
    &&& r != Err::<(), AssembleError>(AssembleError::CollinearPoints) ==> only_shifted::<K>(
        positions(before.atoms@),
        positions(after.atoms@),
    )
    &&& r matches Err(e) ==> e == AssembleError::CollinearPoints || e
        == AssembleError::InvalidCoord
    &&& r == Err::<(), AssembleError>(AssembleError::CollinearPoints) ==> {
        &&& params.coord_atom_ids.len() == 1
        &&& params.stem_is_virtual()
        &&& after == before
    }
    &&& functional::<K>() ==> follows(
        ready_of::<K>(positions(before.atoms@), params, location),
        positions(after.atoms@),
        r,
    )
}

/// Places the oriented fragment, by the centroid of its coordination atoms
/// where there are several and by its single coordination atom otherwise,
/// and checks the coordinates that come out.
///
/// The fragment is moved by one translation and not turned. With several
/// coordination atoms the stage fails only where the kernel finds a
/// coordinate that is not finite; with one, also where the kernel finds the
/// plane atoms of a virtual stem on one line.
pub fn place<K: Kernel, M>(
    fragment: &mut LatticeModel<K::Scalar, M>,
    params: &AdsParams<K::Scalar>,
    location: Point3<K::Scalar>,
) -> (r: Result<(), AssembleError>)
    requires
        params@.ids_valid(old(fragment).atoms@.len()),
    ensures
        positioned::<K, M>(*old(fragment), params@, location, *final(fragment), r),
{
    if params.coord_atom_ids().len() > 1 {
        multiple_coord::<K, M>(fragment, params, location);
    } else {
        match single_coord::<K, M>(fragment, params, location) {
            Ok(()) => {},
            Err(e) => {
                return Err(e);
            },
        }
    }
    match check_coordinate::<K, M>(fragment) {
        Ok(()) => Ok(()),
        Err(_) => Err(AssembleError::InvalidCoord),
    }
}

} // verus!
