//! The orientation stage: the initial alignment of the fragment, then its
//! roll, pitch and yaw.
use vstd::prelude::*;
use crate::assemble::params::{AdsParams, ParamsView};
use crate::assemble::resolver::{
    at, get_plane_normal, get_stem_vector, plane_normal_at, position_of, stem_of, StemType,
};
use crate::error::{AssembleError, InvalidCoord};
use crate::kernel::{
    abs, abs_of, angle, angle_of, axis_angle, axis_angle_of, center, center_of, cos, cos_of, cross,
    cross_of, difference, difference_of, displacement, displacement_of, dot, dot_of, from_int,
    finite_of, from_int_of, functional, is_finite, less, less_of, normalize, normalize_of, origin,
    origin_of, pi, pi_of, product, product_of, quotient, quotient_of, reversed, reversed_of,
    rotation_between, rotation_between_of, sin, sin_of, to_radians, to_radians_of, x_axis,
    x_axis_of, z_axis, z_axis_of, zero_of, Kernel, Point3, Rotation, Vector3,
};
use crate::assemble::rigid::{
    lemma_rigid_still, lemma_rigid_step, lemma_rigid_twice, rigidly_moved, Motion,
};
use crate::lattice::{positions, rotated_of, translated_of, valid_id, LatticeModel};

verus! {

/// The rotation that turns `from` into the direction of `onto`: the smallest
/// one, where the kernel finds it. Where it finds none, the two point
/// opposite ways, and the rotation is the half turn about `square`, an axis
/// square to `onto`.
pub open spec fn turn_onto_of<K: Kernel>(
    from: Vector3<K::Scalar>,
    onto: Vector3<K::Scalar>,
    square: Vector3<K::Scalar>,
) -> Rotation<K::Scalar> {
    match rotation_between_of::<K>(from, onto) {
        Some(q) => q,
        None => axis_angle_of::<K>(square, pi_of::<K>()),
    }
}

/// The fragment after the initial rotation, which turns the stem into the
/// direction of the x axis: by the smallest rotation, or by a half turn about
/// the z axis where the stem points against the x axis.
pub open spec fn aligned_of<K: Kernel>(
    places: Seq<Point3<K::Scalar>>,
    params: ParamsView<K::Scalar>,
) -> Result<Seq<Point3<K::Scalar>>, AssembleError> {
    match stem_of::<K>(places, params) {
        Ok(stem) => Ok(
            rotated_of::<K>(
                turn_onto_of::<K>(stem.vector(), x_axis_of::<K>(), z_axis_of::<K>()),
                places,
            ),
        ),
        Err(e) => Err(e),
    }
}

/// The point of the fragment that is to sit at the origin: the midpoint of
/// the two stem atoms, which is the anchor where the stem is virtual, or the
/// first atom where there are no stem atoms.
pub open spec fn stem_anchor_of<K: Kernel>(
    places: Seq<Point3<K::Scalar>>,
    params: ParamsView<K::Scalar>,
) -> Point3<K::Scalar> {
    match params.stem_atom_ids {
        Some(stem) => center_of::<K>(at(places, stem.0), at(places, stem.1)),
        None => at(places, 1),
    }
}

/// The fragment moved so that its stem anchor sits at the origin.
pub open spec fn centered_of<K: Kernel>(
    places: Seq<Point3<K::Scalar>>,
    params: ParamsView<K::Scalar>,
) -> Seq<Point3<K::Scalar>> {
    translated_of::<K>(
        places,
        displacement_of::<K>(origin_of::<K>(), stem_anchor_of::<K>(places, params)),
    )
}

/// The direction in the y-z plane that the normal of the fragment's plane is
/// rolled onto: at `90° − plane_angle` from the y axis.
pub open spec fn roll_target_of<K: Kernel>(plane_angle: K::Scalar) -> Vector3<K::Scalar> {
    let tilt = to_radians_of::<K>(difference_of::<K>(from_int_of::<K>(90), plane_angle));
    Vector3 { x: zero_of::<K>(), y: cos_of::<K>(tilt), z: sin_of::<K>(tilt) }
}

/// A roll is due: the fragment has more than two atoms, and a plane angle is
/// given.
pub open spec fn roll_due<S>(params: ParamsView<S>, atoms: nat) -> bool {
    atoms > 2 && params.plane_angle is Some
}

/// The fragment after the roll, which turns the normal of the fragment's
/// plane onto [`roll_target_of`]: by the smallest rotation, or by a half turn
/// about the x axis where the normal points against the target. The fragment
/// itself where no roll is due.
pub open spec fn rolled_of<K: Kernel>(
    places: Seq<Point3<K::Scalar>>,
    params: ParamsView<K::Scalar>,
) -> Result<Seq<Point3<K::Scalar>>, AssembleError> {
    if roll_due(params, places.len()) {
        match params.plane_atom_ids {
            Some(plane) => match plane_normal_at::<K>(places, plane) {
                Ok(n) => Ok(
                    rotated_of::<K>(
                        turn_onto_of::<K>(
                            n,
                            roll_target_of::<K>(params.plane_angle->Some_0),
                            x_axis_of::<K>(),
                        ),
                        places,
                    ),
                ),
                Err(e) => Err(e),
            },
            None => Err(AssembleError::MissingPlane),
        }
    } else {
        Ok(places)
    }
}

/// The marker atom `upper_atom_id` lies below the first coordination atom.
pub open spec fn upside_down_of<K: Kernel>(
    places: Seq<Point3<K::Scalar>>,
    params: ParamsView<K::Scalar>,
    upper_atom_id: u32,
) -> bool {
    less_of::<K>(at(places, upper_atom_id).z, at(places, params.first_coord_id()).z)
}

/// The fragment after the upright flip: turned by a half turn about the x
/// axis where it is upside down, and left alone otherwise.
pub open spec fn flipped_of<K: Kernel>(
    places: Seq<Point3<K::Scalar>>,
    params: ParamsView<K::Scalar>,
    upper_atom_id: u32,
) -> Seq<Point3<K::Scalar>> {
    if upside_down_of::<K>(places, params, upper_atom_id) {
        rotated_of::<K>(axis_angle_of::<K>(x_axis_of::<K>(), pi_of::<K>()), places)
    } else {
        places
    }
}

/// Every coordinate of `p` is finite.
pub open spec fn finite_point_of<K: Kernel>(p: Point3<K::Scalar>) -> bool {
    finite_of::<K>(p.x) && finite_of::<K>(p.y) && finite_of::<K>(p.z)
}

/// Every coordinate of every point of `places` is finite: none is infinite,
/// and none is not a number.
pub open spec fn all_finite_of<K: Kernel>(places: Seq<Point3<K::Scalar>>) -> bool {
    forall|i: int| 0 <= i < places.len() ==> finite_point_of::<K>(#[trigger] places[i])
}

/// One thousandth: how far the cosine between two directions may be from
/// one in absolute value for them to count as parallel.
pub open spec fn tolerance_of<K: Kernel>() -> K::Scalar {
    quotient_of::<K>(from_int_of::<K>(1), from_int_of::<K>(1000))
}

/// Two unit directions with cosine `cosine` between them are not parallel:
/// `| |cosine| − 1 |` exceeds the tolerance.
pub open spec fn apart_of<K: Kernel>(cosine: K::Scalar) -> bool {
    less_of::<K>(
        tolerance_of::<K>(),
        abs_of::<K>(difference_of::<K>(abs_of::<K>(cosine), from_int_of::<K>(1))),
    )
}

/// The fragment after the pitch by the stem-to-bond angle `stem_coord_angle`,
/// given in degrees.
///
/// The stem is first pointed to the side of the first coordination atom: it
/// is reversed where its dot product with the vector from the origin to that
/// atom is negative. The target direction lies in the x-z plane, at
/// `stem_coord_angle` below the x axis, on the side of the oriented stem. The
/// fragment is turned about `stem × target` by the angle between the target
/// and the projection of the stem on the x-z plane, unless these two already
/// count as parallel.
pub open spec fn pitched_of<K: Kernel>(
    places: Seq<Point3<K::Scalar>>,
    params: ParamsView<K::Scalar>,
) -> Result<Seq<Point3<K::Scalar>>, AssembleError> {
    match params.stem_coord_angle {
        Some(stem_coord_angle) => match stem_of::<K>(places, params) {
            Ok(resolved) => {
                let to_coord = displacement_of::<K>(
                    at(places, params.first_coord_id()),
                    origin_of::<K>(),
                );
                let away = less_of::<K>(dot_of::<K>(to_coord, resolved.vector()), zero_of::<K>());
                let stem = if away {
                    reversed_of::<K>(resolved.vector())
                } else {
                    resolved.vector()
                };
                let sign = if away {
                    from_int_of::<K>(-1i32)
                } else {
                    from_int_of::<K>(1)
                };
                let stem_xz = normalize_of::<K>(Vector3 { x: stem.x, y: zero_of::<K>(), z: stem.z });
                let tilt = to_radians_of::<K>(stem_coord_angle);
                let target = Vector3 {
                    x: product_of::<K>(sign, cos_of::<K>(tilt)),
                    y: zero_of::<K>(),
                    z: product_of::<K>(from_int_of::<K>(-1i32), sin_of::<K>(tilt)),
                };
                if apart_of::<K>(dot_of::<K>(stem_xz, target)) {
                    Ok(
                        rotated_of::<K>(
                            axis_angle_of::<K>(
                                cross_of::<K>(stem, target),
                                angle_of::<K>(stem_xz, target),
                            ),
                            places,
                        ),
                    )
                } else {
                    Ok(places)
                }
            },
            Err(e) => Err(e),
        },
        None => Err(AssembleError::MissingStemCoordAngle),
    }
}

/// The fragment after the yaw toward `ads_direction`; the fragment itself
/// where no direction is given.
///
/// The stem and the direction are projected on the horizontal plane. Unless
/// the projections already count as parallel, the fragment is turned by the
/// angle between them: about their cross product where the stem is real, and
/// about the z axis where it is virtual.
pub open spec fn yawed_of<K: Kernel>(
    places: Seq<Point3<K::Scalar>>,
    params: ParamsView<K::Scalar>,
) -> Result<Seq<Point3<K::Scalar>>, AssembleError> {
    match params.ads_direction {
        Some(direction) => match stem_of::<K>(places, params) {
            Ok(resolved) => {
                let stem = resolved.vector();
                let stem_xy = Vector3 { x: stem.x, y: stem.y, z: zero_of::<K>() };
                let dir_xy = Vector3 { x: direction.x, y: direction.y, z: zero_of::<K>() };
                if apart_of::<K>(
                    dot_of::<K>(normalize_of::<K>(stem_xy), normalize_of::<K>(dir_xy)),
                ) {
                    let axis = match resolved {
                        StemType::RealStem(_) => cross_of::<K>(stem_xy, dir_xy),
                        StemType::VirtualStem(_) => z_axis_of::<K>(),
                    };
                    Ok(
                        rotated_of::<K>(
                            axis_angle_of::<K>(axis, angle_of::<K>(stem_xy, dir_xy)),
                            places,
                        ),
                    )
                } else {
                    Ok(places)
                }
            },
            Err(e) => Err(e),
        },
        None => Ok(places),
    }
}

/// What the parameters lack for the orientation of a fragment of `atoms`
/// atoms with the marker atom `upper_atom_id`, if anything. This is decided
/// before anything is computed.
pub open spec fn orientation_config_error<S>(
    params: ParamsView<S>,
    atoms: nat,
    upper_atom_id: u32,
) -> Option<AssembleError> {
    if atoms <= 1 {
        None
    } else if !valid_id(upper_atom_id, atoms) {
        Some(AssembleError::InvalidIndex)
    } else if roll_due(params, atoms) && params.plane_atom_ids is None {
        Some(AssembleError::MissingPlane)
    } else if params.stem_coord_angle is None {
        Some(AssembleError::MissingStemCoordAngle)
    } else {
        None
    }
}

/// `places` where all its coordinates are finite; the failure otherwise.
pub open spec fn checked_of<K: Kernel>(places: Seq<Point3<K::Scalar>>) -> Result<
    Seq<Point3<K::Scalar>>,
    AssembleError,
> {
    if all_finite_of::<K>(places) {
        Ok(places)
    } else {
        Err(AssembleError::InvalidCoord)
    }
}

/// The fragment after roll and upright flip, checked.
pub open spec fn plane_adjusted_of<K: Kernel>(
    places: Seq<Point3<K::Scalar>>,
    params: ParamsView<K::Scalar>,
    upper_atom_id: u32,
) -> Result<Seq<Point3<K::Scalar>>, AssembleError> {
    match rolled_of::<K>(places, params) {
        Ok(rolled) => checked_of::<K>(flipped_of::<K>(rolled, params, upper_atom_id)),
        Err(e) => Err(e),
    }
}

/// The fragment after pitch and yaw, checked after each.
pub open spec fn headed_of<K: Kernel>(
    places: Seq<Point3<K::Scalar>>,
    params: ParamsView<K::Scalar>,
) -> Result<Seq<Point3<K::Scalar>>, AssembleError> {
    match pitched_of::<K>(places, params) {
        Ok(pitched) => match checked_of::<K>(pitched) {
            Ok(pitched) => match yawed_of::<K>(pitched, params) {
                Ok(yawed) => checked_of::<K>(yawed),
                Err(e) => Err(e),
            },
            Err(e) => Err(e),
        },
        Err(e) => Err(e),
    }
}

/// The fragment after the whole orientation stage: aligned and centered,
/// then, where it has more than one atom, rolled, flipped upright, pitched
/// and yawed, in this order.
pub open spec fn calibrated_of<K: Kernel>(
    places: Seq<Point3<K::Scalar>>,
    params: ParamsView<K::Scalar>,
    upper_atom_id: u32,
) -> Result<Seq<Point3<K::Scalar>>, AssembleError> {
    match orientation_config_error(params, places.len(), upper_atom_id) {
        Some(e) => Err(e),
        None => match aligned_of::<K>(places, params) {
            Ok(aligned) => {
                let centered = centered_of::<K>(aligned, params);
                if places.len() == 1 {
                    Ok(centered)
                } else {
                    match plane_adjusted_of::<K>(centered, params, upper_atom_id) {
                        Ok(adjusted) => headed_of::<K>(adjusted, params),
                        Err(e) => Err(e),
                    }
                }
            },
            Err(e) => Err(e),
        },
    }
}

/// Being moved is transitive: atoms moved twice are the same atoms, moved.
pub proof fn lemma_moved_twice<S, M>(
    a: LatticeModel<S, M>,
    b: LatticeModel<S, M>,
    c: LatticeModel<S, M>,
)
    requires
        b.moved_from(&a),
        c.moved_from(&b),
    ensures
        c.moved_from(&a),
{
    assert(c.atoms@ =~= crate::lattice::placed(a.atoms@, positions(c.atoms@)));
}

/// Checks that every coordinate of the fragment is finite.
pub fn check_coordinate<K: Kernel, M>(fragment: &LatticeModel<K::Scalar, M>) -> (r: Result<
    (),
    InvalidCoord,
>)
    ensures
        functional::<K>() ==> (r is Ok <==> all_finite_of::<K>(positions(fragment.atoms@))),
{
    let n = fragment.atoms.len();
    let mut i: usize = 0;
    while i < n
        invariant
            0 <= i <= n,
            n == fragment.atoms@.len(),
            functional::<K>() ==> forall|j: int|
                0 <= j < i ==> finite_point_of::<K>(#[trigger] positions(fragment.atoms@)[j]),
        decreases n - i,
    {
        let xyz = fragment.atoms[i].xyz;
        if !(is_finite::<K>(xyz.x) && is_finite::<K>(xyz.y) && is_finite::<K>(xyz.z)) {
            proof {
                assert(positions(fragment.atoms@)[i as int] == xyz);
            }
            return Err(InvalidCoord);
        }
        i = i + 1;
    }
    Ok(())
}

/// Finds the rotation that turns `from` into the direction of `onto`: the
/// smallest one or, where the kernel finds none because the two point
/// opposite ways, the half turn about `square`.
pub fn turn_onto<K: Kernel>(
    from: Vector3<K::Scalar>,
    onto: Vector3<K::Scalar>,
    square: Vector3<K::Scalar>,
) -> (q: Rotation<K::Scalar>)
    ensures
        functional::<K>() ==> q == turn_onto_of::<K>(from, onto, square),
{
    match rotation_between::<K>(from, onto) {
        Some(q) => q,
        None => axis_angle::<K>(square, pi::<K>()),
    }
}

/// The initial alignment: turns the fragment so that its stem comes into the
/// direction of the x axis, by the smallest rotation that does so, or by a
/// half turn about the z axis where the stem points against the x axis.
///
/// Whatever the outcome, the fragment holds the same atoms, moved at most.
/// With a real stem it always succeeds; with a virtual stem it fails only
/// where the kernel finds the plane atoms on one line.
pub fn align_stem<K: Kernel, M>(
    fragment: &mut LatticeModel<K::Scalar, M>,
    params: &AdsParams<K::Scalar>,
) -> (r: Result<(), AssembleError>)
    requires
        params@.ids_valid(old(fragment).atoms@.len()),
    ensures
        final(fragment).moved_from(old(fragment)),
        rigidly_moved::<K>(positions(old(fragment).atoms@), positions(final(fragment).atoms@)),
        r matches Err(e) ==> e == AssembleError::CollinearPoints,
        !params@.stem_is_virtual() ==> r is Ok,
        r is Err ==> *final(fragment) == *old(fragment),
        functional::<K>() ==> match aligned_of::<K>(positions(old(fragment).atoms@), params@) {
            Ok(places) => r is Ok && positions(final(fragment).atoms@) == places,
            Err(e) => r == Err::<(), AssembleError>(e),
        },
{
    assert(fragment.atoms@ =~= crate::lattice::placed(fragment.atoms@, positions(fragment.atoms@)));
    proof {
        lemma_rigid_still::<K>(positions(fragment.atoms@));
    }
    match get_stem_vector::<K, M>(fragment, params) {
        Ok(stem) => {
            let q = turn_onto::<K>(stem.into_vector(), x_axis::<K>(), z_axis::<K>());
            fragment.rotate::<K>(&q);
            proof {
                lemma_rigid_step::<K>(
                    Motion::Turn(q),
                    positions(old(fragment).atoms@),
                    positions(fragment.atoms@),
                );
            }
            Ok(())
        },
        Err(e) => Err(e),
    }
}

/// Moves the fragment so that its stem anchor comes to sit at the origin.
pub fn move_to_origin<K: Kernel, M>(
    fragment: &mut LatticeModel<K::Scalar, M>,
    params: &AdsParams<K::Scalar>,
)
    requires
        params@.ids_valid(old(fragment).atoms@.len()),
    ensures
        final(fragment).moved_from(old(fragment)),
        rigidly_moved::<K>(positions(old(fragment).atoms@), positions(final(fragment).atoms@)),
        functional::<K>() ==> positions(final(fragment).atoms@) == centered_of::<K>(
            positions(old(fragment).atoms@),
            params@,
        ),
{
    let coord_atom_ids = params.coord_atom_ids();
    assert(valid_id(coord_atom_ids@[0], fragment.atoms@.len()));
    let anchor = match params.stem_atom_ids() {
        Some(stem) => center::<K>(
            position_of(fragment, stem[0]),
            position_of(fragment, stem[1]),
        ),
        None => position_of(fragment, 1),
    };
    let shift = displacement::<K>(origin::<K>(), anchor);
    fragment.translate::<K>(&shift);
    proof {
        lemma_rigid_step::<K>(
            Motion::Shift(shift),
            positions(old(fragment).atoms@),
            positions(fragment.atoms@),
        );
    }
}

/// Turns the fragment by a half turn about the x axis where the marker atom
/// `upper_atom_id` lies below the first coordination atom.
pub fn flip_up<K: Kernel, M>(
    fragment: &mut LatticeModel<K::Scalar, M>,
    params: &AdsParams<K::Scalar>,
    upper_atom_id: u32,
)
    requires
        params@.ids_valid(old(fragment).atoms@.len()),
        valid_id(upper_atom_id, old(fragment).atoms@.len()),
    ensures
        final(fragment).moved_from(old(fragment)),
        rigidly_moved::<K>(positions(old(fragment).atoms@), positions(final(fragment).atoms@)),
        functional::<K>() ==> positions(final(fragment).atoms@) == flipped_of::<K>(
            positions(old(fragment).atoms@),
            params@,
            upper_atom_id,
        ),
{
    assert(fragment.atoms@ =~= crate::lattice::placed(fragment.atoms@, positions(fragment.atoms@)));
    let coord_atom_ids = params.coord_atom_ids();
    assert(valid_id(coord_atom_ids@[0], fragment.atoms@.len()));
    let coord_z = position_of(fragment, coord_atom_ids[0]).z;
    let upper_z = position_of(fragment, upper_atom_id).z;
    if less::<K>(upper_z, coord_z) {
        let half_turn = axis_angle::<K>(x_axis::<K>(), pi::<K>());
        fragment.rotate::<K>(&half_turn);
        proof {
            lemma_rigid_step::<K>(
                Motion::Turn(half_turn),
                positions(old(fragment).atoms@),
                positions(fragment.atoms@),
            );
        }
    } else {
        proof {
            lemma_rigid_still::<K>(positions(fragment.atoms@));
        }
    }
}

/// The roll: lays the fragment's plane at the given angle about the stem,
/// where a roll is due, and flips the fragment upright straight after.
///
/// Fails with `MissingPlane` exactly where a roll is due and no plane atoms
/// are given; otherwise only where the kernel finds the plane atoms on one
/// line.
pub fn roll_ads<K: Kernel, M>(
    fragment: &mut LatticeModel<K::Scalar, M>,
    params: &AdsParams<K::Scalar>,
    upper_atom_id: u32,
) -> (r: Result<(), AssembleError>)
    requires
        params@.ids_valid(old(fragment).atoms@.len()),
        valid_id(upper_atom_id, old(fragment).atoms@.len()),
    ensures
        final(fragment).moved_from(old(fragment)),
        rigidly_moved::<K>(positions(old(fragment).atoms@), positions(final(fragment).atoms@)),
        roll_due(params@, old(fragment).atoms@.len()) && params@.plane_atom_ids is None ==> r
            == Err::<(), AssembleError>(AssembleError::MissingPlane),
        r matches Err(e) ==> e == AssembleError::MissingPlane || e
            == AssembleError::CollinearPoints,
        r matches Err(e) && e == AssembleError::MissingPlane ==> roll_due(
            params@,
            old(fragment).atoms@.len(),
        ) && params@.plane_atom_ids is None,
        !roll_due(params@, old(fragment).atoms@.len()) ==> r is Ok,
        functional::<K>() ==> match rolled_of::<K>(positions(old(fragment).atoms@), params@) {
            Ok(places) => r is Ok && positions(final(fragment).atoms@) == flipped_of::<K>(
                places,
                params@,
                upper_atom_id,
            ),
            Err(e) => r == Err::<(), AssembleError>(e),
        },
{
    assert(fragment.atoms@ =~= crate::lattice::placed(fragment.atoms@, positions(fragment.atoms@)));
    let ghost before = *fragment;
    proof {
        lemma_rigid_still::<K>(positions(fragment.atoms@));
    }
    if fragment.atoms.len() > 2 {
        if let Some(plane_angle) = params.adsorbate_plane_angle() {
            match get_plane_normal::<K, M>(fragment, params) {
                Ok(Some(n)) => {
                    let tilt = to_radians::<K>(difference::<K>(from_int::<K>(90), plane_angle));
                    let target = Vector3 {
                        x: from_int::<K>(0),
                        y: cos::<K>(tilt),
                        z: sin::<K>(tilt),
                    };
                    let q = turn_onto::<K>(n, target, x_axis::<K>());
                    fragment.rotate::<K>(&q);
                    proof {
                        lemma_rigid_step::<K>(
                            Motion::Turn(q),
                            positions(before.atoms@),
                            positions(fragment.atoms@),
                        );
                    }
                },
                Ok(None) => {
                    return Err(AssembleError::MissingPlane);
                },
                Err(e) => {
                    return Err(e);
                },
            }
        }
    }
    let ghost rolled = *fragment;
    flip_up::<K, M>(fragment, params, upper_atom_id);
    proof {
        lemma_moved_twice(before, rolled, *fragment);
        lemma_rigid_twice::<K>(
            positions(before.atoms@),
            positions(rolled.atoms@),
            positions(fragment.atoms@),
        );
    }
    Ok(())
}

/// The pitch: sets the angle between the stem and the bonding direction.
///
/// Fails with `MissingStemCoordAngle` exactly where no such angle is given;
/// otherwise only where the kernel finds the plane atoms of a virtual stem
/// on one line.
pub fn pitch_ads<K: Kernel, M>(
    fragment: &mut LatticeModel<K::Scalar, M>,
    params: &AdsParams<K::Scalar>,
) -> (r: Result<(), AssembleError>)
    requires
        params@.ids_valid(old(fragment).atoms@.len()),
    ensures
        final(fragment).moved_from(old(fragment)),
        rigidly_moved::<K>(positions(old(fragment).atoms@), positions(final(fragment).atoms@)),
        params@.stem_coord_angle is None <==> r == Err::<(), AssembleError>(
            AssembleError::MissingStemCoordAngle,
        ),
        r matches Err(e) ==> e == AssembleError::MissingStemCoordAngle || e
            == AssembleError::CollinearPoints,
        params@.stem_coord_angle is Some && !params@.stem_is_virtual() ==> r is Ok,
        functional::<K>() ==> match pitched_of::<K>(positions(old(fragment).atoms@), params@) {
            Ok(places) => r is Ok && positions(final(fragment).atoms@) == places,
            Err(e) => r == Err::<(), AssembleError>(e),
        },
{
    assert(fragment.atoms@ =~= crate::lattice::placed(fragment.atoms@, positions(fragment.atoms@)));
    proof {
        lemma_rigid_still::<K>(positions(fragment.atoms@));
    }
    let stem_coord_angle = match params.stem_coord_angle() {
        Some(a) => a,
        None => {
            return Err(AssembleError::MissingStemCoordAngle);
        },
    };
    let resolved = match get_stem_vector::<K, M>(fragment, params) {
        Ok(s) => s.into_vector(),
        Err(e) => {
            return Err(e);
        },
    };
    let coord_atom_ids = params.coord_atom_ids();
    assert(valid_id(coord_atom_ids@[0], fragment.atoms@.len()));
    let to_coord = displacement::<K>(position_of(fragment, coord_atom_ids[0]), origin::<K>());
    let away = less::<K>(dot::<K>(to_coord, resolved), from_int::<K>(0));
    let stem = if away {
        reversed::<K>(resolved)
    } else {
        resolved
    };
    let sign = if away {
        from_int::<K>(-1)
    } else {
        from_int::<K>(1)
    };
    let stem_xz = normalize::<K>(Vector3 { x: stem.x, y: from_int::<K>(0), z: stem.z });
    let tilt = to_radians::<K>(stem_coord_angle);
    let target = Vector3 {
        x: product::<K>(sign, cos::<K>(tilt)),
        y: from_int::<K>(0),
        z: product::<K>(from_int::<K>(-1), sin::<K>(tilt)),
    };
    if apart::<K>(dot::<K>(stem_xz, target)) {
        let q = axis_angle::<K>(cross::<K>(stem, target), angle::<K>(stem_xz, target));
        fragment.rotate::<K>(&q);
        proof {
            lemma_rigid_step::<K>(
                Motion::Turn(q),
                positions(old(fragment).atoms@),
                positions(fragment.atoms@),
            );
        }
    }
    Ok(())
}

/// Whether two unit directions with the given cosine between them are not
/// parallel within the tolerance of one thousandth.
pub fn apart<K: Kernel>(cosine: K::Scalar) -> (r: bool)
    ensures
        functional::<K>() ==> r == apart_of::<K>(cosine),
{
    let tolerance = quotient::<K>(from_int::<K>(1), from_int::<K>(1000));
    less::<K>(tolerance, abs::<K>(difference::<K>(abs::<K>(cosine), from_int::<K>(1))))
}

/// The yaw: turns the fragment about the vertical toward the given
/// direction. Does nothing where no direction is given.
///
/// Fails only where the kernel finds the plane atoms of a virtual stem on
/// one line.
pub fn yaw_ads<K: Kernel, M>(
    fragment: &mut LatticeModel<K::Scalar, M>,
    params: &AdsParams<K::Scalar>,
) -> (r: Result<(), AssembleError>)
    requires
        params@.ids_valid(old(fragment).atoms@.len()),
    ensures
        final(fragment).moved_from(old(fragment)),
        rigidly_moved::<K>(positions(old(fragment).atoms@), positions(final(fragment).atoms@)),
        r matches Err(e) ==> e == AssembleError::CollinearPoints,
        params@.ads_direction is None ==> r is Ok && *final(fragment) == *old(fragment),
        !params@.stem_is_virtual() ==> r is Ok,
        functional::<K>() ==> match yawed_of::<K>(positions(old(fragment).atoms@), params@) {
            Ok(places) => r is Ok && positions(final(fragment).atoms@) == places,
            Err(e) => r == Err::<(), AssembleError>(e),
        },
{
    assert(fragment.atoms@ =~= crate::lattice::placed(fragment.atoms@, positions(fragment.atoms@)));
    proof {
        lemma_rigid_still::<K>(positions(fragment.atoms@));
    }
    let direction = match params.ads_direction() {
        Some(d) => *d,
        None => {
            return Ok(());
        },
    };
    let resolved = match get_stem_vector::<K, M>(fragment, params) {
        Ok(s) => s,
        Err(e) => {
            return Err(e);
        },
    };
    let stem = resolved.into_vector();
    let stem_xy = Vector3 { x: stem.x, y: stem.y, z: from_int::<K>(0) };
    let dir_xy = Vector3 { x: direction.x, y: direction.y, z: from_int::<K>(0) };
    if apart::<K>(dot::<K>(normalize::<K>(stem_xy), normalize::<K>(dir_xy))) {
        let turn = angle::<K>(stem_xy, dir_xy);
        let axis = match resolved {
            StemType::RealStem(_) => cross::<K>(stem_xy, dir_xy),
            StemType::VirtualStem(_) => z_axis::<K>(),
        };
        let q = axis_angle::<K>(axis, turn);
        fragment.rotate::<K>(&q);
        proof {
            lemma_rigid_step::<K>(
                Motion::Turn(q),
                positions(old(fragment).atoms@),
                positions(fragment.atoms@),
            );
        }
    }
    Ok(())
}

/// Decides, before anything is computed, what the parameters lack for the
/// orientation of this fragment with the marker atom `upper_atom_id`.
pub fn orientation_config_check<S: Copy, M>(
    fragment: &LatticeModel<S, M>,
    params: &AdsParams<S>,
    upper_atom_id: u32,
) -> (r: Option<AssembleError>)
    ensures
        r == orientation_config_error(params@, fragment.atoms@.len(), upper_atom_id),
{
    let n = fragment.atoms.len();
    if n <= 1 {
        None
    } else if upper_atom_id == 0 || (upper_atom_id - 1) as usize >= n {
        Some(AssembleError::InvalidIndex)
    } else if n > 2 && params.adsorbate_plane_angle().is_some() && params.plane_atom_ids().is_none() {
        Some(AssembleError::MissingPlane)
    } else if params.stem_coord_angle().is_none() {
        Some(AssembleError::MissingStemCoordAngle)
    } else {
        None
    }
}

/// The run that ended with `r` and the places `after` went as the model
/// `model` says: it succeeded with exactly the places of the model, or failed
/// with exactly its error.
pub open spec fn follows<S>(
    model: Result<Seq<Point3<S>>, AssembleError>,
    after: Seq<Point3<S>>,
    r: Result<(), AssembleError>,
) -> bool {
    match model {
        Ok(places) => r is Ok && after == places,
        Err(e) => r == Err::<(), AssembleError>(e),
    }
}

/// What every run of the orientation stage guarantees, where it turned the
/// fragment `before` into `after` and ended with `r`.
///
/// * The fragment holds the same atoms, moved at most, and moved as one
///   body: by rotations and translations of the kernel alone, each applied to
///   every atom alike.
/// * What the parameters lack is reported, and the fragment left alone.
/// * No other failure is reported than plane atoms on one line or a
///   coordinate that is not finite.
/// * With a functional kernel the run follows [`calibrated_of`].
pub open spec fn oriented<K: Kernel, M>(
    before: LatticeModel<K::Scalar, M>,
    params: ParamsView<K::Scalar>,
    upper_atom_id: u32,
    after: LatticeModel<K::Scalar, M>,
    r: Result<(), AssembleError>,
) -> bool {
    &&& after.moved_from(&before)
    &&& rigidly_moved::<K>(positions(before.atoms@), positions(after.atoms@))
    &&& orientation_config_error(params, before.atoms@.len(), upper_atom_id) matches Some(e) ==> r
        == Err::<(), AssembleError>(e) && after == before
    &&& orientation_config_error(params, before.atoms@.len(), upper_atom_id) is None ==> (r matches Err(
        e,
    ) ==> e == AssembleError::CollinearPoints || e == AssembleError::InvalidCoord)
    &&& functional::<K>() ==> follows(
        calibrated_of::<K>(positions(before.atoms@), params, upper_atom_id),
        positions(after.atoms@),
        r,
    )
}

/// The whole orientation stage. The fragment is aligned with the x axis and
/// centered on the origin; where it has more than one atom it is then
/// rolled, flipped upright, pitched and yawed, in this order, and its
/// coordinates are checked after each of the three.
///
/// Whatever the outcome, the fragment holds the same atoms, moved at most.
/// What the parameters lack is reported before anything is computed. Beyond
/// that the stage fails only where the kernel finds the plane atoms on one
/// line or a coordinate that is not finite.
pub fn calibrate<K: Kernel, M>(
    fragment: &mut LatticeModel<K::Scalar, M>,
    params: &AdsParams<K::Scalar>,
    upper_atom_id: u32,
) -> (r: Result<(), AssembleError>)
    requires
        params@.ids_valid(old(fragment).atoms@.len()),
    ensures
        oriented::<K, M>(*old(fragment), params@, upper_atom_id, *final(fragment), r),
{
    assert(fragment.atoms@ =~= crate::lattice::placed(fragment.atoms@, positions(fragment.atoms@)));
    let ghost start = *fragment;
    proof {
        lemma_rigid_still::<K>(positions(fragment.atoms@));
    }
    if let Some(e) = orientation_config_check(fragment, params, upper_atom_id) {
        return Err(e);
    }
    let n = fragment.atoms.len();
    let coord_atom_ids = params.coord_atom_ids();
    assert(valid_id(coord_atom_ids@[0], n as nat));
    match align_stem::<K, M>(fragment, params) {
        Ok(()) => {},
        Err(e) => {
            return Err(e);
        },
    }
    let ghost aligned = *fragment;
    move_to_origin::<K, M>(fragment, params);
    let ghost centered = *fragment;
    proof {
        lemma_moved_twice(start, aligned, centered);
        lemma_rigid_twice::<K>(
            positions(start.atoms@),
            positions(aligned.atoms@),
            positions(centered.atoms@),
        );
    }
    if n == 1 {
        return Ok(());
    }
    let rolled = roll_ads::<K, M>(fragment, params, upper_atom_id);
    let ghost adjusted = *fragment;
    proof {
        lemma_moved_twice(start, centered, adjusted);
        lemma_rigid_twice::<K>(
            positions(start.atoms@),
            positions(centered.atoms@),
            positions(adjusted.atoms@),
        );
    }
    match rolled {
        Ok(()) => {},
        Err(e) => {
            return Err(e);
        },
    }
    if check_coordinate::<K, M>(fragment).is_err() {
        return Err(AssembleError::InvalidCoord);
    }
    let pitched = pitch_ads::<K, M>(fragment, params);
    let ghost after_pitch = *fragment;
    proof {
        lemma_moved_twice(start, adjusted, after_pitch);
        lemma_rigid_twice::<K>(
            positions(start.atoms@),
            positions(adjusted.atoms@),
            positions(after_pitch.atoms@),
        );
    }
    match pitched {
        Ok(()) => {},
        Err(e) => {
            return Err(e);
        },
    }
    if check_coordinate::<K, M>(fragment).is_err() {
        return Err(AssembleError::InvalidCoord);
    }
    let yawed = yaw_ads::<K, M>(fragment, params);
    proof {
        lemma_moved_twice(start, after_pitch, *fragment);
        lemma_rigid_twice::<K>(
            positions(start.atoms@),
            positions(after_pitch.atoms@),
            positions(fragment.atoms@),
        );
    }
    match yawed {
        Ok(()) => {},
        Err(e) => {
            return Err(e);
        },
    }
    if check_coordinate::<K, M>(fragment).is_err() {
        return Err(AssembleError::InvalidCoord);
    }
    Ok(())
}

} // verus!
