//! The reference vectors of a fragment: its stem, the normal of its plane,
//! and the direction that a single coordination atom bonds along.
use vstd::prelude::*;
use crate::assemble::params::{AdsParams, ParamsView};
use crate::error::AssembleError;
use crate::kernel::{
    displacement, displacement_of, from_int, functional, less, less_of, reversed, reversed_of,
    z_axis, z_axis_of, zero_of, Kernel, Point3, Vector3,
};
use crate::lattice::{positions, valid_id, LatticeModel};
use crate::math_helper::{
    line_plane_intersect, line_plane_intersect_of, perpendicular_vec_of,
    perpendicular_vec_through_a_point, plane_normal, plane_normal_of,
};

verus! {

/// The stem of a fragment, and how it was come by.
#[derive(Clone, Copy, Debug)]
pub enum StemType<S> {
    /// The vector from the first stem atom to the second.
    RealStem(Vector3<S>),
    /// A vector derived from one anchor atom and the fragment's plane, or the
    /// vertical where the fragment has no stem atoms at all.
    VirtualStem(Vector3<S>),
}

impl<S: Copy> StemType<S> {
    /// The stem vector, whichever way it was come by.
    pub open spec fn vector(self) -> Vector3<S> {
        match self {
            StemType::RealStem(v) => v,
            StemType::VirtualStem(v) => v,
        }
    }

    /// The stem vector, whichever way it was come by.
    pub fn into_vector(self) -> (v: Vector3<S>)
        ensures
            v == self.vector(),
    {
        match self {
            StemType::RealStem(v) => v,
            StemType::VirtualStem(v) => v,
        }
    }
}

/// The place of the atom that goes by `atom_id`.
pub open spec fn at<S>(places: Seq<Point3<S>>, atom_id: u32) -> Point3<S> {
    places[atom_id - 1]
}

/// `v`, or `v` reversed where it points downward, so that the result never
/// does.
pub open spec fn upward_of<K: Kernel>(v: Vector3<K::Scalar>) -> Vector3<K::Scalar> {
    if less_of::<K>(v.z, zero_of::<K>()) {
        reversed_of::<K>(v)
    } else {
        v
    }
}

/// The normal of the plane through the three atoms `plane`, or the failure
/// where they lie on one line.
pub open spec fn plane_normal_at<K: Kernel>(
    places: Seq<Point3<K::Scalar>>,
    plane: (u32, u32, u32),
) -> Result<Vector3<K::Scalar>, AssembleError> {
    match plane_normal_of::<K>(at(places, plane.0), at(places, plane.1), at(places, plane.2)) {
        Ok(n) => Ok(n),
        Err(_) => Err(AssembleError::CollinearPoints),
    }
}

/// The normal of the fragment's plane: none where no plane atoms are given.
pub open spec fn fragment_plane_normal_of<K: Kernel>(
    places: Seq<Point3<K::Scalar>>,
    params: ParamsView<K::Scalar>,
) -> Result<Option<Vector3<K::Scalar>>, AssembleError> {
    match params.plane_atom_ids {
        Some(plane) => match plane_normal_at::<K>(places, plane) {
            Ok(n) => Ok(Some(n)),
            Err(e) => Err(e),
        },
        None => Ok(None),
    }
}

/// The stem of the fragment.
///
/// * Two different stem atoms `a`, `b`: the real stem, from `a` to `b`.
/// * One stem atom given twice: a virtual stem. With `n` the normal of the
///   fragment's plane and `q` the first plane atom, it leads from the anchor
///   `a` to the point where the line through `a` along `n` meets the plane
///   through `q` with normal `n`.
/// * No stem atoms: the virtual stem along the z axis.
pub open spec fn stem_of<K: Kernel>(
    places: Seq<Point3<K::Scalar>>,
    params: ParamsView<K::Scalar>,
) -> Result<StemType<K::Scalar>, AssembleError> {
    match params.stem_atom_ids {
        Some(stem) => if stem.0 == stem.1 {
            match params.plane_atom_ids {
                Some(plane) => match plane_normal_at::<K>(places, plane) {
                    Ok(n) => {
                        let anchor = at(places, stem.0);
                        let hit = line_plane_intersect_of::<K>(anchor, at(places, plane.0), n, n);
                        Ok(StemType::VirtualStem(displacement_of::<K>(hit, anchor)))
                    },
                    Err(e) => Err(e),
                },
                None => Err(AssembleError::MissingPlane),
            }
        } else {
            Ok(StemType::RealStem(displacement_of::<K>(at(places, stem.1), at(places, stem.0))))
        },
        None => Ok(StemType::VirtualStem(z_axis_of::<K>())),
    }
}

/// The single coordination atom is none of the stem atoms, so that the
/// geometry decides whether it lies on the stem.
pub open spec fn coord_atom_off_stem<S>(params: ParamsView<S>) -> bool {
    &&& params.stem_atom_ids matches Some(stem)
    &&& params.coord_atom_ids.len() == 1
    &&& params.coord_atom_ids[0] != stem.0
    &&& params.coord_atom_ids[0] != stem.1
}

/// The vector to the single coordination atom from the foot of its
/// perpendicular on the stem line, where that atom is none of the stem atoms
/// and does not count as lying on the stem line either.
pub open spec fn off_stem_direction_of<K: Kernel>(
    places: Seq<Point3<K::Scalar>>,
    params: ParamsView<K::Scalar>,
) -> Option<Vector3<K::Scalar>> {
    if coord_atom_off_stem(params) {
        let stem = params.stem_atom_ids->Some_0;
        perpendicular_vec_of::<K>(
            at(places, params.coord_atom_ids[0]),
            at(places, stem.0),
            at(places, stem.1),
        )
    } else {
        None
    }
}

/// The direction that a single coordination atom bonds along, pointing
/// upward.
///
/// Where the coordination atom lies on the stem (it is one of the stem
/// atoms, it counts as lying on the stem line, or there are no stem atoms)
/// this is the stem. Where it lies off the stem, it is the vector from the
/// foot of its perpendicular on the stem line to the atom.
pub open spec fn coord_stem_of<K: Kernel>(
    places: Seq<Point3<K::Scalar>>,
    params: ParamsView<K::Scalar>,
) -> Result<Vector3<K::Scalar>, AssembleError> {
    match off_stem_direction_of::<K>(places, params) {
        Some(v) => Ok(upward_of::<K>(v)),
        None => match stem_of::<K>(places, params) {
            Ok(stem) => Ok(upward_of::<K>(stem.vector())),
            Err(e) => Err(e),
        },
    }
}

/// The place of the atom that goes by `atom_id`.
pub fn position_of<S: Copy, M>(fragment: &LatticeModel<S, M>, atom_id: u32) -> (p: Point3<S>)
    requires
        valid_id(atom_id, fragment.atoms@.len()),
    ensures
        p == at(positions(fragment.atoms@), atom_id),
{
    fragment.atoms[(atom_id - 1) as usize].xyz
}

/// Reverses `v` where it points downward.
pub fn upward<K: Kernel>(v: Vector3<K::Scalar>) -> (r: Vector3<K::Scalar>)
    ensures
        functional::<K>() ==> r == upward_of::<K>(v),
{
    if less::<K>(v.z, from_int::<K>(0)) {
        reversed::<K>(v)
    } else {
        v
    }
}

/// Computes the normal of the fragment's plane, where plane atoms are given.
/// Fails only where the kernel finds the plane atoms on one line.
pub fn get_plane_normal<K: Kernel, M>(
    fragment: &LatticeModel<K::Scalar, M>,
    params: &AdsParams<K::Scalar>,
) -> (normal: Result<Option<Vector3<K::Scalar>>, AssembleError>)
    requires
        params@.ids_valid(fragment.atoms@.len()),
    ensures
        functional::<K>() ==> normal == fragment_plane_normal_of::<K>(
            positions(fragment.atoms@),
            params@,
        ),
        normal matches Err(e) ==> e == AssembleError::CollinearPoints,
        params@.plane_atom_ids is None ==> normal matches Ok(None),
        params@.plane_atom_ids is Some ==> !(normal matches Ok(None)),
{
    match params.plane_atom_ids() {
        Some(plane) => {
            let first = position_of(fragment, plane[0]);
            let second = position_of(fragment, plane[1]);
            let third = position_of(fragment, plane[2]);
            match plane_normal::<K>(&first, &second, &third) {
                Ok(n) => Ok(Some(n)),
                Err(_) => Err(AssembleError::CollinearPoints),
            }
        },
        None => Ok(None),
    }
}

/// Resolves the stem of the fragment: real where two different stem atoms
/// are given, virtual otherwise. A real stem and the stem of a fragment
/// without stem atoms are always found; a virtual stem fails only where the
/// kernel finds the plane atoms on one line.
pub fn get_stem_vector<K: Kernel, M>(
    fragment: &LatticeModel<K::Scalar, M>,
    params: &AdsParams<K::Scalar>,
) -> (stem: Result<StemType<K::Scalar>, AssembleError>)
    requires
        params@.ids_valid(fragment.atoms@.len()),
    ensures
        functional::<K>() ==> stem == stem_of::<K>(positions(fragment.atoms@), params@),
        stem matches Err(e) ==> e == AssembleError::CollinearPoints,
        !params@.stem_is_virtual() ==> stem is Ok,
        stem matches Ok(s) ==> (s is RealStem <==> params@.stem_atom_ids is Some
            && !params@.stem_is_virtual()),
{
    match params.stem_atom_ids() {
        Some(stem) => {
            if stem[0] == stem[1] {
                match params.plane_atom_ids() {
                    Some(plane) => {
                        let first = position_of(fragment, plane[0]);
                        let second = position_of(fragment, plane[1]);
                        let third = position_of(fragment, plane[2]);
                        match plane_normal::<K>(&first, &second, &third) {
                            Ok(n) => {
                                let anchor = position_of(fragment, stem[0]);
                                let hit = line_plane_intersect::<K>(&anchor, &first, &n, &n);
                                Ok(StemType::VirtualStem(displacement::<K>(hit, anchor)))
                            },
                            Err(_) => Err(AssembleError::CollinearPoints),
                        }
                    },
                    None => {
                        // Sealed parameters with a virtual stem have a plane.
                        assert(false);
                        Err(AssembleError::MissingPlane)
                    },
                }
            } else {
                let a = position_of(fragment, stem[0]);
                let b = position_of(fragment, stem[1]);
                Ok(StemType::RealStem(displacement::<K>(b, a)))
            }
        },
        None => Ok(StemType::VirtualStem(z_axis::<K>())),
    }
}

/// Resolves the direction that a single coordination atom bonds along. The
/// result points upward. With a real stem it is always found; with a
/// virtual stem it fails only where the kernel finds the plane atoms on one
/// line.
pub fn get_coord_stem_vector<K: Kernel, M>(
    fragment: &LatticeModel<K::Scalar, M>,
    params: &AdsParams<K::Scalar>,
) -> (v: Result<Vector3<K::Scalar>, AssembleError>)
    requires
        params@.ids_valid(fragment.atoms@.len()),
    ensures
        functional::<K>() ==> v == coord_stem_of::<K>(positions(fragment.atoms@), params@),
        v matches Err(e) ==> e == AssembleError::CollinearPoints,
        !params@.stem_is_virtual() ==> v is Ok,
{
    let coord_atom_ids = params.coord_atom_ids();
    let off_stem = match params.stem_atom_ids() {
        Some(stem) => coord_atom_ids.len() == 1 && coord_atom_ids[0] != stem[0]
            && coord_atom_ids[0] != stem[1],
        None => false,
    };
    if off_stem {
        let stem = params.stem_atom_ids().unwrap();
        let coord = position_of(fragment, coord_atom_ids[0]);
        let a = position_of(fragment, stem[0]);
        let b = position_of(fragment, stem[1]);
        if let Some(v) = perpendicular_vec_through_a_point::<K>(&coord, &a, &b) {
            return Ok(upward::<K>(v));
        }
    }
    match get_stem_vector::<K, M>(fragment, params) {
        Ok(stem) => Ok(upward::<K>(stem.into_vector())),
        Err(e) => Err(e),
    }
}

} // verus!
