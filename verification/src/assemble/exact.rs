//! What the pipeline achieves on a kernel whose geometry is exact.
//!
//! Each law here names what it asks of the kernel. Arithmetic that rounds
//! meets these demands up to its rounding only, and the conclusions then
//! hold up to that rounding too.
use vstd::prelude::*;
use crate::assemble::orientation::{aligned_of, oriented};
use crate::assemble::params::ParamsView;
use crate::assemble::placement::{
    in_band_of, lifted_of, multiple_coord_of, points_at, positioned, single_coord_of,
    single_target_of,
};
use crate::assemble::resolver::{at, coord_stem_of, stem_of, StemType};
use crate::assemble::rigid::{moved_by_one, moved_through, rigidly_moved, Motion};
use crate::error::AssembleError;
use crate::kernel::{
    angle_of, cross_of, displacement_of, dot_of, equal_of, functional, normalize_of, pi_of,
    product_of, rotate_of, rotation_between_of, scale_of, to_degrees_of, translate_of, x_axis_of,
    zero_of, Kernel, Point3, Rotation, Vector3,
};
use crate::lattice::{positions, translated_of, valid_id, LatticeModel};
use crate::math_helper::{centroid_of, plane_normal_of};

verus! {

/// The square of the distance between `a` and `b`: the dot product of their
/// displacement with itself.
pub open spec fn distance_squared_of<K: Kernel>(
    a: Point3<K::Scalar>,
    b: Point3<K::Scalar>,
) -> K::Scalar {
    let d = displacement_of::<K>(a, b);
    dot_of::<K>(d, d)
}

/// The motions of the kernel keep distances: two points that are turned by
/// one rotation, or moved by one translation, are as far apart as before.
pub open spec fn keeps_distances<K: Kernel>() -> bool {
    &&& forall|q: Rotation<K::Scalar>, a: Point3<K::Scalar>, b: Point3<K::Scalar>|
        #[trigger] distance_squared_of::<K>(rotate_of::<K>(q, a), rotate_of::<K>(q, b))
            == distance_squared_of::<K>(a, b)
    &&& forall|v: Vector3<K::Scalar>, a: Point3<K::Scalar>, b: Point3<K::Scalar>|
        #[trigger] distance_squared_of::<K>(translate_of::<K>(a, v), translate_of::<K>(b, v))
            == distance_squared_of::<K>(a, b)
}

/// A point that is moved by its displacement to a target arrives there.
pub open spec fn reaches_targets<K: Kernel>() -> bool {
    forall|p: Point3<K::Scalar>, t: Point3<K::Scalar>|
        #[trigger] translate_of::<K>(p, displacement_of::<K>(t, p)) == t
}

/// The centroid of points moves with the points: the centroid of points
/// that are all moved by `v` is their centroid, moved by `v`.
pub open spec fn centroids_move_along<K: Kernel>() -> bool {
    forall|points: Seq<Point3<K::Scalar>>, v: Vector3<K::Scalar>|
        points.len() > 0 ==> #[trigger] centroid_of::<K>(translated_of::<K>(points, v))
            == translate_of::<K>(centroid_of::<K>(points), v)
}

/// Offsets have their length: the point at `length` from `p` along a
/// direction that is not the zero vector, and the point lifted by `length`
/// above `p`, are both at the distance `length` from `p`.
pub open spec fn measures_offsets<K: Kernel>() -> bool {
    &&& forall|p: Point3<K::Scalar>, direction: Vector3<K::Scalar>, length: K::Scalar|
        dot_of::<K>(direction, direction) != zero_of::<K>() ==> distance_squared_of::<K>(
            #[trigger] translate_of::<K>(p, scale_of::<K>(normalize_of::<K>(direction), length)),
            p,
        ) == product_of::<K>(length, length)
    &&& forall|p: Point3<K::Scalar>, length: K::Scalar|
        distance_squared_of::<K>(#[trigger] lifted_of::<K>(p, length), p) == product_of::<K>(
            length,
            length,
        )
}

/// The smallest rotation from the direction of a displacement to another
/// direction, applied to both ends of the displacement, lays it at the angle
/// zero to that direction.
pub open spec fn rotations_align<K: Kernel>() -> bool {
    forall|a: Point3<K::Scalar>, b: Point3<K::Scalar>, onto: Vector3<K::Scalar>|
        (#[trigger] rotation_between_of::<K>(displacement_of::<K>(b, a), onto)) matches Some(q)
            ==> angle_of::<K>(
            displacement_of::<K>(rotate_of::<K>(q, b), rotate_of::<K>(q, a)),
            onto,
        ) == zero_of::<K>()
}

/// The vector without length.
pub open spec fn zero_vector_of<K: Kernel>() -> Vector3<K::Scalar> {
    Vector3 { x: zero_of::<K>(), y: zero_of::<K>(), z: zero_of::<K>() }
}

/// The kernel tells lines: two vectors whose cross product is the zero
/// vector are at an angle that equals zero or a half turn.
pub open spec fn tells_lines<K: Kernel>() -> bool {
    forall|a: Vector3<K::Scalar>, b: Vector3<K::Scalar>|
        #[trigger] cross_of::<K>(a, b) == zero_vector_of::<K>() ==> equal_of::<K>(
            angle_of::<K>(a, b),
            pi_of::<K>(),
        ) || equal_of::<K>(angle_of::<K>(a, b), zero_of::<K>())
}

/// No plane is handed the zero vector for its normal. On a kernel that
/// tells lines, three points either have a normal that is not the zero
/// vector, or are refused as lying on one line.
pub proof fn lemma_plane_normal_is_never_zero<K: Kernel>(
    point_1: Point3<K::Scalar>,
    point_2: Point3<K::Scalar>,
    point_3: Point3<K::Scalar>,
)
    requires
        tells_lines::<K>(),
    ensures
        plane_normal_of::<K>(point_1, point_2, point_3) matches Ok(n) ==> n != zero_vector_of::<K>(),
{
}

/// One motion keeps the distance between two of the places it moves.
proof fn lemma_one_motion_keeps_distances<K: Kernel>(
    motion: Motion<K::Scalar>,
    before: Seq<Point3<K::Scalar>>,
    after: Seq<Point3<K::Scalar>>,
    i: int,
    j: int,
)
    requires
        functional::<K>(),
        keeps_distances::<K>(),
        moved_by_one::<K>(motion, before, after),
        0 <= i < before.len(),
        0 <= j < before.len(),
    ensures
        after.len() == before.len(),
        distance_squared_of::<K>(after[i], after[j]) == distance_squared_of::<K>(
            before[i],
            before[j],
        ),
{
    reveal(functional);
    match motion {
        Motion::Turn(q) => {
            assert(call_ensures(K::rotate, (q, before[i]), after[i]));
            assert(call_ensures(K::rotate, (q, before[j]), after[j]));
            assert(after[i] == rotate_of::<K>(q, before[i]));
            assert(after[j] == rotate_of::<K>(q, before[j]));
            assert(distance_squared_of::<K>(
                rotate_of::<K>(q, before[i]),
                rotate_of::<K>(q, before[j]),
            ) == distance_squared_of::<K>(before[i], before[j]));
        },
        Motion::Shift(v) => {
            assert(call_ensures(K::translate, (before[i], v), after[i]));
            assert(call_ensures(K::translate, (before[j], v), after[j]));
            assert(after[i] == translate_of::<K>(before[i], v));
            assert(after[j] == translate_of::<K>(before[j], v));
            assert(distance_squared_of::<K>(
                translate_of::<K>(before[i], v),
                translate_of::<K>(before[j], v),
            ) == distance_squared_of::<K>(before[i], before[j]));
        },
    }
}

/// The first `k` of a sequence of motions keep the distance between two of
/// the places they move.
proof fn lemma_motions_keep_distances<K: Kernel>(
    stations: Seq<Seq<Point3<K::Scalar>>>,
    motions: Seq<Motion<K::Scalar>>,
    k: int,
    i: int,
    j: int,
)
    requires
        functional::<K>(),
        keeps_distances::<K>(),
        moved_through::<K>(stations, motions),
        0 <= k <= motions.len(),
        0 <= i < stations[0].len(),
        0 <= j < stations[0].len(),
    ensures
        stations[k].len() == stations[0].len(),
        distance_squared_of::<K>(stations[k][i], stations[k][j]) == distance_squared_of::<K>(
            stations[0][i],
            stations[0][j],
        ),
    decreases k,
{
    if k > 0 {
        lemma_motions_keep_distances::<K>(stations, motions, k - 1, i, j);
        assert(moved_by_one::<K>(motions[k - 1], stations[k - 1], stations[k - 1 + 1]));
        lemma_one_motion_keeps_distances::<K>(motions[k - 1], stations[k - 1], stations[k], i, j);
    }
}

/// Rigid motion keeps every distance. On a kernel whose rotations and
/// translations keep distances, places that have moved rigidly are as far
/// from each other as before: the `i`-th from the `j`-th, for every `i` and
/// `j`.
pub proof fn lemma_rigid_motion_keeps_distances<K: Kernel>(
    before: Seq<Point3<K::Scalar>>,
    after: Seq<Point3<K::Scalar>>,
    i: int,
    j: int,
)
    requires
        functional::<K>(),
        keeps_distances::<K>(),
        rigidly_moved::<K>(before, after),
        0 <= i < before.len(),
        0 <= j < before.len(),
    ensures
        after.len() == before.len(),
        distance_squared_of::<K>(after[i], after[j]) == distance_squared_of::<K>(
            before[i],
            before[j],
        ),
{
    let (stations, motions) = choose|
        stations: Seq<Seq<Point3<K::Scalar>>>,
        motions: Seq<Motion<K::Scalar>>,
    |
        #[trigger] moved_through::<K>(stations, motions) && stations.first() == before
            && stations.last() == after;
    lemma_motions_keep_distances::<K>(stations, motions, motions.len() as int, i, j);
}

/// The orientation stage keeps the distance between every two atoms of the
/// fragment, on a kernel whose rotations and translations keep distances,
/// whatever the stage ends with.
pub proof fn lemma_orientation_keeps_distances<K: Kernel, M>(
    before: LatticeModel<K::Scalar, M>,
    params: ParamsView<K::Scalar>,
    upper_atom_id: u32,
    after: LatticeModel<K::Scalar, M>,
    r: Result<(), AssembleError>,
    first: u32,
    second: u32,
)
    requires
        functional::<K>(),
        keeps_distances::<K>(),
        oriented::<K, M>(before, params, upper_atom_id, after, r),
        valid_id(first, before.atoms@.len()),
        valid_id(second, before.atoms@.len()),
    ensures
        distance_squared_of::<K>(
            at(positions(after.atoms@), first),
            at(positions(after.atoms@), second),
        ) == distance_squared_of::<K>(
            at(positions(before.atoms@), first),
            at(positions(before.atoms@), second),
        ),
{
    lemma_rigid_motion_keeps_distances::<K>(
        positions(before.atoms@),
        positions(after.atoms@),
        first - 1,
        second - 1,
    );
}

/// The placement stage keeps the distance between every two atoms of the
/// fragment, on a kernel whose rotations and translations keep distances,
/// whatever the stage ends with.
pub proof fn lemma_placement_keeps_distances<K: Kernel, M>(
    before: LatticeModel<K::Scalar, M>,
    params: ParamsView<K::Scalar>,
    location: Point3<K::Scalar>,
    after: LatticeModel<K::Scalar, M>,
    r: Result<(), AssembleError>,
    first: u32,
    second: u32,
)
    requires
        functional::<K>(),
        keeps_distances::<K>(),
        positioned::<K, M>(before, params, location, after, r),
        valid_id(first, before.atoms@.len()),
        valid_id(second, before.atoms@.len()),
    ensures
        distance_squared_of::<K>(
            at(positions(after.atoms@), first),
            at(positions(after.atoms@), second),
        ) == distance_squared_of::<K>(
            at(positions(before.atoms@), first),
            at(positions(before.atoms@), second),
        ),
{
    lemma_rigid_motion_keeps_distances::<K>(
        positions(before.atoms@),
        positions(after.atoms@),
        first - 1,
        second - 1,
    );
}

/// The initial alignment lays a real stem along the x axis. Where the
/// kernel finds the smallest rotation from the stem to the x axis, and its
/// rotations align, the stem of the aligned fragment is at the angle zero to
/// the x axis.
pub proof fn lemma_alignment_lays_the_stem_along_x<K: Kernel>(
    places: Seq<Point3<K::Scalar>>,
    params: ParamsView<K::Scalar>,
)
    requires
        rotations_align::<K>(),
        params.ids_valid(places.len()),
        params.stem_atom_ids is Some,
        !params.stem_is_virtual(),
        stem_of::<K>(places, params) matches Ok(stem) && rotation_between_of::<K>(
            stem.vector(),
            x_axis_of::<K>(),
        ) is Some,
    ensures
        aligned_of::<K>(places, params) matches Ok(after) && stem_of::<K>(after, params) matches Ok(
            StemType::RealStem(v),
        ) && angle_of::<K>(v, x_axis_of::<K>()) == zero_of::<K>(),
{
    let stem = params.stem_atom_ids->Some_0;
    let a = at(places, stem.0);
    let b = at(places, stem.1);
    let q = rotation_between_of::<K>(displacement_of::<K>(b, a), x_axis_of::<K>())->Some_0;
    let after = aligned_of::<K>(places, params)->Ok_0;
    assert(at(after, stem.0) == rotate_of::<K>(q, a));
    assert(at(after, stem.1) == rotate_of::<K>(q, b));
}

/// A single coordination atom is placed on its target. On a kernel whose
/// translations reach their targets, the placement by one coordination atom
/// brings that atom to the point that [`single_target_of`] gives for its
/// bonding direction: at the bond length from the location along that
/// direction, or straight above the location at the bond length.
pub proof fn lemma_single_coordination_atom_reaches_its_target<K: Kernel>(
    places: Seq<Point3<K::Scalar>>,
    params: ParamsView<K::Scalar>,
    location: Point3<K::Scalar>,
)
    requires
        reaches_targets::<K>(),
        params.wf(),
        params.ids_valid(places.len()),
    ensures
        single_coord_of::<K>(places, params, location) matches Ok(after) ==> coord_stem_of::<K>(
            places,
            params,
        ) matches Ok(direction) && at(after, params.first_coord_id()) == single_target_of::<K>(
            direction,
            location,
            params.bond_length,
        ),
{
    assert(valid_id(params.coord_atom_ids[0], places.len()));
}

/// A single coordination atom is placed at the bond length. On a kernel
/// whose translations reach their targets and whose offsets have their
/// length, the placement by one coordination atom brings that atom to the
/// distance `bond_length` from the location: straight above it, or along a
/// bonding direction that is not the zero vector.
pub proof fn lemma_single_coordination_atom_keeps_the_bond_length<K: Kernel>(
    places: Seq<Point3<K::Scalar>>,
    params: ParamsView<K::Scalar>,
    location: Point3<K::Scalar>,
)
    requires
        reaches_targets::<K>(),
        measures_offsets::<K>(),
        params.wf(),
        params.ids_valid(places.len()),
    ensures
        single_coord_of::<K>(places, params, location) matches Ok(after) ==> coord_stem_of::<K>(
            places,
            params,
        ) matches Ok(direction) && ({
            let vertical = Vector3 {
                x: zero_of::<K>(),
                y: zero_of::<K>(),
                z: params.bond_length,
            };
            in_band_of::<K>(to_degrees_of::<K>(angle_of::<K>(direction, vertical))) ==> dot_of::<K>(
                direction,
                direction,
            ) != zero_of::<K>()
        } ==> distance_squared_of::<K>(at(after, params.first_coord_id()), location)
            == product_of::<K>(params.bond_length, params.bond_length)),
{
    lemma_single_coordination_atom_reaches_its_target::<K>(places, params, location);
}

/// Several coordination atoms are placed at the bond length. On a kernel
/// whose translations reach their targets and carry centroids along, and
/// whose offsets have their length, the centroid of the coordination atoms
/// of the placed fragment is at the distance `bond_length` from the
/// location.
pub proof fn lemma_coordination_centroid_keeps_the_bond_length<K: Kernel>(
    places: Seq<Point3<K::Scalar>>,
    params: ParamsView<K::Scalar>,
    location: Point3<K::Scalar>,
)
    requires
        reaches_targets::<K>(),
        centroids_move_along::<K>(),
        measures_offsets::<K>(),
        params.wf(),
        params.ids_valid(places.len()),
    ensures
        distance_squared_of::<K>(
            centroid_of::<K>(
                points_at(multiple_coord_of::<K>(places, params, location), params.coord_atom_ids),
            ),
            location,
        ) == product_of::<K>(params.bond_length, params.bond_length),
{
    lemma_coordination_centroid_reaches_its_target::<K>(places, params, location);
}

/// Several coordination atoms are placed by their centroid. On a kernel
/// whose translations reach their targets and carry centroids along, the
/// centroid of the coordination atoms of the placed fragment lies straight
/// above the location, at the bond length.
pub proof fn lemma_coordination_centroid_reaches_its_target<K: Kernel>(
    places: Seq<Point3<K::Scalar>>,
    params: ParamsView<K::Scalar>,
    location: Point3<K::Scalar>,
)
    requires
        reaches_targets::<K>(),
        centroids_move_along::<K>(),
        params.wf(),
        params.ids_valid(places.len()),
    ensures
        centroid_of::<K>(
            points_at(multiple_coord_of::<K>(places, params, location), params.coord_atom_ids),
        ) == lifted_of::<K>(location, params.bond_length),
{
    let ids = params.coord_atom_ids;
    let points = points_at(places, ids);
    let target = lifted_of::<K>(location, params.bond_length);
    let v = displacement_of::<K>(target, centroid_of::<K>(points));
    let after = multiple_coord_of::<K>(places, params, location);
    assert(after == translated_of::<K>(places, v));
    assert forall|k: int| 0 <= k < ids.len() implies #[trigger] points_at(after, ids)[k]
        == translated_of::<K>(points, v)[k] by {
        assert(valid_id(ids[k], places.len()));
    }
    assert(points_at(after, ids) =~= translated_of::<K>(points, v));
    assert(centroid_of::<K>(translated_of::<K>(points, v)) == translate_of::<K>(
        centroid_of::<K>(points),
        v,
    ));
}

} // verus!
