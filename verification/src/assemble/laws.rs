//! What holds of the pipeline as a whole.
use vstd::prelude::*;
use crate::assemble::orientation::{
    aligned_of, calibrated_of, centered_of, flipped_of, follows, headed_of, oriented, pitched_of,
    plane_adjusted_of, rolled_of, yawed_of,
};
use crate::assemble::params::ParamsView;
use crate::assemble::placement::{positioned, ready_of};
use crate::assemble::rigid::Motion;
use crate::error::AssembleError;
use crate::kernel::{functional, Kernel, Point3, Rotation, Vector3};
use crate::lattice::{placed, positions, rotated_of, translated_of, LatticeModel};

verus! {

/// The pipeline is deterministic. Take two runs on one fragment, with the
/// same parameters, marker atom and target location, on a kernel whose
/// operations are functions of their arguments. Then the orientation stage
/// ends the same way in both: with the same failure, or with every atom the
/// same and at the same place. And where it succeeds, so does the placement
/// stage.
pub proof fn lemma_pipeline_is_deterministic<K: Kernel, M>(
    fragment: LatticeModel<K::Scalar, M>,
    params: ParamsView<K::Scalar>,
    upper_atom_id: u32,
    location: Point3<K::Scalar>,
    oriented_1: LatticeModel<K::Scalar, M>,
    orientation_1: Result<(), AssembleError>,
    placed_1: LatticeModel<K::Scalar, M>,
    placement_1: Result<(), AssembleError>,
    oriented_2: LatticeModel<K::Scalar, M>,
    orientation_2: Result<(), AssembleError>,
    placed_2: LatticeModel<K::Scalar, M>,
    placement_2: Result<(), AssembleError>,
)
    requires
        functional::<K>(),
        oriented::<K, M>(fragment, params, upper_atom_id, oriented_1, orientation_1),
        oriented::<K, M>(fragment, params, upper_atom_id, oriented_2, orientation_2),
        orientation_1 is Ok ==> positioned::<K, M>(
            oriented_1,
            params,
            location,
            placed_1,
            placement_1,
        ),
        orientation_2 is Ok ==> positioned::<K, M>(
            oriented_2,
            params,
            location,
            placed_2,
            placement_2,
        ),
    ensures
        orientation_1 is Ok <==> orientation_2 is Ok,
        orientation_1 is Err ==> orientation_1->Err_0 == orientation_2->Err_0,
        orientation_1 is Ok ==> {
            &&& oriented_1.atoms@ == oriented_2.atoms@
            &&& placement_1 is Ok <==> placement_2 is Ok
            &&& placement_1 is Err ==> placement_1->Err_0 == placement_2->Err_0
            &&& placement_1 is Ok ==> placed_1.atoms@ == placed_2.atoms@
        },
{
    let oriented_model = calibrated_of::<K>(positions(fragment.atoms@), params, upper_atom_id);
    assert(follows(oriented_model, positions(oriented_1.atoms@), orientation_1));
    assert(follows(oriented_model, positions(oriented_2.atoms@), orientation_2));
    match oriented_model {
        Ok(places) => {
            assert(oriented_1.atoms@ == placed(fragment.atoms@, positions(oriented_1.atoms@)));
            assert(oriented_2.atoms@ == placed(fragment.atoms@, positions(oriented_2.atoms@)));
            let placed_model = ready_of::<K>(positions(oriented_1.atoms@), params, location);
            assert(follows(placed_model, positions(placed_1.atoms@), placement_1));
            assert(follows(placed_model, positions(placed_2.atoms@), placement_2));
            match placed_model {
                Ok(_) => {
                    assert(placed_1.atoms@ == placed(
                        oriented_1.atoms@,
                        positions(placed_1.atoms@),
                    ));
                    assert(placed_2.atoms@ == placed(
                        oriented_2.atoms@,
                        positions(placed_2.atoms@),
                    ));
                },
                Err(_) => {},
            }
        },
        Err(_) => {},
    }
}

/// The places `places` after the motions `motions`, one after the other,
/// each applied by the kernel to every place alike.
pub open spec fn moved_by<K: Kernel>(
    places: Seq<Point3<K::Scalar>>,
    motions: Seq<Motion<K::Scalar>>,
) -> Seq<Point3<K::Scalar>>
    decreases motions.len(),
{
    if motions.len() == 0 {
        places
    } else {
        let before = moved_by::<K>(places, motions.drop_last());
        match motions.last() {
            Motion::Turn(q) => rotated_of::<K>(q, before),
            Motion::Shift(v) => translated_of::<K>(before, v),
        }
    }
}

/// `after` comes from `before` by rotations and translations of the kernel
/// alone, each applied to every place alike.
pub open spec fn moved_as_one<K: Kernel>(
    before: Seq<Point3<K::Scalar>>,
    after: Seq<Point3<K::Scalar>>,
) -> bool {
    exists|motions: Seq<Motion<K::Scalar>>| after == #[trigger] moved_by::<K>(before, motions)
}

/// Places that stay where they are have moved as one.
proof fn lemma_still<K: Kernel>(places: Seq<Point3<K::Scalar>>)
    ensures
        moved_as_one::<K>(places, places),
{
    assert(places == moved_by::<K>(places, Seq::empty()));
}

/// Places that are all turned by one rotation have moved as one.
proof fn lemma_turned<K: Kernel>(places: Seq<Point3<K::Scalar>>, q: Rotation<K::Scalar>)
    ensures
        moved_as_one::<K>(places, rotated_of::<K>(q, places)),
{
    let motions = seq![Motion::Turn(q)];
    assert(motions.drop_last() =~= Seq::empty());
    assert(moved_by::<K>(places, motions.drop_last()) == places);
    assert(rotated_of::<K>(q, places) == moved_by::<K>(places, motions));
}

/// Places that are all moved by one translation have moved as one.
proof fn lemma_shifted<K: Kernel>(places: Seq<Point3<K::Scalar>>, v: Vector3<K::Scalar>)
    ensures
        moved_as_one::<K>(places, translated_of::<K>(places, v)),
{
    let motions = seq![Motion::Shift(v)];
    assert(motions.drop_last() =~= Seq::empty());
    assert(moved_by::<K>(places, motions.drop_last()) == places);
    assert(translated_of::<K>(places, v) == moved_by::<K>(places, motions));
}

/// Motions after motions are motions.
proof fn lemma_moved_on<K: Kernel>(
    places: Seq<Point3<K::Scalar>>,
    first: Seq<Motion<K::Scalar>>,
    second: Seq<Motion<K::Scalar>>,
)
    ensures
        moved_by::<K>(moved_by::<K>(places, first), second) == moved_by::<K>(
            places,
            first + second,
        ),
    decreases second.len(),
{
    if second.len() == 0 {
        assert(first + second =~= first);
    } else {
        lemma_moved_on::<K>(places, first, second.drop_last());
        assert((first + second).drop_last() =~= first + second.drop_last());
        assert((first + second).last() == second.last());
    }
}

/// What has moved as one and then moved as one again has moved as one.
proof fn lemma_moved_as_one_twice<K: Kernel>(
    a: Seq<Point3<K::Scalar>>,
    b: Seq<Point3<K::Scalar>>,
    c: Seq<Point3<K::Scalar>>,
)
    requires
        moved_as_one::<K>(a, b),
        moved_as_one::<K>(b, c),
    ensures
        moved_as_one::<K>(a, c),
{
    let first = choose|m: Seq<Motion<K::Scalar>>| b == #[trigger] moved_by::<K>(a, m);
    let second = choose|m: Seq<Motion<K::Scalar>>| c == #[trigger] moved_by::<K>(b, m);
    lemma_moved_on::<K>(a, first, second);
    assert(c == moved_by::<K>(a, first + second));
}

/// The orientation stage moves the fragment as one body. Where the stage
/// succeeds in the model, the places it ends with come from the places it
/// starts with by rotations and translations of the kernel alone, each
/// applied to every atom alike. So the distance between two atoms changes
/// only as far as a rotation or a translation of the kernel changes it.
pub proof fn lemma_orientation_moves_as_one<K: Kernel>(
    places: Seq<Point3<K::Scalar>>,
    params: ParamsView<K::Scalar>,
    upper_atom_id: u32,
)
    ensures
        calibrated_of::<K>(places, params, upper_atom_id) matches Ok(after) ==> moved_as_one::<K>(
            places,
            after,
        ),
{
    if let Ok(after) = calibrated_of::<K>(places, params, upper_atom_id) {
        let aligned = aligned_of::<K>(places, params)->Ok_0;
        lemma_aligned_moves_as_one::<K>(places, params);
        let centered = centered_of::<K>(aligned, params);
        lemma_centered_moves_as_one::<K>(aligned, params);
        lemma_moved_as_one_twice::<K>(places, aligned, centered);
        if places.len() != 1 {
            let adjusted = plane_adjusted_of::<K>(centered, params, upper_atom_id)->Ok_0;
            lemma_adjusted_moves_as_one::<K>(centered, params, upper_atom_id);
            lemma_moved_as_one_twice::<K>(places, centered, adjusted);
            lemma_headed_moves_as_one::<K>(adjusted, params);
            lemma_moved_as_one_twice::<K>(places, adjusted, after);
        }
    }
}

/// The placement stage moves the fragment as one body: where the stage
/// succeeds in the model, the places it ends with come from the places it
/// starts with by one translation of the kernel, applied to every atom
/// alike.
pub proof fn lemma_placement_moves_as_one<K: Kernel>(
    places: Seq<Point3<K::Scalar>>,
    params: ParamsView<K::Scalar>,
    location: Point3<K::Scalar>,
)
    ensures
        ready_of::<K>(places, params, location) matches Ok(after) ==> exists|v: Vector3<K::Scalar>|
            after == #[trigger] translated_of::<K>(places, v),
{
}

/// The initial alignment moves the fragment as one.
proof fn lemma_aligned_moves_as_one<K: Kernel>(
    places: Seq<Point3<K::Scalar>>,
    params: ParamsView<K::Scalar>,
)
    ensures
        aligned_of::<K>(places, params) matches Ok(after) ==> moved_as_one::<K>(places, after),
{
    if let Ok(after) = aligned_of::<K>(places, params) {
        let q = choose|q: Rotation<K::Scalar>| after == rotated_of::<K>(q, places);
        lemma_turned::<K>(places, q);
    }
}

/// The centering moves the fragment as one.
proof fn lemma_centered_moves_as_one<K: Kernel>(
    places: Seq<Point3<K::Scalar>>,
    params: ParamsView<K::Scalar>,
)
    ensures
        moved_as_one::<K>(places, centered_of::<K>(places, params)),
{
    let v = choose|v: Vector3<K::Scalar>|
        centered_of::<K>(places, params) == translated_of::<K>(places, v);
    lemma_shifted::<K>(places, v);
}

/// The roll and the upright flip move the fragment as one.
proof fn lemma_adjusted_moves_as_one<K: Kernel>(
    places: Seq<Point3<K::Scalar>>,
    params: ParamsView<K::Scalar>,
    upper_atom_id: u32,
)
    ensures
        plane_adjusted_of::<K>(places, params, upper_atom_id) matches Ok(after)
            ==> moved_as_one::<K>(places, after),
{
    if let Ok(after) = plane_adjusted_of::<K>(places, params, upper_atom_id) {
        let rolled = rolled_of::<K>(places, params)->Ok_0;
        if rolled == places {
            lemma_still::<K>(places);
        } else {
            let q = choose|q: Rotation<K::Scalar>| rolled == rotated_of::<K>(q, places);
            lemma_turned::<K>(places, q);
        }
        let flipped = flipped_of::<K>(rolled, params, upper_atom_id);
        if flipped == rolled {
            lemma_still::<K>(rolled);
        } else {
            let q = choose|q: Rotation<K::Scalar>| flipped == rotated_of::<K>(q, rolled);
            lemma_turned::<K>(rolled, q);
        }
        lemma_moved_as_one_twice::<K>(places, rolled, flipped);
    }
}

/// The pitch and the yaw move the fragment as one.
proof fn lemma_headed_moves_as_one<K: Kernel>(
    places: Seq<Point3<K::Scalar>>,
    params: ParamsView<K::Scalar>,
)
    ensures
        headed_of::<K>(places, params) matches Ok(after) ==> moved_as_one::<K>(places, after),
{
    if let Ok(after) = headed_of::<K>(places, params) {
        let pitched = pitched_of::<K>(places, params)->Ok_0;
        if pitched == places {
            lemma_still::<K>(places);
        } else {
            let q = choose|q: Rotation<K::Scalar>| pitched == rotated_of::<K>(q, places);
            lemma_turned::<K>(places, q);
        }
        let yawed = yawed_of::<K>(pitched, params)->Ok_0;
        if yawed == pitched {
            lemma_still::<K>(pitched);
        } else {
            let q = choose|q: Rotation<K::Scalar>| yawed == rotated_of::<K>(q, pitched);
            lemma_turned::<K>(pitched, q);
        }
        lemma_moved_as_one_twice::<K>(places, pitched, yawed);
    }
}

} // verus!
