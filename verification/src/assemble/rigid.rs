//! Moving a fragment as one body: by rotations and translations that the
//! kernel applies to every atom alike.
use vstd::prelude::*;
use crate::kernel::{Kernel, Point3, Rotation, Vector3};
use crate::lattice::{shifted_by, turned_by};

verus! {

/// One motion of a rigid body: a rotation about the origin, or a
/// translation.
pub enum Motion<S> {
    /// The rotation `q`, applied to every point.
    Turn(Rotation<S>),
    /// The translation by `v`, applied to every point.
    Shift(Vector3<S>),
}

/// The kernel applied the motion `motion` to each of the places `before`,
/// and `after` is what came back.
pub open spec fn moved_by_one<K: Kernel>(
    motion: Motion<K::Scalar>,
    before: Seq<Point3<K::Scalar>>,
    after: Seq<Point3<K::Scalar>>,
) -> bool {
    match motion {
        Motion::Turn(q) => turned_by::<K>(q, before, after),
        Motion::Shift(v) => shifted_by::<K>(v, before, after),
    }
}

/// The places `stations[0]` were taken through the motions `motions`, one
/// after the other, and `stations` holds the places after each.
pub open spec fn moved_through<K: Kernel>(
    stations: Seq<Seq<Point3<K::Scalar>>>,
    motions: Seq<Motion<K::Scalar>>,
) -> bool {
    &&& stations.len() == motions.len() + 1
    &&& forall|k: int|
        0 <= k < motions.len() ==> moved_by_one::<K>(
            #[trigger] motions[k],
            stations[k],
            stations[k + 1],
        )
}

/// `after` came from `before` by nothing but rotations and translations,
/// each applied by the kernel to every place alike.
pub open spec fn rigidly_moved<K: Kernel>(
    before: Seq<Point3<K::Scalar>>,
    after: Seq<Point3<K::Scalar>>,
) -> bool {
    exists|stations: Seq<Seq<Point3<K::Scalar>>>, motions: Seq<Motion<K::Scalar>>|
        #[trigger] moved_through::<K>(stations, motions) && stations.first() == before
            && stations.last() == after
}

/// `after` came from `before` by one translation, which the kernel applied
/// to every place alike, and by no rotation.
pub open spec fn only_shifted<K: Kernel>(
    before: Seq<Point3<K::Scalar>>,
    after: Seq<Point3<K::Scalar>>,
) -> bool {
    exists|v: Vector3<K::Scalar>| #[trigger] shifted_by::<K>(v, before, after)
}

/// Places that stay where they are have moved rigidly.
pub proof fn lemma_rigid_still<K: Kernel>(places: Seq<Point3<K::Scalar>>)
    ensures
        rigidly_moved::<K>(places, places),
{
    let stations = seq![places];
    let motions = Seq::<Motion<K::Scalar>>::empty();
    assert(moved_through::<K>(stations, motions));
}

/// Places that the kernel has applied one motion to have moved rigidly.
pub proof fn lemma_rigid_step<K: Kernel>(
    motion: Motion<K::Scalar>,
    before: Seq<Point3<K::Scalar>>,
    after: Seq<Point3<K::Scalar>>,
)
    requires
        moved_by_one::<K>(motion, before, after),
    ensures
        rigidly_moved::<K>(before, after),
{
    let stations = seq![before, after];
    let motions = seq![motion];
    assert(moved_through::<K>(stations, motions));
}

/// What has moved rigidly and then moved rigidly again has moved rigidly.
pub proof fn lemma_rigid_twice<K: Kernel>(
    a: Seq<Point3<K::Scalar>>,
    b: Seq<Point3<K::Scalar>>,
    c: Seq<Point3<K::Scalar>>,
)
    requires
        rigidly_moved::<K>(a, b),
        rigidly_moved::<K>(b, c),
    ensures
        rigidly_moved::<K>(a, c),
{
    let (s1, m1) = choose|s: Seq<Seq<Point3<K::Scalar>>>, m: Seq<Motion<K::Scalar>>|
        #[trigger] moved_through::<K>(s, m) && s.first() == a && s.last() == b;
    let (s2, m2) = choose|s: Seq<Seq<Point3<K::Scalar>>>, m: Seq<Motion<K::Scalar>>|
        #[trigger] moved_through::<K>(s, m) && s.first() == b && s.last() == c;
    let stations = s1 + s2.skip(1);
    let motions = m1 + m2;
    assert forall|k: int| 0 <= k < motions.len() implies moved_by_one::<K>(
        #[trigger] motions[k],
        stations[k],
        stations[k + 1],
    ) by {
        if k < m1.len() {
            assert(motions[k] == m1[k]);
            assert(stations[k] == s1[k]);
            if k + 1 < s1.len() {
                assert(stations[k + 1] == s1[k + 1]);
            }
        } else {
            let j = k - m1.len();
            assert(motions[k] == m2[j]);
            assert(moved_by_one::<K>(m2[j], s2[j], s2[j + 1]));
            assert(stations[k + 1] == s2[j + 1]);
            if j == 0 {
                assert(stations[k] == s1.last());
            } else {
                assert(stations[k] == s2[j]);
            }
        }
    }
    assert(moved_through::<K>(stations, motions));
    assert(stations.first() == a);
    assert(stations.last() == c);
}

} // verus!
