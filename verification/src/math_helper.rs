//! Constructions on points and vectors that the reference resolver and the
//! placement stage are built from.
use vstd::prelude::*;
use crate::error::CollinearPoints;
use crate::kernel::{
    abs, abs_of, angle, angle_of, cross, cross_of, difference, difference_of, displacement,
    displacement_of, dot, dot_of, epsilon, epsilon_of, equal, equal_of, from_count, from_count_of,
    from_int, functional, less, less_of, pi, pi_of, quotient, quotient_of, scale, scale_of, sum,
    sum_of, zero_of, Kernel, Point3, Vector3,
};

verus! {

/// The running sum of the coordinates of `points`, taken from the first point
/// to the last.
pub open spec fn coordinate_sum_of<K: Kernel>(points: Seq<Point3<K::Scalar>>) -> Point3<
    K::Scalar,
>
    recommends
        points.len() > 0,
    decreases points.len(),
{
    if points.len() <= 1 {
        points[0]
    } else {
        let acc = coordinate_sum_of::<K>(points.drop_last());
        let p = points.last();
        Point3 {
            x: sum_of::<K>(acc.x, p.x),
            y: sum_of::<K>(acc.y, p.y),
            z: sum_of::<K>(acc.z, p.z),
        }
    }
}

/// The centroid of `points`: their coordinate sum divided by their number.
pub open spec fn centroid_of<K: Kernel>(points: Seq<Point3<K::Scalar>>) -> Point3<K::Scalar>
    recommends
        points.len() > 0,
{
    let total = coordinate_sum_of::<K>(points);
    let n = from_count_of::<K>(points.len() as usize);
    Point3 {
        x: quotient_of::<K>(total.x, n),
        y: quotient_of::<K>(total.y, n),
        z: quotient_of::<K>(total.z, n),
    }
}

/// Computes the centroid of one or more points.
pub fn centroid_of_points<K: Kernel>(points: &[Point3<K::Scalar>]) -> (c: Point3<K::Scalar>)
    requires
        points@.len() > 0,
    ensures
        functional::<K>() ==> c == centroid_of::<K>(points@),
{
    let mut acc = points[0];
    let mut i: usize = 1;
    proof {
        assert(points@.take(1).len() == 1);
        assert(points@.take(1)[0] == points@[0]);
    }
    while i < points.len()
        invariant
            1 <= i <= points@.len(),
            functional::<K>() ==> acc == coordinate_sum_of::<K>(points@.take(i as int)),
        decreases points@.len() - i,
    {
        let p = points[i];
        proof {
            assert(points@.take(i + 1).drop_last() =~= points@.take(i as int));
            assert(points@.take(i + 1).last() == points@[i as int]);
        }
        acc = Point3 {
            x: sum::<K>(acc.x, p.x),
            y: sum::<K>(acc.y, p.y),
            z: sum::<K>(acc.z, p.z),
        };
        i = i + 1;
    }
    proof {
        assert(points@.take(i as int) =~= points@);
    }
    let n = from_count::<K>(points.len());
    Point3 {
        x: quotient::<K>(acc.x, n),
        y: quotient::<K>(acc.y, n),
        z: quotient::<K>(acc.z, n),
    }
}

/// The point `line_point + t · line_direction` with
/// `t = ((plane_point − line_point) · plane_normal) / (line_direction · plane_normal)`:
/// the point of the line that lies in the plane.
pub open spec fn line_plane_intersect_of<K: Kernel>(
    line_point: Point3<K::Scalar>,
    plane_point: Point3<K::Scalar>,
    plane_normal: Vector3<K::Scalar>,
    line_direction: Vector3<K::Scalar>,
) -> Point3<K::Scalar> {
    let line_to_plane = displacement_of::<K>(plane_point, line_point);
    let t = quotient_of::<K>(
        dot_of::<K>(line_to_plane, plane_normal),
        dot_of::<K>(line_direction, plane_normal),
    );
    let length = scale_of::<K>(line_direction, t);
    Point3 {
        x: sum_of::<K>(line_point.x, length.x),
        y: sum_of::<K>(line_point.y, length.y),
        z: sum_of::<K>(line_point.z, length.z),
    }
}

/// Finds the point where the line through `line_point` along
/// `line_direction` meets the plane through `plane_point` with normal
/// `plane_normal`.
pub fn line_plane_intersect<K: Kernel>(
    line_point: &Point3<K::Scalar>,
    plane_point: &Point3<K::Scalar>,
    plane_normal: &Vector3<K::Scalar>,
    line_direction: &Vector3<K::Scalar>,
) -> (hit: Point3<K::Scalar>)
    ensures
        functional::<K>() ==> hit == line_plane_intersect_of::<K>(
            *line_point,
            *plane_point,
            *plane_normal,
            *line_direction,
        ),
{
    let line_to_plane = displacement::<K>(*plane_point, *line_point);
    let prod_1 = dot::<K>(line_to_plane, *plane_normal);
    let prod_2 = dot::<K>(*line_direction, *plane_normal);
    let t = quotient::<K>(prod_1, prod_2);
    let length = scale::<K>(*line_direction, t);
    Point3 {
        x: sum::<K>(line_point.x, length.x),
        y: sum::<K>(line_point.y, length.y),
        z: sum::<K>(line_point.z, length.z),
    }
}

/// Whether `point` counts as lying on the line through `line_point_1` and
/// `line_point_2`: the angle at `line_point_1` between the directions to
/// `point` and to `line_point_2` is within the kernel's tolerance of zero or
/// of a half turn.
pub open spec fn on_line_of<K: Kernel>(
    point: Point3<K::Scalar>,
    line_point_1: Point3<K::Scalar>,
    line_point_2: Point3<K::Scalar>,
) -> bool {
    let alpha = angle_of::<K>(
        displacement_of::<K>(point, line_point_1),
        displacement_of::<K>(line_point_2, line_point_1),
    );
    ||| less_of::<K>(abs_of::<K>(difference_of::<K>(alpha, zero_of::<K>())), epsilon_of::<K>())
    ||| less_of::<K>(abs_of::<K>(difference_of::<K>(alpha, pi_of::<K>())), epsilon_of::<K>())
}

/// The foot of the perpendicular dropped from `point` onto the line through
/// `line_point_1` and `line_point_2`.
pub open spec fn perpendicular_foot_of<K: Kernel>(
    point: Point3<K::Scalar>,
    line_point_1: Point3<K::Scalar>,
    line_point_2: Point3<K::Scalar>,
) -> Point3<K::Scalar> {
    let to_point = displacement_of::<K>(point, line_point_1);
    let along = displacement_of::<K>(line_point_2, line_point_1);
    let ratio = quotient_of::<K>(dot_of::<K>(to_point, along), dot_of::<K>(along, along));
    let to_foot = scale_of::<K>(along, ratio);
    Point3 {
        x: sum_of::<K>(line_point_1.x, to_foot.x),
        y: sum_of::<K>(line_point_1.y, to_foot.y),
        z: sum_of::<K>(line_point_1.z, to_foot.z),
    }
}

/// Drops the perpendicular from `point` onto the line through `line_point_1`
/// and `line_point_2` and returns its foot, or nothing where `point` counts as
/// lying on that line.
pub fn perpendicular_foot<K: Kernel>(
    point: &Point3<K::Scalar>,
    line_point_1: &Point3<K::Scalar>,
    line_point_2: &Point3<K::Scalar>,
) -> (foot: Option<Point3<K::Scalar>>)
    ensures
        functional::<K>() ==> foot == if on_line_of::<K>(*point, *line_point_1, *line_point_2) {
            None
        } else {
            Some(perpendicular_foot_of::<K>(*point, *line_point_1, *line_point_2))
        },
{
    let to_point = displacement::<K>(*point, *line_point_1);
    let along = displacement::<K>(*line_point_2, *line_point_1);
    let alpha = angle::<K>(to_point, along);
    let eps = epsilon::<K>();
    let near_zero = less::<K>(abs::<K>(difference::<K>(alpha, from_int::<K>(0))), eps);
    let near_half_turn = less::<K>(abs::<K>(difference::<K>(alpha, pi::<K>())), eps);
    if near_zero || near_half_turn {
        return None;
    }
    let ratio = quotient::<K>(dot::<K>(to_point, along), dot::<K>(along, along));
    let to_foot = scale::<K>(along, ratio);
    Some(
        Point3 {
            x: sum::<K>(line_point_1.x, to_foot.x),
            y: sum::<K>(line_point_1.y, to_foot.y),
            z: sum::<K>(line_point_1.z, to_foot.z),
        },
    )
}

/// The vector to `point` from the foot of its perpendicular on the line
/// through `line_point_1` and `line_point_2`, where there is one.
pub open spec fn perpendicular_vec_of<K: Kernel>(
    point: Point3<K::Scalar>,
    line_point_1: Point3<K::Scalar>,
    line_point_2: Point3<K::Scalar>,
) -> Option<Vector3<K::Scalar>> {
    if on_line_of::<K>(point, line_point_1, line_point_2) {
        None
    } else {
        Some(
            displacement_of::<K>(
                point,
                perpendicular_foot_of::<K>(point, line_point_1, line_point_2),
            ),
        )
    }
}

/// Establishes the vector through `point` that is square to the line through
/// `line_point_1` and `line_point_2`: it leads from the foot of the
/// perpendicular on that line to `point`. There is none where `point` counts
/// as lying on the line.
pub fn perpendicular_vec_through_a_point<K: Kernel>(
    point: &Point3<K::Scalar>,
    line_point_1: &Point3<K::Scalar>,
    line_point_2: &Point3<K::Scalar>,
) -> (v: Option<Vector3<K::Scalar>>)
    ensures
        functional::<K>() ==> v == perpendicular_vec_of::<K>(
            *point,
            *line_point_1,
            *line_point_2,
        ),
{
    match perpendicular_foot::<K>(point, line_point_1, line_point_2) {
        Some(foot) => Some(displacement::<K>(*point, foot)),
        None => None,
    }
}

/// Whether three points count as lying on one line: the angle at `point_1`
/// between the directions to `point_2` and to `point_3` is exactly zero or
/// exactly a half turn.
pub open spec fn collinear_of<K: Kernel>(
    point_1: Point3<K::Scalar>,
    point_2: Point3<K::Scalar>,
    point_3: Point3<K::Scalar>,
) -> bool {
    let alpha = angle_of::<K>(
        displacement_of::<K>(point_2, point_1),
        displacement_of::<K>(point_3, point_1),
    );
    equal_of::<K>(alpha, pi_of::<K>()) || equal_of::<K>(alpha, zero_of::<K>())
}

/// The normal `(point_2 − point_1) × (point_3 − point_1)` of the plane through
/// three points, or the failure where they count as lying on one line.
pub open spec fn plane_normal_of<K: Kernel>(
    point_1: Point3<K::Scalar>,
    point_2: Point3<K::Scalar>,
    point_3: Point3<K::Scalar>,
) -> Result<Vector3<K::Scalar>, CollinearPoints> {
    if collinear_of::<K>(point_1, point_2, point_3) {
        Err(CollinearPoints)
    } else {
        Ok(
            cross_of::<K>(
                displacement_of::<K>(point_2, point_1),
                displacement_of::<K>(point_3, point_1),
            ),
        )
    }
}

/// Computes the normal of the plane through three points. Fails where the
/// points lie on one line, and never hands out a normal for such points.
pub fn plane_normal<K: Kernel>(
    point_1: &Point3<K::Scalar>,
    point_2: &Point3<K::Scalar>,
    point_3: &Point3<K::Scalar>,
) -> (n: Result<Vector3<K::Scalar>, CollinearPoints>)
    ensures
        functional::<K>() ==> n == plane_normal_of::<K>(*point_1, *point_2, *point_3),
{
    let va = displacement::<K>(*point_2, *point_1);
    let vb = displacement::<K>(*point_3, *point_1);
    let alpha = angle::<K>(va, vb);
    let half_turn = equal::<K>(alpha, pi::<K>());
    let none = equal::<K>(alpha, from_int::<K>(0));
    if half_turn || none {
        Err(CollinearPoints)
    } else {
        Ok(cross::<K>(va, vb))
    }
}

} // verus!
