//! The placement pipeline, run on double-precision numbers through nalgebra.
use adsorption::assemble::builder::{AdsorptionBuilder, BareLattice};
use adsorption::assemble::orientation::{
    align_stem, apart, calibrate, check_coordinate, flip_up, move_to_origin, orientation_config_check,
    pitch_ads, roll_ads, yaw_ads,
};
use adsorption::assemble::params::{AdsParams, AdsParamsBuilder};
use adsorption::assemble::placement::{in_band, lifted, multiple_coord, place, single_coord};
use adsorption::assemble::resolver::{get_coord_stem_vector, get_stem_vector, StemType};
use adsorption::atom::Atom;
use adsorption::error::AssembleError;
use adsorption::kernel::{Kernel, Point3, Rotation, Vector3};
use adsorption::lattice::LatticeModel;
use adsorption::math_helper::centroid_of_points;
use nalgebra as na;

/// Double-precision arithmetic, with vectors and rotations by nalgebra.
struct Na;

fn nv(a: Vector3<f64>) -> na::Vector3<f64> {
    na::Vector3::new(a.x, a.y, a.z)
}

fn np(a: Point3<f64>) -> na::Point3<f64> {
    na::Point3::new(a.x, a.y, a.z)
}

fn lv(a: na::Vector3<f64>) -> Vector3<f64> {
    Vector3 { x: a.x, y: a.y, z: a.z }
}

fn lp(a: na::Point3<f64>) -> Point3<f64> {
    Point3 { x: a.x, y: a.y, z: a.z }
}

fn nq(r: Rotation<f64>) -> na::UnitQuaternion<f64> {
    na::UnitQuaternion::new_unchecked(na::Quaternion::new(r.w, r.i, r.j, r.k))
}

fn lq(q: na::UnitQuaternion<f64>) -> Rotation<f64> {
    Rotation { w: q.w, i: q.i, j: q.j, k: q.k }
}

impl Kernel for Na {
    type Scalar = f64;

    fn from_int(n: i32) -> f64 {
        f64::from(n)
    }

    fn from_count(n: usize) -> f64 {
        n as f64
    }

    fn pi() -> f64 {
        std::f64::consts::PI
    }

    fn epsilon() -> f64 {
        f64::EPSILON
    }

    fn sum(a: f64, b: f64) -> f64 {
        a + b
    }

    fn difference(a: f64, b: f64) -> f64 {
        a - b
    }

    fn product(a: f64, b: f64) -> f64 {
        a * b
    }

    fn quotient(a: f64, b: f64) -> f64 {
        a / b
    }

    fn abs(a: f64) -> f64 {
        a.abs()
    }

    fn cos(a: f64) -> f64 {
        a.cos()
    }

    fn sin(a: f64) -> f64 {
        a.sin()
    }

    fn to_radians(a: f64) -> f64 {
        a.to_radians()
    }

    fn to_degrees(a: f64) -> f64 {
        a.to_degrees()
    }

    fn less(a: f64, b: f64) -> bool {
        a < b
    }

    fn equal(a: f64, b: f64) -> bool {
        a == b
    }

    fn is_nan(a: f64) -> bool {
        a.is_nan()
    }

    fn displacement(to: Point3<f64>, from: Point3<f64>) -> Vector3<f64> {
        lv(np(to) - np(from))
    }

    fn cross(a: Vector3<f64>, b: Vector3<f64>) -> Vector3<f64> {
        lv(nv(a).cross(&nv(b)))
    }

    fn dot(a: Vector3<f64>, b: Vector3<f64>) -> f64 {
        nv(a).dot(&nv(b))
    }

    fn angle(a: Vector3<f64>, b: Vector3<f64>) -> f64 {
        nv(a).angle(&nv(b))
    }

    fn normalize(a: Vector3<f64>) -> Vector3<f64> {
        lv(nv(a).normalize())
    }

    fn scale(a: Vector3<f64>, s: f64) -> Vector3<f64> {
        lv(nv(a).scale(s))
    }

    fn translate(p: Point3<f64>, v: Vector3<f64>) -> Point3<f64> {
        lp(na::Translation3::from(nv(v)).transform_point(&np(p)))
    }

    fn center(a: Point3<f64>, b: Point3<f64>) -> Point3<f64> {
        lp(na::center(&np(a), &np(b)))
    }

    fn rotation_between(a: Vector3<f64>, b: Vector3<f64>) -> Option<Rotation<f64>> {
        na::UnitQuaternion::rotation_between(&nv(a), &nv(b)).map(lq)
    }

    fn axis_angle(axis: Vector3<f64>, angle: f64) -> Rotation<f64> {
        lq(na::UnitQuaternion::from_axis_angle(&na::Unit::new_normalize(nv(axis)), angle))
    }

    fn rotate(q: Rotation<f64>, p: Point3<f64>) -> Point3<f64> {
        lp(nq(q).transform_point(&np(p)))
    }
}

fn pt(x: f64, y: f64, z: f64) -> Point3<f64> {
    Point3 { x, y, z }
}

fn atom(symbol: &str, element_id: u32, xyz: Point3<f64>, atom_id: u32) -> Atom<f64, ()> {
    Atom::new(symbol.to_string(), element_id, xyz, atom_id, ())
}

fn model(points: &[(f64, f64, f64)]) -> LatticeModel<f64, ()> {
    let atoms = points
        .iter()
        .enumerate()
        .map(|(i, &(x, y, z))| atom("C", 6, pt(x, y, z), i as u32 + 1))
        .collect();
    LatticeModel::new(None, atoms, ())
}

fn dist(a: Point3<f64>, b: Point3<f64>) -> f64 {
    (np(a) - np(b)).norm()
}

fn close(a: Point3<f64>, b: Point3<f64>) -> bool {
    dist(a, b) < 1e-9
}

fn positions(m: &LatticeModel<f64, ()>) -> Vec<Point3<f64>> {
    m.atoms().iter().map(|a| *a.xyz()).collect()
}

fn bits(m: &LatticeModel<f64, ()>) -> Vec<[u64; 3]> {
    m.atoms()
        .iter()
        .map(|a| [a.xyz().x.to_bits(), a.xyz().y.to_bits(), a.xyz().z.to_bits()])
        .collect()
}

fn pairwise(m: &LatticeModel<f64, ()>) -> Vec<f64> {
    let ps = positions(m);
    let mut out = Vec::new();
    for a in &ps {
        for b in &ps {
            out.push(dist(*a, *b));
        }
    }
    out
}

fn same_distances(before: &[f64], after: &[f64]) -> bool {
    before.len() == after.len()
        && before
            .iter()
            .zip(after)
            .all(|(b, a)| (b - a).abs() <= 1e-9 * b.abs().max(1.0))
}

/// A bent three-atom fragment that lies neither along an axis nor in a
/// coordinate plane.
fn bent() -> LatticeModel<f64, ()> {
    model(&[(0.3, -0.2, 0.5), (1.1, 0.6, 0.9), (1.4, 1.7, 0.2)])
}

/// A five-atom fragment with two carbon atoms and three hydrogen atoms.
fn branched() -> LatticeModel<f64, ()> {
    model(&[
        (0.1, 0.2, 0.3),
        (1.5, 0.4, 0.1),
        (2.0, 1.4, 0.5),
        (-0.4, 1.1, 0.9),
        (-0.5, -0.7, 0.4),
    ])
}

/// A methyl-like fragment: one heavy atom and three atoms around it.
fn methyl() -> LatticeModel<f64, ()> {
    model(&[
        (0.0, 0.0, 0.0),
        (1.03, 0.0, -0.36),
        (-0.51, 0.89, -0.36),
        (-0.51, -0.89, -0.36),
    ])
}

fn host_at_origin() -> LatticeModel<f64, ()> {
    model(&[(0.0, 0.0, 0.0)])
}

struct Ids {
    coord: Vec<u32>,
    stem: Option<[u32; 2]>,
    plane: Option<[u32; 3]>,
}

fn params<'a>(
    ids: &'a Ids,
    direction: Option<Vector3<f64>>,
    plane_angle: Option<f64>,
    stem_coord_angle: Option<f64>,
) -> AdsParams<'a, f64> {
    AdsParamsBuilder::new()
        .with_ads_direction(direction)
        .with_plane_angle(plane_angle)
        .with_stem_coord_angle(stem_coord_angle)
        .with_bond_length(1.4)
        .with_coord_atom_ids(&ids.coord)
        .with_stem_atom_ids(ids.stem.as_ref())
        .with_plane_atom_ids(ids.plane.as_ref())
        .finish()
        .unwrap()
}

fn stem_and_plane(coord: &[u32]) -> Ids {
    Ids { coord: coord.to_vec(), stem: Some([1, 2]), plane: Some([1, 2, 3]) }
}

#[test]
fn a_single_coordination_atom_is_placed_vertically() {
    let ids = stem_and_plane(&[1]);
    let fragment = model(&[(0.0, 0.0, 0.0), (1.2, 0.0, 0.0), (1.8, 0.9, 0.0)]);
    let built = AdsorptionBuilder::<Na, (), BareLattice>::new(host_at_origin())
        .add_adsorbate(fragment)
        .with_location_at_sites(&[1])
        .unwrap()
        .with_ads_params(params(&ids, None, Some(90.0), Some(0.0)))
        .unwrap()
        .init_ads(3)
        .unwrap()
        .place_adsorbate()
        .unwrap()
        .build_adsorbed_lattice();
    assert_eq!(built.atoms().len(), 4);
    let first = built.get_atom_by_id(2).unwrap();
    assert!(close(*first.xyz(), pt(0.0, 0.0, 1.4)));
}

#[test]
fn two_coordination_atoms_are_placed_by_their_centroid() {
    let ids = stem_and_plane(&[1, 2]);
    let ready = AdsorptionBuilder::<Na, (), BareLattice>::new(host_at_origin())
        .add_adsorbate(bent())
        .with_location_at_sites(&[1])
        .unwrap()
        .with_ads_params(params(&ids, None, Some(90.0), Some(0.0)))
        .unwrap()
        .init_ads(3)
        .unwrap()
        .place_adsorbate()
        .unwrap();
    let fragment = ready.adsorbate().unwrap();
    let a = *fragment.get_atom_by_id(1).unwrap().xyz();
    let b = *fragment.get_atom_by_id(2).unwrap().xyz();
    let centroid = centroid_of_points::<Na>(&[a, b]);
    assert!(close(centroid, pt(0.0, 0.0, 1.4)));
}

#[test]
fn orientation_keeps_every_pairwise_distance() {
    let cases: Vec<(LatticeModel<f64, ()>, Ids, Option<Vector3<f64>>, Option<f64>, f64, u32)> = vec![
        (bent(), stem_and_plane(&[1]), None, Some(90.0), 0.0, 3),
        (bent(), stem_and_plane(&[1]), Some(Vector3 { x: 0.3, y: 1.0, z: 0.2 }), Some(0.0), 50.0, 3),
        (branched(), Ids { coord: vec![3], stem: Some([3, 2]), plane: Some([2, 3, 5]) }, None, Some(150.0), 0.0, 1),
        (branched(), Ids { coord: vec![2], stem: Some([2, 1]), plane: Some([1, 3, 4]) }, Some(Vector3 { x: -1.0, y: 0.4, z: 0.0 }), Some(40.0), 30.0, 4),
        (methyl(), Ids { coord: vec![1], stem: Some([1, 1]), plane: Some([2, 3, 4]) }, Some(Vector3 { x: 0.0, y: 1.0, z: 0.0 }), Some(0.0), 90.0, 2),
        (model(&[(0.0, 0.0, 0.0), (0.4, 0.9, 0.6)]), Ids { coord: vec![1], stem: Some([1, 2]), plane: None }, None, None, 90.0, 2),
    ];
    for (mut fragment, ids, direction, plane_angle, coord_angle, upper) in cases {
        let p = params(&ids, direction, plane_angle, Some(coord_angle));
        let before = pairwise(&fragment);
        calibrate::<Na, ()>(&mut fragment, &p, upper).unwrap();
        assert!(same_distances(&before, &pairwise(&fragment)));
    }
}

#[test]
fn each_orientation_step_keeps_every_pairwise_distance() {
    let ids = stem_and_plane(&[1]);
    let p = params(&ids, Some(Vector3 { x: 0.2, y: -1.0, z: 0.5 }), Some(30.0), Some(40.0));
    let mut fragment = branched();
    let before = pairwise(&fragment);
    align_stem::<Na, ()>(&mut fragment, &p).unwrap();
    assert!(same_distances(&before, &pairwise(&fragment)));
    move_to_origin::<Na, ()>(&mut fragment, &p);
    assert!(same_distances(&before, &pairwise(&fragment)));
    roll_ads::<Na, ()>(&mut fragment, &p, 4).unwrap();
    assert!(same_distances(&before, &pairwise(&fragment)));
    flip_up::<Na, ()>(&mut fragment, &p, 4);
    assert!(same_distances(&before, &pairwise(&fragment)));
    pitch_ads::<Na, ()>(&mut fragment, &p).unwrap();
    assert!(same_distances(&before, &pairwise(&fragment)));
    yaw_ads::<Na, ()>(&mut fragment, &p).unwrap();
    assert!(same_distances(&before, &pairwise(&fragment)));
    assert!(check_coordinate::<Na, ()>(&fragment).is_ok());
}

#[test]
fn initial_alignment_lays_the_stem_along_the_x_axis() {
    for mut fragment in [bent(), branched()] {
        let ids = stem_and_plane(&[1]);
        let p = params(&ids, None, Some(90.0), Some(0.0));
        align_stem::<Na, ()>(&mut fragment, &p).unwrap();
        let stem = match get_stem_vector::<Na, ()>(&fragment, &p).unwrap() {
            StemType::RealStem(v) => v,
            StemType::VirtualStem(_) => panic!("two different stem atoms make a real stem"),
        };
        let angle = Na::angle(stem, Vector3 { x: 1.0, y: 0.0, z: 0.0 });
        assert!(angle.abs() < 1e-7);
        assert!(stem.y.abs() < 1e-9 && stem.z.abs() < 1e-9 && stem.x > 0.0);
    }
}

#[test]
fn centering_puts_the_stem_midpoint_at_the_origin() {
    let ids = stem_and_plane(&[1]);
    let p = params(&ids, None, Some(90.0), Some(0.0));
    let mut fragment = bent();
    move_to_origin::<Na, ()>(&mut fragment, &p);
    let ps = positions(&fragment);
    assert!(close(Na::center(ps[0], ps[1]), pt(0.0, 0.0, 0.0)));
    assert!(close(ps[0], pt(-0.4, -0.4, -0.2)));
    assert!(close(ps[1], pt(0.4, 0.4, 0.2)));
    assert!(close(ps[2], pt(0.7, 1.5, -0.5)));
}

#[test]
fn centering_without_stem_atoms_puts_the_first_atom_at_the_origin() {
    let ids = Ids { coord: vec![2], stem: None, plane: None };
    let p = params(&ids, None, None, Some(0.0));
    let mut fragment = bent();
    move_to_origin::<Na, ()>(&mut fragment, &p);
    let ps = positions(&fragment);
    assert!(close(ps[0], pt(0.0, 0.0, 0.0)));
    assert!(close(ps[1], pt(0.8, 0.8, 0.4)));
}

#[test]
fn placement_by_one_atom_keeps_the_bond_length() {
    // Straight above the location: the bonding direction is horizontal.
    let ids = stem_and_plane(&[1]);
    let p = params(&ids, None, Some(90.0), Some(0.0));
    let location = pt(2.0, -1.0, 0.5);
    let mut fragment = bent();
    calibrate::<Na, ()>(&mut fragment, &p, 3).unwrap();
    place::<Na, ()>(&mut fragment, &p, location).unwrap();
    let coord = positions(&fragment)[0];
    assert!(close(coord, pt(2.0, -1.0, 1.9)));
    assert!((dist(coord, location) - 1.4).abs() < 1e-9);
}

#[test]
fn placement_along_a_tilted_direction_keeps_the_bond_length() {
    // A stem that rises at 45 degrees is inside the band, so the atom goes
    // along the stem and not straight up.
    let ids = Ids { coord: vec![1], stem: Some([1, 2]), plane: None };
    let p = params(&ids, None, None, Some(0.0));
    let location = pt(0.5, 0.5, 0.0);
    let mut fragment = model(&[(0.0, 0.0, 0.0), (1.0, 0.0, 1.0)]);
    single_coord::<Na, ()>(&mut fragment, &p, location).unwrap();
    let ps = positions(&fragment);
    let h = 1.4 / 2.0_f64.sqrt();
    assert!(close(ps[0], pt(0.5 + h, 0.5, h)));
    assert!(close(ps[1], pt(1.5 + h, 0.5, 1.0 + h)));
    assert!((dist(ps[0], location) - 1.4).abs() < 1e-9);
}

#[test]
fn placement_outside_the_band_goes_straight_up() {
    // 0.5 degrees and 90 degrees to the vertical are both outside the band.
    for second in [(0.008, 0.0, 1.0), (1.0, 0.0, 0.0), (1.0, 0.0, 0.9)] {
        let ids = Ids { coord: vec![1], stem: Some([1, 2]), plane: None };
        let p = params(&ids, None, None, Some(0.0));
        let location = pt(0.0, 0.0, 0.0);
        let mut fragment = model(&[(0.0, 0.0, 0.0), second]);
        single_coord::<Na, ()>(&mut fragment, &p, location).unwrap();
        let ps = positions(&fragment);
        let angle = Na::angle(Vector3 { x: second.0, y: second.1, z: second.2 }, Vector3 { x: 0.0, y: 0.0, z: 1.0 }).to_degrees();
        if angle > 1.0 && angle < 61.0 {
            assert!(!close(ps[0], pt(0.0, 0.0, 1.4)));
        } else {
            assert!(close(ps[0], pt(0.0, 0.0, 1.4)));
        }
        assert!((dist(ps[0], location) - 1.4).abs() < 1e-9);
    }
}

#[test]
fn placement_by_several_atoms_keeps_the_bond_length() {
    let ids = Ids { coord: vec![1, 2, 4], stem: Some([1, 2]), plane: Some([1, 2, 3]) };
    let p = params(&ids, None, Some(90.0), Some(0.0));
    let location = pt(-3.0, 0.25, 7.0);
    let mut fragment = branched();
    let before = pairwise(&fragment);
    multiple_coord::<Na, ()>(&mut fragment, &p, location);
    let ps = positions(&fragment);
    let centroid = centroid_of_points::<Na>(&[ps[0], ps[1], ps[3]]);
    assert!(close(centroid, pt(-3.0, 0.25, 8.4)));
    assert!((dist(centroid, location) - 1.4).abs() < 1e-9);
    assert!(same_distances(&before, &pairwise(&fragment)));
}

#[test]
fn two_runs_give_the_same_bits() {
    let run = || {
        let ids = Ids { coord: vec![2], stem: Some([2, 1]), plane: Some([1, 3, 4]) };
        let p = params(&ids, Some(Vector3 { x: -1.0, y: 0.4, z: 0.0 }), Some(40.0), Some(30.0));
        let ready = AdsorptionBuilder::<Na, (), BareLattice>::new(model(&[(1.0, 2.0, 3.0), (2.0, 2.0, 3.0)]))
            .add_adsorbate(branched())
            .with_location_at_sites(&[1, 2])
            .unwrap()
            .with_ads_params(p)
            .unwrap()
            .init_ads(4)
            .unwrap()
            .place_adsorbate()
            .unwrap();
        bits(&ready.build_adsorbed_lattice())
    };
    assert_eq!(run(), run());
}

#[test]
fn the_location_is_the_centroid_of_the_sites() {
    let host = model(&[(0.0, 0.0, 0.0), (2.0, 4.0, 6.0), (4.0, -1.0, 0.0)]);
    let builder = AdsorptionBuilder::<Na, (), BareLattice>::new(host)
        .add_adsorbate(bent())
        .with_location_at_sites(&[1, 2, 3])
        .unwrap();
    let location = builder.location().unwrap();
    assert_eq!((location.x, location.y, location.z), (2.0, 1.0, 2.0));
}

#[test]
fn a_site_that_is_no_host_atom_is_refused() {
    for sites in [vec![0], vec![2], vec![1, 5]] {
        let r = AdsorptionBuilder::<Na, (), BareLattice>::new(host_at_origin())
            .add_adsorbate(bent())
            .with_location_at_sites(&sites);
        assert!(matches!(r, Err(AssembleError::InvalidIndex)));
    }
}

#[test]
fn parameters_without_a_location_are_refused() {
    let ids = stem_and_plane(&[1]);
    let r = AdsorptionBuilder::<Na, (), BareLattice>::new(host_at_origin())
        .add_adsorbate(bent())
        .with_ads_params(params(&ids, None, Some(90.0), Some(0.0)));
    assert!(matches!(r, Err(AssembleError::MissingLocation)));
}

#[test]
fn parameters_with_a_foreign_atom_id_are_refused() {
    let bad = [
        Ids { coord: vec![4], stem: Some([1, 2]), plane: Some([1, 2, 3]) },
        Ids { coord: vec![1, 0], stem: Some([1, 2]), plane: Some([1, 2, 3]) },
        Ids { coord: vec![1], stem: Some([1, 9]), plane: Some([1, 2, 3]) },
        Ids { coord: vec![1], stem: Some([1, 2]), plane: Some([1, 2, 4]) },
    ];
    for ids in &bad {
        let r = AdsorptionBuilder::<Na, (), BareLattice>::new(host_at_origin())
            .add_adsorbate(bent())
            .with_location_at_sites(&[1])
            .unwrap()
            .with_ads_params(params(ids, None, Some(90.0), Some(0.0)));
        assert!(matches!(r, Err(AssembleError::InvalidIndex)));
    }
}

fn param_set<'a>(
    fragment: LatticeModel<f64, ()>,
    p: AdsParams<'a, f64>,
) -> AdsorptionBuilder<'a, Na, (), adsorption::assemble::builder::ParamSet> {
    AdsorptionBuilder::<Na, (), BareLattice>::new(host_at_origin())
        .add_adsorbate(fragment)
        .with_location_at_sites(&[1])
        .unwrap()
        .with_ads_params(p)
        .unwrap()
}

#[test]
fn a_marker_atom_that_is_no_fragment_atom_is_refused() {
    let ids = stem_and_plane(&[1]);
    for upper in [0, 4] {
        let r = param_set(bent(), params(&ids, None, Some(90.0), Some(0.0))).init_ads(upper);
        assert!(matches!(r, Err(AssembleError::InvalidIndex)));
    }
}

#[test]
fn a_plane_angle_without_plane_atoms_is_refused() {
    let ids = Ids { coord: vec![1], stem: Some([1, 2]), plane: None };
    let r = param_set(bent(), params(&ids, None, Some(90.0), Some(0.0))).init_ads(3);
    assert!(matches!(r, Err(AssembleError::MissingPlane)));
}

#[test]
fn a_fragment_of_two_atoms_is_not_rolled() {
    let ids = Ids { coord: vec![1], stem: Some([1, 2]), plane: None };
    let two = model(&[(0.0, 0.0, 0.0), (0.4, 0.9, 0.6)]);
    let r = param_set(two, params(&ids, None, Some(90.0), Some(90.0))).init_ads(2);
    assert!(r.is_ok());
}

#[test]
fn a_pitch_without_an_angle_is_refused() {
    let ids = stem_and_plane(&[1]);
    let r = param_set(bent(), params(&ids, None, Some(90.0), None)).init_ads(3);
    assert!(matches!(r, Err(AssembleError::MissingStemCoordAngle)));
}

#[test]
fn collinear_plane_atoms_stop_the_orientation() {
    let ids = stem_and_plane(&[1]);
    let line = model(&[(0.0, 0.0, 0.0), (1.0, 0.0, 0.0), (2.0, 0.0, 0.0)]);
    let r = param_set(line, params(&ids, None, Some(90.0), Some(0.0))).init_ads(3);
    assert!(matches!(r, Err(AssembleError::CollinearPoints)));
}

#[test]
fn a_stem_against_the_x_axis_is_turned_by_a_half_turn() {
    let ids = Ids { coord: vec![1], stem: Some([1, 2]), plane: None };
    let two = model(&[(2.0, 0.0, 0.0), (0.0, 0.0, 0.0)]);
    let built = param_set(two, params(&ids, None, None, Some(0.0))).init_ads(2).unwrap();
    let fragment = built.adsorbate().unwrap();
    assert!(close(*fragment.get_atom_by_id(1).unwrap().xyz(), pt(-1.0, 0.0, 0.0)));
    assert!(close(*fragment.get_atom_by_id(2).unwrap().xyz(), pt(1.0, 0.0, 0.0)));

    let ids = stem_and_plane(&[1]);
    let p = params(&ids, None, Some(90.0), Some(0.0));
    let mut back = model(&[(1.0, 0.0, 0.0), (0.0, 0.0, 0.0), (0.5, 1.0, 0.0)]);
    let before = pairwise(&back);
    align_stem::<Na, ()>(&mut back, &p).unwrap();
    assert!(same_distances(&before, &pairwise(&back)));
    let stem = get_stem_vector::<Na, ()>(&back, &p).unwrap().into_vector();
    assert!(stem.y.abs() < 1e-9 && stem.z.abs() < 1e-9 && (stem.x - 1.0).abs() < 1e-9);
    let mut back = model(&[(1.0, 0.0, 0.0), (0.0, 0.0, 0.0), (0.5, 1.0, 0.0)]);
    calibrate::<Na, ()>(&mut back, &p, 3).unwrap();
    assert!(same_distances(&before, &pairwise(&back)));
}

#[test]
fn a_plane_normal_against_its_target_is_turned_by_a_half_turn() {
    // The normal of the plane is (0, 0, -1); at a plane angle of zero the
    // target is (0, 0, 1).
    let ids = stem_and_plane(&[1]);
    let p = params(&ids, None, Some(0.0), Some(0.0));
    let mut flat = model(&[(-1.0, 0.0, 0.0), (1.0, 0.0, 0.0), (0.0, -1.0, 0.0)]);
    let before = pairwise(&flat);
    roll_ads::<Na, ()>(&mut flat, &p, 1).unwrap();
    assert!(same_distances(&before, &pairwise(&flat)));
    assert!(close(*flat.get_atom_by_id(1).unwrap().xyz(), pt(-1.0, 0.0, 0.0)));
    assert!(close(*flat.get_atom_by_id(2).unwrap().xyz(), pt(1.0, 0.0, 0.0)));
    assert!(close(*flat.get_atom_by_id(3).unwrap().xyz(), pt(0.0, 1.0, 0.0)));
}

#[test]
fn a_coordinate_that_is_not_finite_stops_the_orientation() {
    let ids = stem_and_plane(&[1]);
    let sound = model(&[(0.0, 0.0, 0.0), (1.0, 0.5, 0.0), (0.5, f64::MAX, f64::MIN_POSITIVE)]);
    assert!(check_coordinate::<Na, ()>(&sound).is_ok());
    for bad in [f64::NAN, f64::INFINITY, f64::NEG_INFINITY] {
        for place in 0..3 {
            let mut last = (0.5, 1.0, 0.0);
            match place {
                0 => last.0 = bad,
                1 => last.1 = bad,
                _ => last.2 = bad,
            }
            let broken = model(&[(0.0, 0.0, 0.0), (1.0, 0.5, 0.0), last]);
            assert!(check_coordinate::<Na, ()>(&broken).is_err());
            let r = param_set(broken, params(&ids, None, None, Some(0.0))).init_ads(3);
            assert!(matches!(r, Err(AssembleError::InvalidCoord)));
        }
    }
}

#[test]
fn a_coordination_atom_on_the_stem_line_bonds_along_the_stem() {
    let ids = Ids { coord: vec![3], stem: Some([1, 2]), plane: None };
    let p = params(&ids, None, None, Some(0.0));
    let mut line = model(&[(0.0, 0.0, 0.0), (1.0, 0.0, 1.0), (3.0, 0.0, 3.0)]);
    let v = get_coord_stem_vector::<Na, ()>(&line, &p).unwrap();
    assert_eq!((v.x, v.y, v.z), (1.0, 0.0, 1.0));
    place::<Na, ()>(&mut line, &p, pt(0.0, 0.0, 0.0)).unwrap();
    let h = 1.4 * 0.5f64.sqrt();
    assert!(close(*line.get_atom_by_id(3).unwrap().xyz(), pt(h, 0.0, h)));
    assert!(close(*line.get_atom_by_id(1).unwrap().xyz(), pt(h - 3.0, 0.0, h - 3.0)));

    // A stem that points downward is reversed.
    let down = model(&[(0.0, 0.0, 0.0), (1.0, 0.0, -1.0), (3.0, 0.0, -3.0)]);
    let v = get_coord_stem_vector::<Na, ()>(&down, &p).unwrap();
    assert_eq!((v.x, v.y, v.z), (-1.0, 0.0, 1.0));
}

#[test]
fn a_single_atom_is_only_aligned_and_centered() {
    let ids = Ids { coord: vec![1], stem: None, plane: None };
    let built = param_set(model(&[(3.0, -2.0, 1.0)]), params(&ids, None, None, Some(0.0)))
        .init_ads(1)
        .unwrap();
    let at = *built.adsorbate().unwrap().get_atom_by_id(1).unwrap().xyz();
    assert!(close(at, pt(0.0, 0.0, 0.0)));
    let placed = built.place_adsorbate().unwrap().build_adsorbed_lattice();
    assert!(close(*placed.get_atom_by_id(2).unwrap().xyz(), pt(0.0, 0.0, 1.4)));
}

#[test]
fn a_virtual_stem_is_oriented_and_placed() {
    let ids = Ids { coord: vec![1], stem: Some([1, 1]), plane: Some([2, 3, 4]) };
    let p = params(&ids, None, Some(0.0), Some(90.0));
    assert!(matches!(
        get_stem_vector::<Na, ()>(&methyl(), &p).unwrap(),
        StemType::VirtualStem(_)
    ));
    let ready = param_set(methyl(), p).init_ads(2).unwrap().place_adsorbate().unwrap();
    let fragment = ready.adsorbate().unwrap();
    assert!(check_coordinate::<Na, ()>(fragment).is_ok());
    let coord = *fragment.get_atom_by_id(1).unwrap().xyz();
    assert!((dist(coord, pt(0.0, 0.0, 0.0)) - 1.4).abs() < 1e-9);
}

#[test]
fn the_yaw_turns_the_stem_toward_the_direction() {
    let ids = stem_and_plane(&[1]);
    let direction = Vector3 { x: 0.3, y: 1.0, z: 0.2 };
    let p = params(&ids, Some(direction), Some(90.0), Some(0.0));
    let mut fragment = bent();
    calibrate::<Na, ()>(&mut fragment, &p, 3).unwrap();
    let stem = match get_stem_vector::<Na, ()>(&fragment, &p).unwrap() {
        StemType::RealStem(v) => v,
        StemType::VirtualStem(_) => panic!("two different stem atoms make a real stem"),
    };
    let a = na::Vector3::new(stem.x, stem.y, 0.0).normalize();
    let b = na::Vector3::new(direction.x, direction.y, 0.0).normalize();
    assert!(a.dot(&b) > 1.0 - 1e-9);
}

#[test]
fn the_upright_flip_lifts_the_marker_atom() {
    let ids = stem_and_plane(&[1]);
    let p = params(&ids, None, Some(90.0), Some(0.0));
    let mut hanging = model(&[(0.0, 0.0, 0.0), (1.0, 0.0, 0.0), (0.5, 0.25, -1.0)]);
    flip_up::<Na, ()>(&mut hanging, &p, 3);
    assert!(close(positions(&hanging)[2], pt(0.5, -0.25, 1.0)));
    let mut standing = model(&[(0.0, 0.0, 0.0), (1.0, 0.0, 0.0), (0.5, 0.25, 1.0)]);
    flip_up::<Na, ()>(&mut standing, &p, 3);
    assert_eq!(bits(&standing), bits(&model(&[(0.0, 0.0, 0.0), (1.0, 0.0, 0.0), (0.5, 0.25, 1.0)])));
}

#[test]
fn the_roll_lays_the_plane_at_its_angle() {
    // The plane is the x-y plane; at 90 degrees to the vertical its normal
    // comes to lie along the y axis.
    let ids = stem_and_plane(&[1]);
    let p = params(&ids, None, Some(90.0), Some(0.0));
    let mut fragment = model(&[(0.0, 0.0, 0.0), (1.0, 0.0, 0.0), (0.0, 1.0, 0.0)]);
    roll_ads::<Na, ()>(&mut fragment, &p, 2).unwrap();
    let ps = positions(&fragment);
    let normal = Na::cross(Na::displacement(ps[1], ps[0]), Na::displacement(ps[2], ps[0]));
    assert!((normal.x).abs() < 1e-9 && (normal.y - 1.0).abs() < 1e-9 && normal.z.abs() < 1e-9);
}

#[test]
fn the_pitch_sets_the_angle_of_the_stem() {
    // A stem along the x axis, pitched by 90 degrees, stands upright with
    // the coordination atom below.
    let ids = Ids { coord: vec![1], stem: Some([1, 2]), plane: None };
    let p = params(&ids, None, None, Some(90.0));
    let mut fragment = model(&[(-0.5, 0.0, 0.0), (0.5, 0.0, 0.0)]);
    pitch_ads::<Na, ()>(&mut fragment, &p).unwrap();
    let ps = positions(&fragment);
    assert!(close(ps[0], pt(0.0, 0.0, -0.5)));
    assert!(close(ps[1], pt(0.0, 0.0, 0.5)));
}

#[test]
fn the_merge_renumbers_the_fragment() {
    let ids = stem_and_plane(&[1]);
    let host = model(&[(0.0, 0.0, 0.0), (5.0, 5.0, 5.0)]);
    let merged = AdsorptionBuilder::<Na, (), BareLattice>::new(host)
        .add_adsorbate(bent())
        .with_location_at_sites(&[1])
        .unwrap()
        .with_ads_params(params(&ids, None, Some(90.0), Some(0.0)))
        .unwrap()
        .init_ads(3)
        .unwrap()
        .place_adsorbate()
        .unwrap()
        .build_adsorbed_lattice();
    let ids: Vec<u32> = merged.atoms().iter().map(|a| a.atom_id()).collect();
    assert_eq!(ids, vec![1, 2, 3, 4, 5]);
    assert_eq!(bits(&merged)[..2], bits(&model(&[(0.0, 0.0, 0.0), (5.0, 5.0, 5.0)]))[..]);
    assert!(merged.lattice_vectors().is_none());
}

#[test]
fn the_band_lies_strictly_between_its_bounds() {
    for inside in [1.5, 30.0, 60.9, 119.1, 150.0, 178.9] {
        assert!(in_band::<Na>(inside));
    }
    for outside in [0.0, 0.5, 1.0, 61.0, 61.5, 90.0, 118.9, 119.0, 179.0, 179.5, 180.0, f64::NAN] {
        assert!(!in_band::<Na>(outside));
    }
}

#[test]
fn directions_count_as_parallel_within_a_thousandth() {
    for cosine in [1.0, -1.0, 0.9995, -0.9995, 1.0005] {
        assert!(!apart::<Na>(cosine));
    }
    for cosine in [0.0, 0.5, 0.9985, -0.9985, 1.0015, -0.7] {
        assert!(apart::<Na>(cosine));
    }
    assert!(!apart::<Na>(f64::NAN));
}

#[test]
fn the_point_above_a_location_is_lifted_by_the_bond_length() {
    let p = lifted::<Na>(pt(1.0, -2.0, 0.25), 1.5);
    assert_eq!((p.x, p.y, p.z), (1.0, -2.0, 1.75));
}

#[test]
fn what_the_parameters_lack_is_found_before_anything_moves() {
    let ids = Ids { coord: vec![1], stem: Some([1, 2]), plane: None };
    let no_plane = params(&ids, None, Some(90.0), Some(0.0));
    assert_eq!(orientation_config_check(&bent(), &no_plane, 3), Some(AssembleError::MissingPlane));
    assert_eq!(orientation_config_check(&bent(), &no_plane, 4), Some(AssembleError::InvalidIndex));
    let two = model(&[(0.0, 0.0, 0.0), (1.0, 1.0, 1.0)]);
    assert_eq!(orientation_config_check(&two, &no_plane, 2), None);
    let no_angle = params(&ids, None, None, None);
    assert_eq!(orientation_config_check(&bent(), &no_angle, 3), Some(AssembleError::MissingStemCoordAngle));
    let one = model(&[(0.0, 0.0, 0.0)]);
    assert_eq!(orientation_config_check(&one, &no_angle, 9), None);
    let mut fragment = bent();
    let before = bits(&fragment);
    assert_eq!(calibrate::<Na, ()>(&mut fragment, &no_plane, 3), Err(AssembleError::MissingPlane));
    assert_eq!(bits(&fragment), before);
}

#[test]
fn a_placed_fragment_can_be_merged_while_the_ids_fit() {
    let ids = stem_and_plane(&[1]);
    let mut late = bent();
    late.get_mut_atom_by_id(3).unwrap().set_atom_id(u32::MAX);
    let ready = param_set(late, params(&ids, None, Some(90.0), Some(0.0)))
        .init_ads(3)
        .unwrap()
        .place_adsorbate()
        .unwrap();
    assert!(!ready.can_merge());
    assert!(!host_at_origin().fits_for_merge(ready.adsorbate().unwrap()));
    let ready = param_set(bent(), params(&ids, None, Some(90.0), Some(0.0)))
        .init_ads(3)
        .unwrap()
        .place_adsorbate()
        .unwrap();
    assert!(ready.can_merge());
    assert_eq!(ready.host_lattice().atoms().len(), 1);
    assert!(ready.ads_params().is_some());
}

#[test]
fn the_kernel_keeps_distances_and_reaches_targets_up_to_rounding() {
    let a = pt(0.3, -1.2, 2.5);
    let b = pt(4.0, 0.5, -1.0);
    let apart = |p: Point3<f64>, q: Point3<f64>| {
        let d = Na::displacement(p, q);
        Na::dot(d, d)
    };
    let before = apart(a, b);
    let q = Na::axis_angle(Vector3 { x: 1.0, y: -2.0, z: 0.5 }, 0.7);
    assert!((apart(Na::rotate(q, a), Na::rotate(q, b)) - before).abs() < 1e-9 * before);
    let v = Vector3 { x: -3.0, y: 0.25, z: 8.0 };
    assert!((apart(Na::translate(a, v), Na::translate(b, v)) - before).abs() < 1e-9 * before);
    assert!(close(Na::translate(a, Na::displacement(b, a)), b));
    let x = Vector3 { x: 1.0, y: 0.0, z: 0.0 };
    let turn = Na::rotation_between(Na::displacement(b, a), x).unwrap();
    let turned = Na::displacement(Na::rotate(turn, b), Na::rotate(turn, a));
    assert!(Na::angle(turned, x).abs() < 1e-7);
    let lifted_up = lifted::<Na>(a, 1.4);
    assert!((apart(lifted_up, a) - 1.4 * 1.4).abs() < 1e-9);
    let along = Na::translate(a, Na::scale(Na::normalize(v), 1.4));
    assert!((apart(along, a) - 1.4 * 1.4).abs() < 1e-9);
    let moved = [Na::translate(a, v), Na::translate(b, v)];
    assert!(close(centroid_of_points::<Na>(&moved), Na::translate(centroid_of_points::<Na>(&[a, b]), v)));
}
