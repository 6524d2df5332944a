//! Points, vectors and the reference vectors of a fragment, computed on
//! double-precision numbers through nalgebra.
use adsorption::assemble::params::{AdsParams, AdsParamsBuilder};
use adsorption::assemble::resolver::{
    get_coord_stem_vector, get_plane_normal, get_stem_vector, position_of, upward, StemType,
};
use adsorption::atom::Atom;
use adsorption::error::{AssembleError, InvalidIndex};
use adsorption::kernel::{Kernel, Point3, Rotation, Vector3};
use adsorption::lattice::{is_valid_id, LatticeModel, LatticeVectors};
use adsorption::math_helper::{
    centroid_of_points, line_plane_intersect, perpendicular_foot,
    perpendicular_vec_through_a_point, plane_normal,
};
use adsorption::model_type::msi::MsiModel;
use adsorption::molecule::adsorbate::AdsorbateTraits;
use adsorption::molecule::Molecule;
use nalgebra as na;

/// Double-precision arithmetic, with vectors and rotations by nalgebra.
struct Na;

fn nv(a: Vector3<f64>) -> na::Vector3<f64> {
    na::Vector3::new(a.x, a.y, a.z)
}

fn np(a: Point3<f64>) -> na::Point3<f64> {
    na::Point3::new(a.x, a.y, a.z)
}

fn lv(a: na::Vector3<f64>) -> Vector3<f64> {
    Vector3 { x: a.x, y: a.y, z: a.z }
}

fn lp(a: na::Point3<f64>) -> Point3<f64> {
    Point3 { x: a.x, y: a.y, z: a.z }
}

fn nq(r: Rotation<f64>) -> na::UnitQuaternion<f64> {
    na::UnitQuaternion::new_unchecked(na::Quaternion::new(r.w, r.i, r.j, r.k))
}

fn lq(q: na::UnitQuaternion<f64>) -> Rotation<f64> {
    Rotation { w: q.w, i: q.i, j: q.j, k: q.k }
}

impl Kernel for Na {
    type Scalar = f64;

    fn from_int(n: i32) -> f64 {
        f64::from(n)
    }

    fn from_count(n: usize) -> f64 {
        n as f64
    }

    fn pi() -> f64 {
        std::f64::consts::PI
    }

    fn epsilon() -> f64 {
        f64::EPSILON
    }

    fn sum(a: f64, b: f64) -> f64 {
        a + b
    }

    fn difference(a: f64, b: f64) -> f64 {
        a - b
    }

    fn product(a: f64, b: f64) -> f64 {
        a * b
    }

    fn quotient(a: f64, b: f64) -> f64 {
        a / b
    }

    fn abs(a: f64) -> f64 {
        a.abs()
    }

    fn cos(a: f64) -> f64 {
        a.cos()
    }

    fn sin(a: f64) -> f64 {
        a.sin()
    }

    fn to_radians(a: f64) -> f64 {
        a.to_radians()
    }

    fn to_degrees(a: f64) -> f64 {
        a.to_degrees()
    }

    fn less(a: f64, b: f64) -> bool {
        a < b
    }

    fn equal(a: f64, b: f64) -> bool {
        a == b
    }

    fn is_nan(a: f64) -> bool {
        a.is_nan()
    }

    fn displacement(to: Point3<f64>, from: Point3<f64>) -> Vector3<f64> {
        lv(np(to) - np(from))
    }

    fn cross(a: Vector3<f64>, b: Vector3<f64>) -> Vector3<f64> {
        lv(nv(a).cross(&nv(b)))
    }

    fn dot(a: Vector3<f64>, b: Vector3<f64>) -> f64 {
        nv(a).dot(&nv(b))
    }

    fn angle(a: Vector3<f64>, b: Vector3<f64>) -> f64 {
        nv(a).angle(&nv(b))
    }

    fn normalize(a: Vector3<f64>) -> Vector3<f64> {
        lv(nv(a).normalize())
    }

    fn scale(a: Vector3<f64>, s: f64) -> Vector3<f64> {
        lv(nv(a).scale(s))
    }

    fn translate(p: Point3<f64>, v: Vector3<f64>) -> Point3<f64> {
        lp(na::Translation3::from(nv(v)).transform_point(&np(p)))
    }

    fn center(a: Point3<f64>, b: Point3<f64>) -> Point3<f64> {
        lp(na::center(&np(a), &np(b)))
    }

    fn rotation_between(a: Vector3<f64>, b: Vector3<f64>) -> Option<Rotation<f64>> {
        na::UnitQuaternion::rotation_between(&nv(a), &nv(b)).map(lq)
    }

    fn axis_angle(axis: Vector3<f64>, angle: f64) -> Rotation<f64> {
        lq(na::UnitQuaternion::from_axis_angle(&na::Unit::new_normalize(nv(axis)), angle))
    }

    fn rotate(q: Rotation<f64>, p: Point3<f64>) -> Point3<f64> {
        lp(nq(q).transform_point(&np(p)))
    }
}

fn pt(x: f64, y: f64, z: f64) -> Point3<f64> {
    Point3 { x, y, z }
}

fn atom(symbol: &str, element_id: u32, xyz: Point3<f64>, atom_id: u32) -> Atom<f64, ()> {
    Atom::new(symbol.to_string(), element_id, xyz, atom_id, ())
}

fn model(points: &[(f64, f64, f64)]) -> LatticeModel<f64, ()> {
    let atoms = points
        .iter()
        .enumerate()
        .map(|(i, &(x, y, z))| atom("C", 6, pt(x, y, z), i as u32 + 1))
        .collect();
    LatticeModel::new(None, atoms, ())
}

fn dist(a: Point3<f64>, b: Point3<f64>) -> f64 {
    (np(a) - np(b)).norm()
}

fn close(a: Point3<f64>, b: Point3<f64>) -> bool {
    dist(a, b) < 1e-9
}

fn vc(x: f64, y: f64, z: f64) -> Vector3<f64> {
    Vector3 { x, y, z }
}

fn near(a: Vector3<f64>, b: Vector3<f64>) -> bool {
    (nv(a) - nv(b)).norm() < 1e-9
}

fn xyz(p: Point3<f64>) -> (f64, f64, f64) {
    (p.x, p.y, p.z)
}

#[test]
fn test_plane_normal() {
    let a = pt(1., 1., 1.);
    let b = pt(2., 2., 2.);
    let c = pt(-1., -1., -1.);
    let result = plane_normal::<Na>(&a, &b, &c);
    match result {
        Ok(vec) => println!("{:?}", vec),
        Err(e) => println!("{}", e.message()),
    }
}

#[test]
fn the_normal_of_a_plane_is_the_cross_product_of_its_edges() {
    let n = plane_normal::<Na>(&pt(0.0, 0.0, 0.0), &pt(1.0, 0.0, 0.0), &pt(0.0, 1.0, 0.0)).unwrap();
    assert_eq!((n.x, n.y, n.z), (0.0, 0.0, 1.0));
    let n = plane_normal::<Na>(&pt(1.0, 1.0, 1.0), &pt(1.0, 3.0, 1.0), &pt(4.0, 1.0, 1.0)).unwrap();
    assert_eq!((n.x, n.y, n.z), (0.0, 0.0, -6.0));
}

#[test]
fn collinear_plane_atoms_are_refused() {
    let r = plane_normal::<Na>(&pt(0.0, 0.0, 0.0), &pt(1.0, 0.0, 0.0), &pt(2.0, 0.0, 0.0));
    assert!(r.is_err());
    let opposite = plane_normal::<Na>(&pt(0.0, 0.0, 0.0), &pt(1.0, 0.0, 0.0), &pt(-2.0, 0.0, 0.0));
    assert!(opposite.is_err());
    let twice = plane_normal::<Na>(&pt(0.0, 0.0, 0.0), &pt(1.0, 0.0, 0.0), &pt(1.0, 0.0, 0.0));
    assert!(twice.is_err());
}

#[test]
fn the_centroid_is_the_mean_of_the_points() {
    let c = centroid_of_points::<Na>(&[pt(0.0, 0.0, 0.0), pt(2.0, 4.0, 6.0)]);
    assert_eq!(xyz(c), (1.0, 2.0, 3.0));
    let c = centroid_of_points::<Na>(&[pt(1.5, -2.0, 0.25)]);
    assert_eq!(xyz(c), (1.5, -2.0, 0.25));
    let c = centroid_of_points::<Na>(&[pt(3.0, 0.0, 0.0), pt(0.0, 3.0, 0.0), pt(0.0, 0.0, 3.0)]);
    assert_eq!(xyz(c), (1.0, 1.0, 1.0));
}

#[test]
fn the_line_meets_the_plane() {
    let hit = line_plane_intersect::<Na>(
        &pt(0.0, 0.0, 0.0),
        &pt(0.0, 0.0, 2.0),
        &vc(0.0, 0.0, 1.0),
        &vc(0.0, 0.0, 1.0),
    );
    assert_eq!(xyz(hit), (0.0, 0.0, 2.0));
    let hit = line_plane_intersect::<Na>(
        &pt(0.0, 0.0, 1.0),
        &pt(0.0, 0.0, 0.0),
        &vc(0.0, 0.0, 1.0),
        &vc(0.0, 0.0, 1.0),
    );
    assert_eq!(xyz(hit), (0.0, 0.0, 0.0));
    let plane_point = pt(0.0, 0.0, 1.0);
    let normal = vc(0.0, 0.0, 2.0);
    let hit = line_plane_intersect::<Na>(&pt(1.0, 1.0, 4.0), &plane_point, &normal, &vc(1.0, 0.0, 1.0));
    assert_eq!(xyz(hit), (-2.0, 1.0, 1.0));
    assert_eq!(Na::dot(Na::displacement(hit, plane_point), normal), 0.0);
}

#[test]
fn the_perpendicular_leads_from_its_foot_on_the_line_to_the_point() {
    let point = pt(1.0, 1.0, 0.0);
    let from = pt(0.0, 0.0, 0.0);
    let to = pt(2.0, 0.0, 0.0);
    let foot = perpendicular_foot::<Na>(&point, &from, &to).unwrap();
    assert_eq!(xyz(foot), (1.0, 0.0, 0.0));
    let v = perpendicular_vec_through_a_point::<Na>(&point, &from, &to).unwrap();
    assert_eq!((v.x, v.y, v.z), (0.0, 1.0, 0.0));
    assert_eq!(Na::dot(v, Na::displacement(to, from)), 0.0);
}

#[test]
fn a_point_on_the_line_has_no_perpendicular() {
    let from = pt(0.0, 0.0, 0.0);
    let to = pt(2.0, 0.0, 0.0);
    assert!(perpendicular_vec_through_a_point::<Na>(&pt(3.0, 0.0, 0.0), &from, &to).is_none());
    assert!(perpendicular_vec_through_a_point::<Na>(&pt(-3.0, 0.0, 0.0), &from, &to).is_none());
    assert!(perpendicular_foot::<Na>(&pt(1.0, 0.0, 0.0), &from, &to).is_none());
}

fn ids(coord: &'static [u32], stem: Option<&'static [u32; 2]>, plane: Option<&'static [u32; 3]>) -> AdsParams<'static, f64> {
    AdsParamsBuilder::new()
        .with_bond_length(1.4)
        .with_coord_atom_ids(coord)
        .with_stem_atom_ids(stem)
        .with_plane_atom_ids(plane)
        .finish()
        .unwrap()
}

fn chain() -> LatticeModel<f64, ()> {
    model(&[(0.0, 0.0, 0.0), (2.0, 0.0, 0.0), (1.0, 0.0, -1.0), (0.5, 2.0, 0.0)])
}

#[test]
fn a_real_stem_leads_from_the_first_stem_atom_to_the_second() {
    let p = ids(&[1], Some(&[2, 4]), None);
    match get_stem_vector::<Na, ()>(&chain(), &p).unwrap() {
        StemType::RealStem(v) => assert_eq!((v.x, v.y, v.z), (-1.5, 2.0, 0.0)),
        StemType::VirtualStem(_) => panic!("two different stem atoms make a real stem"),
    }
}

#[test]
fn a_fragment_without_stem_atoms_has_the_vertical_for_its_stem() {
    let p = ids(&[1], None, None);
    match get_stem_vector::<Na, ()>(&chain(), &p).unwrap() {
        StemType::VirtualStem(v) => assert_eq!((v.x, v.y, v.z), (0.0, 0.0, 1.0)),
        StemType::RealStem(_) => panic!("no stem atoms make a virtual stem"),
    }
}

#[test]
fn a_virtual_stem_stands_on_the_plane() {
    // The anchor sits one above the plane z = 0.
    let fragment = model(&[(0.0, 0.0, 1.0), (1.0, 0.0, 0.0), (0.0, 1.0, 0.0), (-1.0, -1.0, 0.0)]);
    let p = ids(&[1], Some(&[1, 1]), Some(&[2, 3, 4]));
    let stem = get_stem_vector::<Na, ()>(&fragment, &p).unwrap();
    assert!(matches!(stem, StemType::VirtualStem(_)));
    let v = stem.into_vector();
    assert!(near(v, vc(0.0, 0.0, -1.0)));
    // The stem ends in the plane, whichever side the anchor is on.
    let below = model(&[(0.5, 0.5, -3.0), (1.0, 0.0, 0.0), (0.0, 1.0, 0.0), (-1.0, -1.0, 0.0)]);
    let v = get_stem_vector::<Na, ()>(&below, &p).unwrap().into_vector();
    assert!(near(v, vc(0.0, 0.0, 3.0)));
    let collinear = model(&[(0.0, 0.0, 1.0), (1.0, 0.0, 0.0), (2.0, 0.0, 0.0), (3.0, 0.0, 0.0)]);
    let r = get_stem_vector::<Na, ()>(&collinear, &p);
    assert!(matches!(r, Err(AssembleError::CollinearPoints)));
}

#[test]
fn the_plane_normal_of_a_fragment_needs_plane_atoms() {
    let none = ids(&[1], Some(&[1, 2]), None);
    assert!(get_plane_normal::<Na, ()>(&chain(), &none).unwrap().is_none());
    let some = ids(&[1], Some(&[1, 2]), Some(&[1, 2, 4]));
    let n = get_plane_normal::<Na, ()>(&chain(), &some).unwrap().unwrap();
    assert_eq!((n.x, n.y, n.z), (0.0, 0.0, 4.0));
}

#[test]
fn the_bonding_direction_of_an_atom_on_the_stem_is_the_stem_pointing_upward() {
    let fragment = model(&[(0.0, 0.0, 0.0), (1.0, 2.0, -3.0)]);
    let p = ids(&[1], Some(&[1, 2]), None);
    let v = get_coord_stem_vector::<Na, ()>(&fragment, &p).unwrap();
    assert_eq!((v.x, v.y, v.z), (-1.0, -2.0, 3.0));
    let back = ids(&[2], Some(&[2, 1]), None);
    let v = get_coord_stem_vector::<Na, ()>(&fragment, &back).unwrap();
    assert_eq!((v.x, v.y, v.z), (-1.0, -2.0, 3.0));
}

#[test]
fn the_bonding_direction_of_an_atom_off_the_stem_is_square_to_the_stem() {
    let p = ids(&[3], Some(&[1, 2]), None);
    let v = get_coord_stem_vector::<Na, ()>(&chain(), &p).unwrap();
    assert!(near(v, vc(0.0, 0.0, 1.0)));
    let side = ids(&[4], Some(&[1, 2]), None);
    let v = get_coord_stem_vector::<Na, ()>(&chain(), &side).unwrap();
    assert!(near(v, vc(0.0, 2.0, 0.0)));
    assert_eq!(Na::dot(v, vc(2.0, 0.0, 0.0)), 0.0);
}

#[test]
fn with_several_coordination_atoms_the_bonding_direction_is_the_stem() {
    let p = ids(&[3, 4], Some(&[1, 2]), None);
    let v = get_coord_stem_vector::<Na, ()>(&chain(), &p).unwrap();
    assert_eq!((v.x, v.y, v.z), (2.0, 0.0, 0.0));
}

#[test]
fn a_vector_that_points_downward_is_reversed() {
    let up = upward::<Na>(vc(1.0, 2.0, -3.0));
    assert_eq!((up.x, up.y, up.z), (-1.0, -2.0, 3.0));
    let kept = upward::<Na>(vc(1.0, 2.0, 0.0));
    assert_eq!((kept.x, kept.y, kept.z), (1.0, 2.0, 0.0));
}

#[test]
fn atoms_are_found_by_their_ids() {
    let m = chain();
    assert_eq!(xyz(*m.get_atom_by_id(1).unwrap().xyz()), (0.0, 0.0, 0.0));
    assert_eq!(xyz(*m.get_atom_by_id(4).unwrap().xyz()), (0.5, 2.0, 0.0));
    assert_eq!(xyz(position_of(&m, 3)), (1.0, 0.0, -1.0));
    assert!(matches!(m.get_atom_by_id(0), Err(InvalidIndex)));
    assert!(matches!(m.get_atom_by_id(5), Err(InvalidIndex)));
    assert!(is_valid_id(4, 4) && !is_valid_id(0, 4) && !is_valid_id(5, 4) && !is_valid_id(1, 0));
}

#[test]
fn the_vector_between_two_atoms_needs_both() {
    let m = chain();
    let v = m.get_vector_ab::<Na>(2, 4).unwrap();
    assert_eq!((v.x, v.y, v.z), (-1.5, 2.0, 0.0));
    assert!(m.get_vector_ab::<Na>(0, 4).is_err());
    assert!(m.get_vector_ab::<Na>(2, 5).is_err());
    let through_trait = Molecule::get_vector_ab::<Na>(&m, 4, 2).unwrap();
    assert_eq!((through_trait.x, through_trait.y, through_trait.z), (1.5, -2.0, 0.0));
}

#[test]
fn an_atom_is_changed_in_place() {
    let mut m = chain();
    m.get_mut_atom_by_id(2).unwrap().set_xyz(pt(9.0, 8.0, 7.0));
    assert_eq!(xyz(*m.get_atom_by_id(2).unwrap().xyz()), (9.0, 8.0, 7.0));
    assert_eq!(xyz(*m.get_atom_by_id(1).unwrap().xyz()), (0.0, 0.0, 0.0));
    assert!(m.get_mut_atom_by_id(5).is_err());
    m.atoms_mut().pop();
    assert_eq!(m.atoms().len(), 3);
    Molecule::get_mut_atom_by_id(&mut m, 1).unwrap().set_atom_id(11);
    assert_eq!(Molecule::get_atom_by_id(&m, 1).unwrap().atom_id(), 11);
    assert_eq!(Molecule::get_atoms(&m).len(), 3);
    assert!(Molecule::get_mut_atom_by_id(&mut m, 4).is_err());
}

#[test]
fn a_model_is_turned_and_moved_as_one() {
    let mut m = chain();
    m.translate::<Na>(&vc(1.0, -1.0, 0.5));
    let moved: Vec<_> = m.atoms().iter().map(|a| xyz(*a.xyz())).collect();
    assert_eq!(moved, vec![(1.0, -1.0, 0.5), (3.0, -1.0, 0.5), (2.0, -1.0, -0.5), (1.5, 1.0, 0.5)]);
    let quarter = Na::axis_angle(vc(0.0, 0.0, 1.0), std::f64::consts::FRAC_PI_2);
    let mut m = chain();
    m.rotate::<Na>(&quarter);
    assert!(close(*m.get_atom_by_id(2).unwrap().xyz(), pt(0.0, 2.0, 0.0)));
    assert!(close(*m.get_atom_by_id(4).unwrap().xyz(), pt(-2.0, 0.5, 0.0)));
    let mut a = atom("H", 1, pt(1.0, 0.0, 0.0), 7);
    a.rotate::<Na>(&quarter);
    assert!(close(*a.xyz(), pt(0.0, 1.0, 0.0)));
    a.translate::<Na>(&vc(0.0, -1.0, 2.0));
    assert!(close(*a.xyz(), pt(0.0, 0.0, 2.0)));
    assert_eq!((a.atom_id(), a.element_id(), a.element_symbol()), (7, 1, "H"));
}

#[test]
fn models_are_merged_with_the_ids_of_the_second_raised() {
    let cell = LatticeVectors::new([vc(10.0, 0.0, 0.0), vc(0.0, 10.0, 0.0), vc(0.0, 0.0, 10.0)], ());
    let host = LatticeModel::new(Some(cell), chain().atoms().to_vec(), ());
    let merged = host.merge(model(&[(5.0, 5.0, 5.0), (6.0, 6.0, 6.0)]));
    let numbers: Vec<u32> = merged.atoms().iter().map(|a| a.atom_id()).collect();
    assert_eq!(numbers, vec![1, 2, 3, 4, 5, 6]);
    assert_eq!(xyz(*merged.get_atom_by_id(6).unwrap().xyz()), (6.0, 6.0, 6.0));
    let kept = merged.lattice_vectors().unwrap().vectors();
    assert_eq!((kept[0].x, kept[1].y, kept[2].z), (10.0, 10.0, 10.0));
}

fn element(symbol: &str, element_id: u32, atom_id: u32) -> Atom<f64, ()> {
    atom(symbol, element_id, pt(0.0, 0.0, 0.0), atom_id)
}

#[test]
fn the_elements_of_a_model_are_listed_once_by_rising_number() {
    let atoms = vec![
        element("O", 8, 1),
        element("C", 6, 2),
        element("Ag", 47, 3),
        element("C", 6, 4),
        element("H", 1, 5),
        element("O", 8, 6),
        element("D", 1, 7),
    ];
    let m = LatticeModel::new(None, atoms, ());
    assert_eq!(m.list_element(), vec!["H", "D", "C", "O", "Ag"]);
    let pairs = m.element_pairs();
    assert_eq!(pairs[4], ("Ag".to_string(), 47));
    let empty: LatticeModel<f64, ()> = LatticeModel::new(None, vec![], ());
    assert!(empty.list_element().is_empty());
}

#[test]
fn atoms_are_compared_by_their_ids() {
    let a = atom("C", 6, pt(0.0, 0.0, 0.0), 3);
    let b = atom("O", 8, pt(1.0, 1.0, 1.0), 3);
    let c = atom("C", 6, pt(0.0, 0.0, 0.0), 4);
    assert!(a == b);
    assert!(a != c);
    assert!(a < c && c > b && a <= b && a >= b);
    assert_eq!(a.partial_cmp(&c), Some(std::cmp::Ordering::Less));
}

#[test]
fn an_atom_gives_back_what_it_was_given() {
    let mut a = Atom::new("C".to_string(), 6, pt(1.0, 2.0, 3.0), 5, 'm');
    assert_eq!((a.element_symbol(), a.element_id(), a.atom_id(), *a.model_type()), ("C", 6, 5, 'm'));
    a.set_element_symbol("Si".to_string());
    a.set_element_id(14);
    a.set_atom_id(9);
    a.set_model_type('n');
    a.set_xyz(pt(0.0, 0.5, 1.0));
    assert_eq!((a.element_symbol(), a.element_id(), a.atom_id(), *a.model_type()), ("Si", 14, 9, 'n'));
    assert_eq!(xyz(*a.xyz()), (0.0, 0.5, 1.0));
}

#[test]
fn the_usual_msi_model_has_a_tolerance_of_five_hundredths() {
    let usual = MsiModel::<f64>::default_for::<Na>();
    assert_eq!(usual.periodic_type(), 100);
    assert_eq!(usual.space_group(), "1 1");
    assert_eq!(usual.cry_tolerance(), 0.05);
}

/// A molecule with a stem and a plane that points upward where its marker
/// atom is not below the origin.
struct Marked {
    model: LatticeModel<f64, ()>,
    stem: [u32; 2],
    plane: [u32; 3],
    marker: u32,
}

impl Molecule<f64, ()> for Marked {
    fn atoms_of(&self) -> vstd::seq::Seq<Atom<f64, ()>> {
        unreachable!("only the verifier reads this")
    }

    fn get_atoms(&self) -> &[Atom<f64, ()>] {
        self.model.atoms()
    }

    fn get_mut_atoms(&mut self) -> &mut Vec<Atom<f64, ()>> {
        self.model.atoms_mut()
    }
}

impl AdsorbateTraits<Na, ()> for Marked {
    fn stem_ids(&self) -> [u32; 2] {
        self.stem
    }

    fn plane_ids(&self) -> [u32; 3] {
        self.plane
    }

    fn get_ads_name(&self) -> String {
        "marked".to_string()
    }

    fn get_stem_atom_ids(&self) -> [u32; 2] {
        self.stem
    }

    fn get_plane_atom_ids(&self) -> [u32; 3] {
        self.plane
    }

    fn is_upward(&self) -> Result<bool, InvalidIndex> {
        Ok(self.model.get_atom_by_id(self.marker)?.xyz().z >= 0.0)
    }

    fn rotate(&mut self, rotation: &Rotation<f64>) {
        self.model.rotate::<Na>(rotation)
    }

    fn translate(&mut self, translation: &Vector3<f64>) {
        self.model.translate::<Na>(translation)
    }
}

fn marked(marker: u32) -> Marked {
    Marked {
        model: model(&[(0.0, 0.0, 0.0), (1.0, 0.0, 0.0), (1.0, 1.0, 0.0)]),
        stem: [1, 2],
        plane: [1, 2, 3],
        marker,
    }
}

#[test]
fn a_stem_is_set_upright() {
    let mut m = marked(2);
    m.make_upright(false).unwrap();
    let stem = m.get_stem_vector().unwrap();
    assert!(near(stem, vc(0.0, 0.0, 1.0)));
    assert_eq!(m.get_ads_name(), "marked");
    m.translate(&vc(0.0, 0.0, 1.0));
    assert!(close(*m.get_atom_by_id(1).unwrap().xyz(), pt(0.0, 0.0, 1.0)));
}

#[test]
fn a_plane_is_set_upright() {
    let mut m = Marked {
        model: model(&[(0.0, 0.0, 0.0), (1.0, 0.0, 0.0), (1.0, 1.0, 1.0)]),
        stem: [1, 2],
        plane: [1, 2, 3],
        marker: 3,
    };
    let n = m.get_plane_normal().unwrap();
    let h = 0.5_f64.sqrt();
    assert!(near(n, vc(0.0, -h, h)));
    m.make_upright(true).unwrap();
    assert!(near(m.get_plane_normal().unwrap(), vc(0.0, -1.0, 0.0)));
    assert!(near(m.get_stem_vector().unwrap(), vc(1.0, 0.0, 0.0)));
    assert!(close(*m.get_atom_by_id(3).unwrap().xyz(), pt(1.0, 0.0, 2.0_f64.sqrt())));
}

#[test]
fn a_molecule_that_hangs_is_turned_about_its_stem() {
    let mut m = Marked {
        model: model(&[(0.0, 0.0, 0.0), (1.0, 0.0, 0.0), (-0.5, 0.0, 0.3)]),
        stem: [1, 2],
        plane: [1, 2, 3],
        marker: 3,
    };
    m.make_upright(false).unwrap();
    assert!(close(*m.get_atom_by_id(2).unwrap().xyz(), pt(0.0, 0.0, 1.0)));
    assert!(close(*m.get_atom_by_id(3).unwrap().xyz(), pt(0.3, 0.0, -0.5)));
}

#[test]
fn a_molecule_with_a_foreign_stem_atom_is_not_set_upright() {
    let mut m = marked(2);
    m.stem = [1, 4];
    assert!(m.make_upright(false).is_err());
    assert!(m.get_stem_vector().is_err());
    assert_eq!(xyz(*m.get_atom_by_id(2).unwrap().xyz()), (1.0, 0.0, 0.0));
    let mut m = marked(2);
    m.plane = [1, 2, 0];
    assert!(m.make_upright(true).is_err());
    assert!(m.get_plane_normal().is_err());
    assert!(m.make_upright(false).is_ok());
}
