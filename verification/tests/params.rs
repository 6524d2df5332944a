//! The parameters of a placement and the check that seals them.
use adsorption::assemble::params::{AdsParams, AdsParamsBuilder};
use adsorption::error::{AssembleError, CollinearPoints, InvalidCoord, InvalidIndex, ParamsError};
use adsorption::kernel::Vector3;

fn missing(coord_atom_ids: bool, bond_length: bool) -> ParamsError {
    ParamsError::Missing { coord_atom_ids, bond_length }
}

#[test]
fn nothing_set_lacks_both_required_fields() {
    let r = AdsParamsBuilder::<f64>::new().finish();
    assert_eq!(r.unwrap_err(), missing(true, true));
}

#[test]
fn each_missing_field_is_named() {
    let coord = [1u32];
    let no_length = AdsParamsBuilder::<f64>::new().with_coord_atom_ids(&coord).finish();
    assert_eq!(no_length.unwrap_err(), missing(false, true));
    let no_atoms = AdsParamsBuilder::<f64>::new().with_bond_length(1.4).finish();
    assert_eq!(no_atoms.unwrap_err(), missing(true, false));
    let empty: [u32; 0] = [];
    let none = AdsParamsBuilder::<f64>::new()
        .with_bond_length(1.4)
        .with_coord_atom_ids(&empty)
        .finish();
    assert_eq!(none.unwrap_err(), missing(true, false));
}

#[test]
fn a_virtual_stem_without_a_plane_is_refused() {
    let coord = [1u32];
    for id in [1u32, 7] {
        let stem = [id, id];
        let r = AdsParamsBuilder::<f64>::new()
            .with_bond_length(1.4)
            .with_coord_atom_ids(&coord)
            .with_stem_atom_ids(Some(&stem))
            .with_plane_angle(Some(0.0))
            .with_stem_coord_angle(Some(90.0))
            .finish();
        assert_eq!(r.unwrap_err(), ParamsError::VirtualStemWithoutPlane);
    }
}

#[test]
fn a_missing_field_is_reported_before_a_missing_plane() {
    let stem = [1u32, 1];
    let r = AdsParamsBuilder::<f64>::new().with_stem_atom_ids(Some(&stem)).finish();
    assert_eq!(r.unwrap_err(), missing(true, true));
}

#[test]
fn a_virtual_stem_with_a_plane_is_accepted() {
    let coord = [1u32];
    let stem = [1u32, 1];
    let plane = [2u32, 3, 4];
    let p: AdsParams<f64> = AdsParamsBuilder::new()
        .with_bond_length(1.4)
        .with_coord_atom_ids(&coord)
        .with_stem_atom_ids(Some(&stem))
        .with_plane_atom_ids(Some(&plane))
        .finish()
        .unwrap();
    assert_eq!(p.stem_atom_ids(), Some(&[1, 1]));
    assert_eq!(p.plane_atom_ids(), Some(&[2, 3, 4]));
}

#[test]
fn what_was_set_is_what_is_sealed() {
    let coord = [3u32, 1];
    let stem = [1u32, 2];
    let p: AdsParams<f64> = AdsParamsBuilder::new()
        .with_ads_direction(Some(Vector3 { x: 1.0, y: 2.0, z: 3.0 }))
        .with_plane_angle(Some(30.0))
        .with_stem_coord_angle(Some(45.0))
        .with_bond_length(1.25)
        .with_coord_atom_ids(&coord)
        .with_stem_atom_ids(Some(&stem))
        .with_plane_atom_ids(None)
        .finish()
        .unwrap();
    let d = p.ads_direction().unwrap();
    assert_eq!((d.x, d.y, d.z), (1.0, 2.0, 3.0));
    assert_eq!(p.adsorbate_plane_angle(), Some(30.0));
    assert_eq!(p.stem_coord_angle(), Some(45.0));
    assert_eq!(p.bond_length(), 1.25);
    assert_eq!(p.coord_atom_ids(), &[3, 1]);
    assert_eq!(p.stem_atom_ids(), Some(&[1, 2]));
    assert_eq!(p.plane_atom_ids(), None);
    assert!(p.ids_valid_for(3));
    assert!(!p.ids_valid_for(2));
}

#[test]
fn a_later_setting_replaces_an_earlier_one() {
    let first = [1u32];
    let second = [2u32];
    let p: AdsParams<f64> = AdsParamsBuilder::new()
        .with_bond_length(1.0)
        .with_bond_length(2.0)
        .with_coord_atom_ids(&first)
        .with_coord_atom_ids(&second)
        .with_plane_angle(Some(10.0))
        .with_plane_angle(None)
        .finish()
        .unwrap();
    assert_eq!(p.bond_length(), 2.0);
    assert_eq!(p.coord_atom_ids(), &[2]);
    assert_eq!(p.adsorbate_plane_angle(), None);
}

#[test]
fn the_failures_describe_themselves() {
    assert_eq!(InvalidIndex.message(), "Invalid index");
    assert_eq!(CollinearPoints.message(), "The given points are on one line!");
    assert_eq!(InvalidCoord.message(), "Invalid coordinate: not finite");
    assert_ne!(AssembleError::InvalidIndex, AssembleError::CollinearPoints);
}
