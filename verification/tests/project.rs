//! The description of a project and the tables that come with it.
use adsorption::adsorbate::AdsInfo;
use adsorption::external_info::adsorbate_table::AdsTab;
use adsorption::external_info::project::{CoordCase, CoordSite, ProjectInfo};

fn site(name: &str, atom_id: u32) -> CoordSite {
    CoordSite { name: name.to_string(), atom_id }
}

fn project() -> ProjectInfo {
    ProjectInfo {
        base_model_loc: "models/base".to_string(),
        element_table_loc: "resources/element_table.yaml".to_string(),
        adsorbate_table_loc: "resources/ads_table.yaml".to_string(),
        potentials_loc: "resources/potentials".to_string(),
        export_loc: "out".to_string(),
        coord_sites: vec![site("c1", 41), site("c2", 42), site("FR", 52), site("metal", 41)],
        coord_cases: vec![CoordCase {
            name: "double".to_string(),
            cases: vec![(41, Some(42)), (42, Some(54)), (52, Some(53))],
        }],
    }
}

fn ads_info(name: &str) -> AdsInfo<f64> {
    AdsInfo {
        name: name.to_string(),
        coord_atom_ids: vec![1],
        stem_atom_ids: Some([1, 2]),
        plane_atom_ids: None,
        plane_angle: Some(90.0),
        stem_angle_at_coord: Some(0.0),
        bond_length: Some(1.4),
        symmetric: false,
        upper_atom_id: 2,
        atom_nums: 2,
        path_name: "ethylene".to_string(),
    }
}

#[test]
fn test_yaml() {
    let project_info = project();
    let ads_table = AdsTab {
        source_directory: "ads".to_string(),
        target_directory: None,
        adsorbates: Some(vec![ads_info("CO")]),
    };
    assert!(ads_table.adsorbates().is_some());
    println!("{:?}", project_info);
    let coord_sites_dict = project_info.hash_coord_site();
    println!("{}", coord_sites_dict.get(&41).unwrap());
}

#[test]
fn the_places_of_the_project_are_given_back() {
    let p = project();
    assert_eq!(p.base_model_loc(), "models/base");
    assert_eq!(p.element_table_loc(), "resources/element_table.yaml");
    assert_eq!(p.adsorbate_table_loc(), "resources/ads_table.yaml");
    assert_eq!(p.potentials_loc(), "resources/potentials");
    assert_eq!(p.export_loc(), "out");
    assert_eq!(p.coord_sites().len(), 4);
    assert_eq!(p.coord_cases().len(), 1);
}

#[test]
fn the_later_of_two_sites_at_one_atom_counts() {
    let names = project().hash_coord_site();
    assert_eq!(names.len(), 3);
    assert_eq!(names.get(&41).unwrap(), "metal");
    assert_eq!(names.get(&42).unwrap(), "c2");
    assert_eq!(names.get(&52).unwrap(), "FR");
    assert!(names.get(&53).is_none());
}

#[test]
fn the_cases_are_given_as_they_are_or_reversed() {
    let p = project();
    let case = &p.coord_cases()[0];
    assert_eq!(case.get_cases(false), vec![(41, Some(42)), (42, Some(54)), (52, Some(53))]);
    assert_eq!(case.get_cases(true), vec![(42, Some(41)), (54, Some(42)), (53, Some(52))]);
    let single = CoordCase { name: "single".to_string(), cases: vec![(41, None)] };
    assert_eq!(single.get_cases(false), vec![(41, None)]);
    let none = CoordCase { name: "none".to_string(), cases: vec![] };
    assert!(none.get_cases(true).is_empty());
}

#[test]
fn what_a_table_records_of_a_fragment_is_given_back() {
    let mut info = ads_info("CO");
    assert_eq!(info.name(), "CO");
    assert_eq!(info.coord_atom_ids(), &[1]);
    assert_eq!(info.stem_atom_ids(), Some(&[1, 2]));
    assert_eq!(info.plane_atom_ids(), None);
    assert_eq!(info.plane_angle(), Some(90.0));
    assert_eq!(info.stem_angle_at_coord(), Some(0.0));
    assert_eq!(info.bond_length(), Some(1.4));
    assert!(!info.symmetric());
    assert_eq!(info.upper_atom_id(), 2);
    assert_eq!(info.atom_nums(), 2);
    assert_eq!(info.path_name(), "ethylene");
    info.set_plane_angle(None);
    assert_eq!(info.plane_angle(), None);
    assert_eq!(info.bond_length(), Some(1.4));
    let table: AdsTab<f64> = AdsTab {
        source_directory: "ads".to_string(),
        target_directory: Some("built".to_string()),
        adsorbates: None,
    };
    assert_eq!(table.source_directory(), "ads");
    assert_eq!(table.target_directory().unwrap(), "built");
    assert!(table.adsorbates().is_none());
}
