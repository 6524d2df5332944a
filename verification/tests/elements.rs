//! What the periodic table knows of the elements of a model.
use adsorption::atom::Atom;
use adsorption::cell::{
    element_by_symbol, kpoints_list_str, lcao_states_of, misc_str, position_line, potentials_of,
    species_lcao_str, species_pot_str, spin_total, spins_of, write_block, UnknownElement,
};
use adsorption::kernel::Point3;

fn atom(symbol: &str, atom_id: u32) -> Atom<f64, ()> {
    Atom::new(symbol.to_string(), 0, Point3 { x: 0.0, y: 0.0, z: 0.0 }, atom_id, ())
}

fn names(symbols: &[&str]) -> Vec<String> {
    symbols.iter().map(|s| s.to_string()).collect()
}

#[test]
fn an_element_is_found_by_its_symbol() {
    let iron = element_by_symbol("Fe").unwrap();
    assert_eq!(iron.atomic_number, 26);
    assert_eq!(iron.lcao, 3);
    assert_eq!(iron.potential, "Fe_00PBE.uspcc");
    assert_eq!(iron.spin, 4);
    let silver = element_by_symbol("Ag").unwrap();
    assert_eq!((silver.atomic_number, silver.lcao, silver.spin), (47, 3, 0));
    assert_eq!(silver.potential, "Ag_00PBE.usp");
    assert_eq!(element_by_symbol("H").unwrap().potential, "H_00PBE.usp");
    assert_eq!(element_by_symbol("Lr").unwrap().atomic_number, 103);
}

#[test]
fn a_symbol_that_names_no_element_is_not_found() {
    for symbol in ["", "fe", "FE", "Xx", "Fe ", " Fe", "Iron", "1", "104", "026"] {
        assert!(element_by_symbol(symbol).is_none());
    }
}

#[test]
fn an_element_is_also_found_by_the_numeral_of_its_number() {
    assert_eq!(element_by_symbol("26").unwrap().potential, "Fe_00PBE.uspcc");
    assert_eq!(element_by_symbol("0").unwrap().potential, "H_00PBE.usp");
    assert_eq!(element_by_symbol("103").unwrap().atomic_number, 103);
}

#[test]
fn the_total_spin_is_the_sum_over_the_atoms() {
    let atoms = vec![atom("C", 1), atom("Fe", 2), atom("O", 3), atom("Fe", 4), atom("Co", 5)];
    assert_eq!(spins_of(&atoms).unwrap(), vec![0, 4, 0, 4, 3]);
    assert_eq!(spin_total(&atoms).unwrap(), 11);
    let none: Vec<Atom<f64, ()>> = vec![];
    assert_eq!(spin_total(&none).unwrap(), 0);
    assert!(spins_of(&none).unwrap().is_empty());
}

#[test]
fn the_first_unknown_element_is_reported() {
    let atoms = vec![atom("C", 1), atom("Q", 2), atom("O", 3), atom("Zz", 4)];
    assert_eq!(spins_of(&atoms).unwrap_err(), UnknownElement { index: 1 });
    assert_eq!(spin_total(&atoms).unwrap_err(), UnknownElement { index: 1 });
    assert_eq!(potentials_of(&names(&["C", "O", "Zz"])).unwrap_err(), UnknownElement { index: 2 });
    assert_eq!(lcao_states_of(&names(&["", "O"])).unwrap_err(), UnknownElement { index: 0 });
}

#[test]
fn each_element_has_its_potential_file_and_its_orbitals() {
    let listed = names(&["H", "C", "O", "Fe", "Ag"]);
    assert_eq!(
        potentials_of(&listed).unwrap(),
        vec!["H_00PBE.usp", "C_00PBE.usp", "O_00PBE.usp", "Fe_00PBE.uspcc", "Ag_00PBE.usp"]
    );
    assert_eq!(lcao_states_of(&listed).unwrap(), vec![1, 2, 2, 3, 3]);
    assert!(potentials_of(&[]).unwrap().is_empty());
}

#[test]
fn a_block_is_framed_by_its_name() {
    assert_eq!(write_block("NAME", "a\nb\n"), "%BlOCK NAME\na\nb\n%ENDBLOCK NAME\n\n");
    assert_eq!(write_block("IONIC_CONSTRAINTS", ""), "%BlOCK IONIC_CONSTRAINTS\n%ENDBLOCK IONIC_CONSTRAINTS\n\n");
}

#[test]
fn the_species_are_listed_in_columns() {
    let listed = names(&["O", "Al", "Ti", "Cs"]);
    assert_eq!(
        species_pot_str(&listed).unwrap(),
        "%BlOCK SPECIES_POT\n       O  O_00PBE.usp\n      Al  Al_00PBE.usp\n      Ti  Ti_00PBE.usp\n      Cs  Cs_00PBE.usp\n%ENDBLOCK SPECIES_POT\n\n"
    );
    assert_eq!(
        species_lcao_str(&listed).unwrap(),
        "%BlOCK SPECIES_LCAO_STATES\n       O        2\n      Al        2\n      Ti        5\n      Cs        4\n%ENDBLOCK SPECIES_LCAO_STATES\n\n"
    );
    assert_eq!(species_pot_str(&names(&["O", "Qq"])).unwrap_err(), UnknownElement { index: 1 });
    assert_eq!(species_lcao_str(&names(&["Qq"])).unwrap_err(), UnknownElement { index: 0 });
    assert_eq!(species_pot_str(&[]).unwrap(), "%BlOCK SPECIES_POT\n%ENDBLOCK SPECIES_POT\n\n");
}

#[test]
fn the_fixed_blocks_are_written() {
    assert_eq!(
        kpoints_list_str(),
        "%BlOCK KPOINTS_LIST\n   0.0000000000000000   0.0000000000000000   0.0000000000000000       1.000000000000000\n%ENDBLOCK KPOINTS_LIST\n\n"
    );
    let misc = misc_str();
    assert!(misc.starts_with("FIX_ALL_CELL : true\n\nFIX_COM : false\n%BlOCK IONIC_CONSTRAINTS\n%ENDBLOCK IONIC_CONSTRAINTS\n\n%BlOCK EXTERNAL_EFIELD\n"));
    assert!(misc.ends_with("                                    0.0000000000\n%ENDBLOCK EXTERNAL_PRESSURE\n\n"));
}

#[test]
fn an_atom_with_a_spin_is_given_it_in_its_line() {
    let x = "  0.5000000000000000";
    let y = "  0.2500000000000000";
    let z = " -0.1250000000000000";
    assert_eq!(
        position_line("Fe", x, y, z, 4, "  4.0000000000"),
        " Fe  0.5000000000000000  0.2500000000000000 -0.1250000000000000 SPIN=  4.0000000000\n"
    );
    assert_eq!(
        position_line("C", x, y, z, 0, "  0.0000000000"),
        "  C  0.5000000000000000  0.2500000000000000 -0.1250000000000000\n"
    );
}
