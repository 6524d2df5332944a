//! The numerals and the structure of `msi` files.
use adsorption::parser::msi_parser::{
    find_after, msi_model_start, parse_atom, parse_xyz, read_u32, scan_model, MsiModel, ParseError,
    Span,
};
use adsorption::format::msi::{
    atom_block, cell_lines, cell_vector_line, concatenate, msi_text, periodic_lines, CellTexts,
};
use adsorption::parser::{decimal, float, number_from};

#[test]
fn a_decimal_is_one_or_more_digits() {
    assert_eq!(decimal(b"42"), Some(2));
    assert_eq!(decimal(b"007 rest"), Some(3));
    assert_eq!(decimal(b"4.2"), Some(1));
    assert_eq!(decimal(b""), None);
    assert_eq!(decimal(b"x1"), None);
    assert_eq!(decimal(b"-1"), None);
}

#[test]
fn a_numeral_with_a_leading_point() {
    assert_eq!(float(b".42"), Some(3));
    assert_eq!(float(b".42e10"), Some(6));
    assert_eq!(float(b".42E-7)"), Some(6));
    assert_eq!(float(b".42e"), Some(3));
    assert_eq!(float(b".42e+"), Some(3));
    assert_eq!(float(b"."), None);
    assert_eq!(float(b".e5"), None);
}

#[test]
fn a_numeral_with_an_exponent() {
    assert_eq!(float(b"42e42"), Some(5));
    assert_eq!(float(b"42.42e42"), Some(8));
    assert_eq!(float(b"1E+3 "), Some(4));
    assert_eq!(float(b"1e-3x"), Some(4));
    assert_eq!(float(b"1e"), None);
    assert_eq!(float(b"1.5e"), Some(3));
}

#[test]
fn a_numeral_with_a_point() {
    assert_eq!(float(b"42."), Some(3));
    assert_eq!(float(b"42.42"), Some(5));
    assert_eq!(float(b"-42.42"), Some(6));
    assert_eq!(float(b"+0.5))"), Some(4));
    assert_eq!(float(b"-1."), Some(3));
    assert_eq!(float(b"42"), None);
    assert_eq!(float(b"-42"), None);
    assert_eq!(float(b"-.5"), None);
    assert_eq!(float(b"-1e5"), None);
    assert_eq!(float(b""), None);
}

#[test]
fn a_number_is_a_numeral_of_either_kind() {
    assert_eq!(number_from(b"ab 12.5 cd", 3), Some(7));
    assert_eq!(number_from(b"ab 125 cd", 3), Some(6));
    assert_eq!(number_from(b"ab 125 cd", 2), None);
    assert_eq!(number_from(b"0", 0), Some(1));
    assert_eq!(number_from(b"0", 1), None);
}

#[test]
fn a_tag_is_found_at_its_first_occurrence() {
    assert_eq!(find_after(b"abcabc", 0, b"bc"), Some(3));
    assert_eq!(find_after(b"abcabc", 2, b"bc"), Some(6));
    assert_eq!(find_after(b"abcabc", 5, b"bc"), None);
    assert_eq!(find_after(b"abc", 0, b"abcd"), None);
    assert_eq!(find_after(b"abc", 3, b""), Some(3));
}

#[test]
fn the_model_starts_after_its_first_line() {
    assert_eq!(msi_model_start(b"# header\n(1 Model\n  (2 Atom"), Some(18));
    assert_eq!(msi_model_start(b"# header\r\n(1 Model\r\n  (2 Atom"), Some(20));
    assert_eq!(msi_model_start(b"# header\n(1 Model"), None);
    assert_eq!(msi_model_start(b"(2 Model\n"), None);
}

#[test]
fn a_coordinate_triple_is_three_numbers_and_a_closing() {
    let (xyz, end) = parse_xyz(b"1.5 -0.25 0))\nrest", 0).unwrap();
    assert_eq!((xyz.x.from, xyz.x.to), (0, 3));
    assert_eq!((xyz.y.from, xyz.y.to), (4, 9));
    assert_eq!((xyz.z.from, xyz.z.to), (10, 11));
    assert_eq!(end, 14);
    let (_, end) = parse_xyz(b"1 2 3))\r\n", 0).unwrap();
    assert_eq!(end, 9);
    assert!(parse_xyz(b"1 2 3)\n", 0).is_none());
    assert!(parse_xyz(b"1 2))\n", 0).is_none());
    assert!(parse_xyz(b"1 -2 3))\n", 0).is_none());
    assert!(parse_xyz(b"1 2 3))", 0).is_none());
}

#[test]
fn a_decimal_is_read_unless_it_is_too_large() {
    assert_eq!(read_u32(b"x4294967295", Span { from: 1, to: 11 }), Some(4294967295));
    assert_eq!(read_u32(b"x4294967296", Span { from: 1, to: 11 }), None);
    assert_eq!(read_u32(b"00042", Span { from: 0, to: 5 }), Some(42));
    assert_eq!(read_u32(b"99999999999999999999999", Span { from: 0, to: 23 }), None);
}

const ATOM: &str = "  (2 Atom\n    (A C ACL \"6 C\")\n    (A C Label \"C\")\n    (A D XYZ (1.5 -0.25 0.75))\n    (A I Id 1)\n  )\n";

const BARE_ATOM: &str = "  (3 Atom\r\n    (A C ACL \"8 O\")\r\n    (A D XYZ (0 .5 2.))\r\n    (A I Id 2)\r\n  )\r\n";

#[test]
fn an_atom_block_is_recognized_with_and_without_a_label() {
    let (atom, end) = parse_atom(ATOM.as_bytes(), 0).unwrap();
    assert_eq!(end, ATOM.len());
    assert_eq!(&ATOM[atom.element_id.from..atom.element_id.to], "6");
    assert_eq!(&ATOM[atom.symbol.from..atom.symbol.to], "C");
    assert_eq!(&ATOM[atom.xyz.y.from..atom.xyz.y.to], "-0.25");
    assert_eq!(&ATOM[atom.atom_id.from..atom.atom_id.to], "1");
    let (atom, end) = parse_atom(BARE_ATOM.as_bytes(), 0).unwrap();
    assert_eq!(end, BARE_ATOM.len());
    assert_eq!(&BARE_ATOM[atom.symbol.from..atom.symbol.to], "O");
    assert_eq!(&BARE_ATOM[atom.xyz.z.from..atom.xyz.z.to], "2.");
    assert!(parse_atom(&ATOM.as_bytes()[2..], 0).is_none());
    assert!(parse_atom(ATOM.replace("Id 1", "Id x").as_bytes(), 0).is_none());
}

fn number(text: &str) -> f64 {
    text.parse::<f64>().unwrap()
}

fn with_cell() -> String {
    let mut text = String::from("# MSI CERIUS2 DataModel File Version 4 0\n(1 Model\n");
    text.push_str("  (A I CRY/DISPLAY (192 256))\n  (A I PeriodicType 100)\n");
    text.push_str("  (A C SpaceGroup \"1 1\")\n");
    text.push_str("  (A D A3 (16.5 0 0))\n  (A D B3 (-8.25 14.25 0))\n  (A D C3 (0 0 9.75))\n");
    text.push_str("  (A D CRY/TOLERANCE 0.05)\n");
    text.push_str(ATOM);
    text.push_str(&BARE_ATOM.replace("\r\n", "\n"));
    text.push_str(")");
    text
}

#[test]
fn a_model_with_a_cell_is_read() {
    let model: MsiModel<f64> = MsiModel::try_from(&with_cell(), number).unwrap();
    assert_eq!(
        model.lattice_vectors(),
        Some([[16.5, 0.0, 0.0], [-8.25, 14.25, 0.0], [0.0, 0.0, 9.75]])
    );
    let atoms = model.atoms();
    assert_eq!(atoms.len(), 2);
    assert_eq!(atoms[0].element_symbol(), "C");
    assert_eq!(atoms[0].element_id(), 6);
    assert_eq!(atoms[0].atom_id(), 1);
    assert_eq!((atoms[0].xyz().x, atoms[0].xyz().y, atoms[0].xyz().z), (1.5, -0.25, 0.75));
    assert_eq!(atoms[1].element_symbol(), "O");
    assert_eq!(atoms[1].element_id(), 8);
    assert_eq!(atoms[1].atom_id(), 2);
    assert_eq!((atoms[1].xyz().x, atoms[1].xyz().y, atoms[1].xyz().z), (0.0, 0.5, 2.0));
}

#[test]
fn a_model_without_a_cell_is_read() {
    let text = format!("(1 Model\r\n{}{})", BARE_ATOM, BARE_ATOM);
    let spans = scan_model(text.as_bytes()).unwrap();
    assert!(spans.lattice_vectors.is_none());
    assert_eq!(spans.atoms.len(), 2);
    let model: MsiModel<f64> = MsiModel::try_from(&text, number).unwrap();
    assert!(model.lattice_vectors().is_none());
    assert_eq!(model.atoms().len(), 2);
}

#[test]
fn a_text_that_holds_no_model_is_refused() {
    let refused = |text: &str| MsiModel::<f64>::try_from(text, number).unwrap_err();
    assert_eq!(refused("no model here"), ParseError::NoModel);
    assert_eq!(refused("(1 Model\n)"), ParseError::NoAtom);
    assert_eq!(refused(&format!("(1 Model\n{}", &ATOM[2..])), ParseError::NoAtom);
    let cell = "(1 Model\n  (A D A3 (1 0 0))\n  (A D B3 (0 1 0))\n  (A D C3 (0 0 1))\n";
    assert_eq!(refused(cell), ParseError::NoLineEnding);
    assert_eq!(refused(&format!("{}  (A D CRY/TOLERANCE 0.05)\n)", cell)), ParseError::NoAtom);
    assert_eq!(refused(&format!("(1 Model\n{}", ATOM.replace("C", "\u{e9}"))), ParseError::NotAscii);
    assert_eq!(
        refused(&format!("(1 Model\n{}", ATOM.replace("Id 1", "Id 4294967296"))),
        ParseError::NumberTooLarge
    );
    assert_eq!(
        refused(&format!("(1 Model\n{}", ATOM.replace("\"6 C", "\"99999999999 C"))),
        ParseError::NumberTooLarge
    );
}

fn fixed(value: f64) -> String {
    format!("{:.12}", value)
}

fn usual_cell() -> CellTexts<'static> {
    CellTexts {
        a: ["16.500000000000", "0.000000000000", "0.000000000000"],
        b: ["-8.250000000000", "14.250000000000", "0.000000000000"],
        c: ["0.000000000000", "0.000000000000", "9.750000000000"],
    }
}

#[test]
fn an_atom_is_written_as_a_block() {
    let block = atom_block(1, 6, "C", &fixed(1.5), &fixed(-0.25), &fixed(0.75));
    assert_eq!(
        block,
        "  (2 Atom\n    (A C ACL \"6 C\")\n    (A C Label \"C\")\n    (A D XYZ (1.500000000000 -0.250000000000 0.750000000000))\n    (A I Id 1)\n  )\n"
    );
    assert!(atom_block(4294967295, 0, "H", "0", "0", "0").starts_with("  (4294967296 Atom\n"));
}

#[test]
fn the_cell_is_written_as_three_lines() {
    assert_eq!(cell_vector_line("A3", "1", "2", "3"), "  (A D A3 (1 2 3))");
    assert_eq!(
        cell_lines(&usual_cell()),
        "  (A D A3 (16.500000000000 0.000000000000 0.000000000000))\n  (A D B3 (-8.250000000000 14.250000000000 0.000000000000))\n  (A D C3 (0.000000000000 0.000000000000 9.750000000000))\n"
    );
    let lines = periodic_lines(100, "1 1", &usual_cell(), "0.05");
    assert!(lines.starts_with("  (A I CRY/DISPLAY (192 256))\n  (A I PeriodicType 100)\n  (A C SpaceGroup \"1 1\")\n  (A D A3 ("));
    assert!(lines.ends_with("9.750000000000))\n  (A D CRY/TOLERANCE 0.05)\n"));
}

#[test]
fn what_is_written_is_read_back() {
    let blocks = vec![
        atom_block(1, 6, "C", &fixed(1.5), &fixed(-0.25), &fixed(0.75)),
        atom_block(2, 8, "O", &fixed(0.0), &fixed(0.5), &fixed(2.0)),
    ];
    assert_eq!(concatenate(&blocks), format!("{}{}", blocks[0], blocks[1]));
    assert_eq!(concatenate(&[]), "");
    let lines = periodic_lines(100, "1 1", &usual_cell(), "0.05");
    let text = msi_text(Some(&lines), &blocks);
    assert!(text.starts_with("# MSI CERIUS2 DataModel File Version 4 0\n(1 Model\n  (A I CRY/DISPLAY"));
    assert!(text.ends_with("    (A I Id 2)\n  )\n)"));
    let model: MsiModel<f64> = MsiModel::try_from(&text, number).unwrap();
    assert_eq!(
        model.lattice_vectors(),
        Some([[16.5, 0.0, 0.0], [-8.25, 14.25, 0.0], [0.0, 0.0, 9.75]])
    );
    assert_eq!(model.atoms().len(), 2);
    assert_eq!((model.atoms()[1].xyz().x, model.atoms()[1].xyz().y, model.atoms()[1].xyz().z), (0.0, 0.5, 2.0));
    let bare = msi_text(None, &blocks[..1]);
    assert_eq!(bare, format!("# MSI CERIUS2 DataModel File Version 4 0\n(1 Model\n{})", blocks[0]));
    let model: MsiModel<f64> = MsiModel::try_from(&bare, number).unwrap();
    assert!(model.lattice_vectors().is_none());
    assert_eq!(model.atoms()[0].element_symbol(), "C");
}
