//! The `msi` file format: how a model is laid out as a text.
use vstd::prelude::*;
use vstd::string::StringExecFns;
use crate::text::{decimal_digits, decimal_text};

verus! {

/// Marks a model that is kept as an `msi` file.
#[derive(Debug, Clone)]
pub struct MsiFormat;

/// The block of an `msi` file that holds one atom: its number in the file,
/// which is one more than its id, the atomic number and the symbol of its
/// element, its coordinates as the texts `x`, `y` and `z`, and its id.
pub open spec fn atom_block_of(
    atom_id: u32,
    element_id: u32,
    symbol: Seq<char>,
    x: Seq<char>,
    y: Seq<char>,
    z: Seq<char>,
) -> Seq<char> {
    "  ("@ + decimal_digits((atom_id + 1) as nat) + " Atom\n    (A C ACL \""@ + decimal_digits(
        element_id as nat,
    ) + " "@ + symbol + "\")\n    (A C Label \""@ + symbol + "\")\n    (A D XYZ ("@ + x + " "@ + y
        + " "@ + z + "))\n    (A I Id "@ + decimal_digits(atom_id as nat) + ")\n  )\n"@
}

/// Writes the block of an `msi` file that holds one atom. The coordinates
/// are given as they are to stand in the file.
pub fn atom_block(atom_id: u32, element_id: u32, symbol: &str, x: &str, y: &str, z: &str) -> (block:
    String)
    ensures
        block@ == atom_block_of(atom_id, element_id, symbol@, x@, y@, z@),
{
    let item_id = decimal_text(atom_id as u128 + 1);
    let element = decimal_text(element_id as u128);
    let id = decimal_text(atom_id as u128);
    let mut block = String::from_str("  (");
    block.append(item_id.as_str());
    block.append(" Atom\n    (A C ACL \"");
    block.append(element.as_str());
    block.append(" ");
    block.append(symbol);
    block.append("\")\n    (A C Label \"");
    block.append(symbol);
    block.append("\")\n    (A D XYZ (");
    block.append(x);
    block.append(" ");
    block.append(y);
    block.append(" ");
    block.append(z);
    block.append("))\n    (A I Id ");
    block.append(id.as_str());
    block.append(")\n  )\n");
    block
}

/// The line of an `msi` file that holds the cell vector `name`, with the
/// components `x`, `y` and `z`, and without the end of the line.
pub open spec fn cell_vector_line_of(name: Seq<char>, x: Seq<char>, y: Seq<char>, z: Seq<char>) -> Seq<
    char,
> {
    "  (A D "@ + name + " ("@ + x + " "@ + y + " "@ + z + "))"@
}

/// Writes the line of an `msi` file that holds the cell vector `name`,
/// without the end of the line.
pub fn cell_vector_line(name: &str, x: &str, y: &str, z: &str) -> (line: String)
    ensures
        line@ == cell_vector_line_of(name@, x@, y@, z@),
{
    let mut line = String::from_str("  (A D ");
    line.append(name);
    line.append(" (");
    line.append(x);
    line.append(" ");
    line.append(y);
    line.append(" ");
    line.append(z);
    line.append("))");
    line
}

/// The components of the three cell vectors, as they are to stand in a
/// file.
pub struct CellTexts<'a> {
    pub a: [&'a str; 3],
    pub b: [&'a str; 3],
    pub c: [&'a str; 3],
}

/// The lines of an `msi` file that hold the three cell vectors.
pub open spec fn cell_lines_of(cell: CellTexts) -> Seq<char> {
    cell_vector_line_of("A3"@, cell.a@[0]@, cell.a@[1]@, cell.a@[2]@) + "\n"@
        + cell_vector_line_of("B3"@, cell.b@[0]@, cell.b@[1]@, cell.b@[2]@) + "\n"@
        + cell_vector_line_of("C3"@, cell.c@[0]@, cell.c@[1]@, cell.c@[2]@) + "\n"@
}

/// Writes the lines of an `msi` file that hold the three cell vectors.
pub fn cell_lines(cell: &CellTexts) -> (lines: String)
    ensures
        lines@ == cell_lines_of(*cell),
{
    let mut lines = cell_vector_line("A3", cell.a[0], cell.a[1], cell.a[2]);
    lines.append("\n");
    let b = cell_vector_line("B3", cell.b[0], cell.b[1], cell.b[2]);
    lines.append(b.as_str());
    lines.append("\n");
    let c = cell_vector_line("C3", cell.c[0], cell.c[1], cell.c[2]);
    lines.append(c.as_str());
    lines.append("\n");
    lines
}

/// What an `msi` file begins with.
pub open spec fn msi_head() -> Seq<char> {
    "# MSI CERIUS2 DataModel File Version 4 0\n(1 Model\n"@
}

/// The lines of an `msi` file that describe a periodic model: how it is
/// shown, its kind of periodicity, its space group, its cell, and the
/// tolerance of its symmetry as the text `cry_tolerance`.
pub open spec fn periodic_lines_of(
    periodic_type: u8,
    space_group: Seq<char>,
    cell: CellTexts,
    cry_tolerance: Seq<char>,
) -> Seq<char> {
    "  (A I CRY/DISPLAY (192 256))\n  (A I PeriodicType "@ + decimal_digits(periodic_type as nat)
        + ")\n  (A C SpaceGroup \""@ + space_group + "\")\n"@ + cell_lines_of(cell)
        + "  (A D CRY/TOLERANCE "@ + cry_tolerance + ")\n"@
}

/// Writes the lines of an `msi` file that describe a periodic model.
pub fn periodic_lines(
    periodic_type: u8,
    space_group: &str,
    cell: &CellTexts,
    cry_tolerance: &str,
) -> (lines: String)
    ensures
        lines@ == periodic_lines_of(periodic_type, space_group@, *cell, cry_tolerance@),
{
    let kind = decimal_text(periodic_type as u128);
    let vectors = cell_lines(cell);
    let mut lines = String::from_str("  (A I CRY/DISPLAY (192 256))\n  (A I PeriodicType ");
    lines.append(kind.as_str());
    lines.append(")\n  (A C SpaceGroup \"");
    lines.append(space_group);
    lines.append("\")\n");
    lines.append(vectors.as_str());
    lines.append("  (A D CRY/TOLERANCE ");
    lines.append(cry_tolerance);
    lines.append(")\n");
    lines
}

/// The texts `blocks`, one after the other.
pub open spec fn concatenated(blocks: Seq<String>) -> Seq<char>
    decreases blocks.len(),
{
    if blocks.len() == 0 {
        Seq::empty()
    } else {
        concatenated(blocks.drop_last()) + blocks.last()@
    }
}

/// Puts the texts `blocks` one after the other.
pub fn concatenate(blocks: &[String]) -> (text: String)
    ensures
        text@ == concatenated(blocks@),
{
    let mut text = String::new();
    let mut i: usize = 0;
    while i < blocks.len()
        invariant
            0 <= i <= blocks@.len(),
            text@ == concatenated(blocks@.take(i as int)),
        decreases blocks@.len() - i,
    {
        proof {
            assert(blocks@.take(i + 1).drop_last() =~= blocks@.take(i as int));
            assert(blocks@.take(i + 1).last() == blocks@[i as int]);
        }
        text.append(blocks[i].as_str());
        i = i + 1;
    }
    assert(blocks@.take(i as int) =~= blocks@);
    text
}

/// Writes an `msi` file: the head, the lines `periodic_lines` that describe
/// the periodic model where it is one, the atom blocks, and a closing
/// bracket.
pub fn msi_text(periodic_lines: Option<&str>, atom_blocks: &[String]) -> (text: String)
    ensures
        text@ == msi_head() + (match periodic_lines {
            Some(lines) => lines@,
            None => Seq::empty(),
        }) + concatenated(atom_blocks@) + ")"@,
{
    let mut text = String::from_str("# MSI CERIUS2 DataModel File Version 4 0\n(1 Model\n");
    match periodic_lines {
        Some(lines) => {
            text.append(lines);
        },
        None => {
            assert(text@ + Seq::<char>::empty() =~= text@);
        },
    }
    let atoms = concatenate(atom_blocks);
    text.append(atoms.as_str());
    text.append(")");
    text
}

} // verus!
