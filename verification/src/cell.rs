//! What the periodic table knows of the elements of a model, as far as a
//! `cell` file asks for it.
use std::str::FromStr;
use castep_periodic_table::element::Element;
use vstd::prelude::*;
use vstd::string::StringExecFns;
use crate::atom::Atom;
use crate::text::{decimal_digits, decimal_text, right_aligned, right_aligned_of};

verus! {

/// What the periodic table records of one element.
#[derive(Debug, Clone)]
pub struct ElementData {
    /// The atomic number, as the table has it.
    pub atomic_number: u8,
    /// The number of atomic orbitals in the basis for population analysis.
    pub lcao: u8,
    /// The name of the potential file.
    pub potential: String,
    /// The initial spin.
    pub spin: u8,
}

/// What the periodic table records of one element, as plain values.
pub struct ElementRecord {
    pub atomic_number: u8,
    pub lcao: u8,
    pub potential: Seq<char>,
    pub spin: u8,
}

impl View for ElementData {
    type V = ElementRecord;

    open spec fn view(&self) -> ElementRecord {
        ElementRecord {
            atomic_number: self.atomic_number,
            lcao: self.lcao,
            potential: self.potential@,
            spin: self.spin,
        }
    }
}

/// What the periodic table records of the element that `symbol` names;
/// nothing where it names none. An element is named by its symbol, and also
/// by the decimal numeral of the number that the table has for it.
pub uninterp spec fn element_record_of(symbol: Seq<char>) -> Option<ElementRecord>;

/// Looks the element that `symbol` names up in the periodic table.
///
/// This is `Element::from_str` of the crate `castep_periodic_table`, which
/// reads the text as an element and copies the row that the table has for
/// it. The contract claims that the answer depends on the characters of
/// `symbol` alone: there is none where `from_str` refuses the text, and else
/// it holds the atomic number, the number of orbitals, the potential file
/// and the spin of that row. The table has a row for every element that the
/// text can name, so the lookup itself does not fail.
#[verifier::external_body]
fn lookup_element(symbol: &str) -> (data: Option<ElementData>)
    ensures
        match data {
            Some(d) => element_record_of(symbol@) == Some(d@),
            None => element_record_of(symbol@) is None,
        },
{
    match Element::from_str(symbol) {
        Ok(row) => Some(
            ElementData {
                atomic_number: row.atomic_number,
                lcao: row.lcao,
                potential: row.potential.to_string(),
                spin: row.spin,
            },
        ),
        Err(_) => None,
    }
}

/// The periodic table has no element by the symbol that stands at `index`.
#[derive(Debug, Clone, Copy, PartialEq, Eq, Structural)]
pub struct UnknownElement {
    /// The place of the first symbol that the table does not know.
    pub index: usize,
}

/// What the periodic table records of the element that `symbol` names.
pub fn element_by_symbol(symbol: &str) -> (data: Option<ElementData>)
    ensures
        match data {
            Some(d) => element_record_of(symbol@) == Some(d@),
            None => element_record_of(symbol@) is None,
        },
{
    lookup_element(symbol)
}

/// The initial spin of the element with the symbol `symbol`.
pub open spec fn spin_of(symbol: Seq<char>) -> Option<u8> {
    match element_record_of(symbol) {
        Some(record) => Some(record.spin),
        None => None,
    }
}

/// The potential file of the element with the symbol `symbol`.
pub open spec fn potential_of(symbol: Seq<char>) -> Option<Seq<char>> {
    match element_record_of(symbol) {
        Some(record) => Some(record.potential),
        None => None,
    }
}

/// The number of atomic orbitals of the element with the symbol `symbol`.
pub open spec fn lcao_of(symbol: Seq<char>) -> Option<u8> {
    match element_record_of(symbol) {
        Some(record) => Some(record.lcao),
        None => None,
    }
}

/// The first of the symbols `symbols` that the periodic table does not
/// know is the one at `index`.
pub open spec fn first_unknown(symbols: Seq<Seq<char>>, index: int) -> bool {
    &&& 0 <= index < symbols.len()
    &&& element_record_of(symbols[index]) is None
    &&& forall|j: int| 0 <= j < index ==> element_record_of(#[trigger] symbols[j]) is Some
}

/// The symbols of the elements of `atoms`, atom by atom.
pub open spec fn symbols_of<S, M>(atoms: Seq<Atom<S, M>>) -> Seq<Seq<char>> {
    Seq::new(atoms.len(), |i: int| atoms[i].element_symbol@)
}

/// The characters of each of `names`.
pub open spec fn texts_of(names: Seq<String>) -> Seq<Seq<char>> {
    Seq::new(names.len(), |i: int| names[i]@)
}

/// The sum of the initial spins of the elements with the symbols `symbols`,
/// where the periodic table knows them all.
pub open spec fn spin_sum(symbols: Seq<Seq<char>>) -> nat
    decreases symbols.len(),
{
    if symbols.len() == 0 {
        0
    } else {
        spin_sum(symbols.drop_last()) + match spin_of(symbols.last()) {
            Some(spin) => spin as nat,
            None => 0,
        }
    }
}

/// The initial spin of each atom of `atoms`, as the periodic table has it
/// for the element of the atom. Fails at the first atom whose element the
/// table does not know.
pub fn spins_of<S, M>(atoms: &[Atom<S, M>]) -> (r: Result<Vec<u8>, UnknownElement>)
    ensures
        match r {
            Ok(spins) => {
                &&& spins@.len() == atoms@.len()
                &&& forall|i: int|
                    0 <= i < atoms@.len() ==> spin_of(atoms@[i].element_symbol@) == Some(
                        #[trigger] spins@[i],
                    )
            },
            Err(e) => first_unknown(symbols_of(atoms@), e.index as int),
        },
{
    let mut spins: Vec<u8> = Vec::new();
    let mut i: usize = 0;
    while i < atoms.len()
        invariant
            0 <= i <= atoms@.len(),
            spins@.len() == i,
            forall|j: int|
                0 <= j < i ==> spin_of(atoms@[j].element_symbol@) == Some(#[trigger] spins@[j]),
        decreases atoms@.len() - i,
    {
        match lookup_element(atoms[i].element_symbol.as_str()) {
            Some(data) => {
                spins.push(data.spin);
            },
            None => {
                proof {
                    assert forall|j: int| 0 <= j < i implies element_record_of(
                        #[trigger] symbols_of(atoms@)[j],
                    ) is Some by {
                        assert(spin_of(atoms@[j].element_symbol@) == Some(spins@[j]));
                    }
                }
                return Err(UnknownElement { index: i });
            },
        }
        i = i + 1;
    }
    Ok(spins)
}

/// The total spin of `atoms`: the sum of the initial spins of the elements
/// of the atoms. Fails at the first atom whose element the periodic table
/// does not know.
pub fn spin_total<S, M>(atoms: &[Atom<S, M>]) -> (r: Result<u128, UnknownElement>)
    ensures
        match r {
            Ok(total) => {
                &&& total == spin_sum(symbols_of(atoms@))
                &&& forall|i: int|
                    0 <= i < atoms@.len() ==> element_record_of(
                        #[trigger] symbols_of(atoms@)[i],
                    ) is Some
            },
            Err(e) => first_unknown(symbols_of(atoms@), e.index as int),
        },
{
    let ghost symbols = symbols_of(atoms@);
    let mut total: u128 = 0;
    let mut i: usize = 0;
    while i < atoms.len()
        invariant
            0 <= i <= atoms@.len(),
            symbols == symbols_of(atoms@),
            total == spin_sum(symbols.take(i as int)),
            total <= 255 * i,
            forall|j: int| 0 <= j < i ==> element_record_of(#[trigger] symbols[j]) is Some,
        decreases atoms@.len() - i,
    {
        proof {
            assert(symbols.take(i + 1).drop_last() =~= symbols.take(i as int));
            assert(symbols.take(i + 1).last() == atoms@[i as int].element_symbol@);
        }
        match lookup_element(atoms[i].element_symbol.as_str()) {
            Some(data) => {
                total = total + data.spin as u128;
            },
            None => {
                return Err(UnknownElement { index: i });
            },
        }
        i = i + 1;
    }
    assert(symbols.take(i as int) =~= symbols);
    Ok(total)
}

/// The potential file of each of the elements `names`. Fails at the first
/// name that the periodic table does not know.
pub fn potentials_of(names: &[String]) -> (r: Result<Vec<String>, UnknownElement>)
    ensures
        match r {
            Ok(files) => {
                &&& files@.len() == names@.len()
                &&& forall|i: int|
                    0 <= i < names@.len() ==> potential_of(names@[i]@) == Some(
                        (#[trigger] files@[i])@,
                    )
            },
            Err(e) => first_unknown(texts_of(names@), e.index as int),
        },
{
    let mut files: Vec<String> = Vec::new();
    let mut i: usize = 0;
    while i < names.len()
        invariant
            0 <= i <= names@.len(),
            files@.len() == i,
            forall|j: int|
                0 <= j < i ==> potential_of(names@[j]@) == Some((#[trigger] files@[j])@),
        decreases names@.len() - i,
    {
        match lookup_element(names[i].as_str()) {
            Some(data) => {
                files.push(data.potential);
            },
            None => {
                proof {
                    assert forall|j: int| 0 <= j < i implies element_record_of(
                        #[trigger] texts_of(names@)[j],
                    ) is Some by {
                        assert(potential_of(names@[j]@) == Some(files@[j]@));
                    }
                }
                return Err(UnknownElement { index: i });
            },
        }
        i = i + 1;
    }
    Ok(files)
}

/// The number of atomic orbitals of each of the elements `names`. Fails at
/// the first name that the periodic table does not know.
pub fn lcao_states_of(names: &[String]) -> (r: Result<Vec<u8>, UnknownElement>)
    ensures
        match r {
            Ok(states) => {
                &&& states@.len() == names@.len()
                &&& forall|i: int|
                    0 <= i < names@.len() ==> lcao_of(names@[i]@) == Some(#[trigger] states@[i])
            },
            Err(e) => first_unknown(texts_of(names@), e.index as int),
        },
{
    let mut states: Vec<u8> = Vec::new();
    let mut i: usize = 0;
    while i < names.len()
        invariant
            0 <= i <= names@.len(),
            states@.len() == i,
            forall|j: int|
                0 <= j < i ==> lcao_of(names@[j]@) == Some(#[trigger] states@[j]),
        decreases names@.len() - i,
    {
        match lookup_element(names[i].as_str()) {
            Some(data) => {
                states.push(data.lcao);
            },
            None => {
                proof {
                    assert forall|j: int| 0 <= j < i implies element_record_of(
                        #[trigger] texts_of(names@)[j],
                    ) is Some by {
                        assert(lcao_of(names@[j]@) == Some(states@[j]));
                    }
                }
                return Err(UnknownElement { index: i });
            },
        }
        i = i + 1;
    }
    Ok(states)
}

/// The block of a `cell` file that goes by `name` and holds `content`.
pub open spec fn block_of(name: Seq<char>, content: Seq<char>) -> Seq<char> {
    "%BlOCK "@ + name + "\n"@ + content + "%ENDBLOCK "@ + name + "\n\n"@
}

/// Writes the block of a `cell` file that goes by `block_name` and holds
/// `content`.
pub fn write_block(block_name: &str, content: &str) -> (block: String)
    ensures
        block@ == block_of(block_name@, content@),
{
    let mut block = "%BlOCK ".to_owned();
    block.append(block_name);
    block.append("\n");
    block.append(content);
    block.append("%ENDBLOCK ");
    block.append(block_name);
    block.append("\n\n");
    block
}

/// The lines that name the potential file of each of the elements `names`:
/// the symbol in a column of eight, two spaces, and the file.
pub open spec fn potential_lines(names: Seq<Seq<char>>) -> Seq<char>
    decreases names.len(),
{
    if names.len() == 0 {
        Seq::empty()
    } else {
        potential_lines(names.drop_last()) + right_aligned_of(names.last(), 8) + "  "@ + (
        match potential_of(names.last()) {
            Some(file) => file,
            None => Seq::empty(),
        }) + "\n"@
    }
}

/// The lines that give the number of atomic orbitals of each of the elements
/// `names`: the symbol in a column of eight, and the number in a column of
/// nine.
pub open spec fn lcao_lines(names: Seq<Seq<char>>) -> Seq<char>
    decreases names.len(),
{
    if names.len() == 0 {
        Seq::empty()
    } else {
        lcao_lines(names.drop_last()) + right_aligned_of(names.last(), 8) + right_aligned_of(
            match lcao_of(names.last()) {
                Some(states) => decimal_digits(states as nat),
                None => Seq::empty(),
            },
            9,
        ) + "\n"@
    }
}

/// Writes the block of a `cell` file that names the potential file of each
/// of the elements `names`. Fails at the first name that the periodic table
/// does not know.
pub fn species_pot_str(names: &[String]) -> (r: Result<String, UnknownElement>)
    ensures
        match r {
            Ok(block) => block@ == block_of("SPECIES_POT"@, potential_lines(texts_of(names@))),
            Err(e) => first_unknown(texts_of(names@), e.index as int),
        },
{
    let files = potentials_of(names)?;
    let ghost texts = texts_of(names@);
    let mut lines = String::new();
    let mut i: usize = 0;
    while i < names.len()
        invariant
            0 <= i <= names@.len(),
            texts == texts_of(names@),
            files@.len() == names@.len(),
            forall|j: int|
                0 <= j < names@.len() ==> potential_of(names@[j]@) == Some(
                    (#[trigger] files@[j])@,
                ),
            lines@ == potential_lines(texts.take(i as int)),
        decreases names@.len() - i,
    {
        proof {
            assert(texts.take(i + 1).drop_last() =~= texts.take(i as int));
            assert(texts.take(i + 1).last() == names@[i as int]@);
            assert(potential_of(names@[i as int]@) == Some(files@[i as int]@));
        }
        let column = right_aligned(names[i].as_str(), 8);
        lines.append(column.as_str());
        lines.append("  ");
        lines.append(files[i].as_str());
        lines.append("\n");
        i = i + 1;
    }
    assert(texts.take(i as int) =~= texts);
    Ok(write_block("SPECIES_POT", lines.as_str()))
}

/// Writes the block of a `cell` file that gives the number of atomic
/// orbitals of each of the elements `names`. Fails at the first name that
/// the periodic table does not know.
pub fn species_lcao_str(names: &[String]) -> (r: Result<String, UnknownElement>)
    ensures
        match r {
            Ok(block) => block@ == block_of(
                "SPECIES_LCAO_STATES"@,
                lcao_lines(texts_of(names@)),
            ),
            Err(e) => first_unknown(texts_of(names@), e.index as int),
        },
{
    let states = lcao_states_of(names)?;
    let ghost texts = texts_of(names@);
    let mut lines = String::new();
    let mut i: usize = 0;
    while i < names.len()
        invariant
            0 <= i <= names@.len(),
            texts == texts_of(names@),
            states@.len() == names@.len(),
            forall|j: int|
                0 <= j < names@.len() ==> lcao_of(names@[j]@) == Some(#[trigger] states@[j]),
            lines@ == lcao_lines(texts.take(i as int)),
        decreases names@.len() - i,
    {
        proof {
            assert(texts.take(i + 1).drop_last() =~= texts.take(i as int));
            assert(texts.take(i + 1).last() == names@[i as int]@);
            assert(lcao_of(names@[i as int]@) == Some(states@[i as int]));
        }
        let column = right_aligned(names[i].as_str(), 8);
        let number = decimal_text(states[i] as u128);
        let count = right_aligned(number.as_str(), 9);
        lines.append(column.as_str());
        lines.append(count.as_str());
        lines.append("\n");
        i = i + 1;
    }
    assert(texts.take(i as int) =~= texts);
    Ok(write_block("SPECIES_LCAO_STATES", lines.as_str()))
}

/// The one k-point of a `cell` file: the origin, with all the weight.
pub open spec fn kpoint_line() -> Seq<char> {
    "   0.0000000000000000   0.0000000000000000   0.0000000000000000       1.000000000000000\n"@
}

/// Writes the block of a `cell` file that lists the k-points: the origin
/// alone, with all the weight.
pub fn kpoints_list_str() -> (block: String)
    ensures
        block@ == block_of("KPOINTS_LIST"@, kpoint_line()),
{
    write_block(
        "KPOINTS_LIST",
        "   0.0000000000000000   0.0000000000000000   0.0000000000000000       1.000000000000000\n",
    )
}

/// The options of a `cell` file that stand between the k-points and the
/// species: the cell is fixed, the centre of mass is not, the ions are not
/// constrained, and there is neither an outer field nor an outer pressure.
pub open spec fn misc_text() -> Seq<char> {
    "FIX_ALL_CELL : true\n\nFIX_COM : false\n"@ + block_of("IONIC_CONSTRAINTS"@, ""@) + block_of(
        "EXTERNAL_EFIELD"@,
        "    0.0000000000     0.0000000000     0.0000000000\n"@,
    ) + block_of(
        "EXTERNAL_PRESSURE"@,
        "    0.0000000000    0.0000000000    0.0000000000\n                    0.0000000000    0.0000000000\n                                    0.0000000000\n"@,
    )
}

/// Writes the options of a `cell` file that stand between the k-points and
/// the species.
pub fn misc_str() -> (text: String)
    ensures
        text@ == misc_text(),
{
    let constraints = write_block("IONIC_CONSTRAINTS", "");
    let field = write_block(
        "EXTERNAL_EFIELD",
        "    0.0000000000     0.0000000000     0.0000000000\n",
    );
    let pressure = write_block(
        "EXTERNAL_PRESSURE",
        "    0.0000000000    0.0000000000    0.0000000000\n                    0.0000000000    0.0000000000\n                                    0.0000000000\n",
    );
    let mut text = "FIX_ALL_CELL : true\n\nFIX_COM : false\n".to_owned();
    text.append(constraints.as_str());
    text.append(field.as_str());
    text.append(pressure.as_str());
    text
}

/// The line of a `cell` file that holds one atom: the symbol of its element
/// in a column of three and its three fractional coordinates as the texts
/// `x`, `y` and `z`; an atom of an element with a spin is given that spin as
/// the text `spin_text`.
pub open spec fn position_line_of(
    symbol: Seq<char>,
    x: Seq<char>,
    y: Seq<char>,
    z: Seq<char>,
    spin: u8,
    spin_text: Seq<char>,
) -> Seq<char> {
    right_aligned_of(symbol, 3) + x + y + z + (if spin > 0 {
        " SPIN="@ + spin_text
    } else {
        Seq::empty()
    }) + "\n"@
}

/// Writes the line of a `cell` file that holds one atom. The coordinates
/// and the spin are given as they are to stand in the file.
pub fn position_line(symbol: &str, x: &str, y: &str, z: &str, spin: u8, spin_text: &str) -> (line:
    String)
    ensures
        line@ == position_line_of(symbol@, x@, y@, z@, spin, spin_text@),
{
    let mut line = right_aligned(symbol, 3);
    line.append(x);
    line.append(y);
    line.append(z);
    if spin > 0 {
        line.append(" SPIN=");
        line.append(spin_text);
        assert(line@ =~= right_aligned_of(symbol@, 3) + x@ + y@ + z@ + (" SPIN="@ + spin_text@));
    } else {
        assert(line@ =~= right_aligned_of(symbol@, 3) + x@ + y@ + z@ + Seq::<char>::empty());
    }
    line.append("\n");
    line
}

} // verus!
