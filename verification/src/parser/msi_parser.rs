//! The structure of an `msi` file.
use vstd::prelude::*;
use vstd::string::{is_ascii_spec_bytes, StrSliceExecFns, StringSliceAdditionalSpecFns};
use crate::atom::Atom;
use crate::format::msi::MsiFormat;
use crate::kernel::Point3;
use crate::parser::{decimal_at, decimal_from, digits_end, is_digit, number_at, number_from};

verus! {

/// Where the text `tag` that starts at `i` ends, where it does start there.
pub open spec fn tag_at(s: Seq<u8>, i: int, tag: Seq<u8>) -> Option<int> {
    if 0 <= i && i + tag.len() <= s.len() && s.subrange(i, i + tag.len()) == tag {
        Some(i + tag.len())
    } else {
        None
    }
}

/// Where the first occurrence of `tag` at or after `i` ends.
pub open spec fn after_first(s: Seq<u8>, i: int, tag: Seq<u8>) -> Option<int>
    decreases s.len() - i,
{
    if tag_at(s, i, tag) is Some {
        tag_at(s, i, tag)
    } else if 0 <= i < s.len() {
        after_first(s, i + 1, tag)
    } else {
        None
    }
}

/// Recognizes `tag` at `start`.
pub fn tag_from(input: &[u8], start: usize, tag: &[u8]) -> (end: Option<usize>)
    requires
        start <= input@.len(),
    ensures
        match end {
            Some(e) => tag_at(input@, start as int, tag@) == Some(e as int) && e
                == start + tag@.len() && e <= input@.len(),
            None => tag_at(input@, start as int, tag@) is None,
        },
{
    let n = input.len();
    let m = tag.len();
    if m > n - start {
        return None;
    }
    let mut k: usize = 0;
    while k < m
        invariant
            0 <= k <= m,
            m == tag@.len(),
            n == input@.len(),
            start + m <= n,
            forall|j: int| 0 <= j < k ==> input@[start + j] == tag@[j],
        decreases m - k,
    {
        if input[start + k] != tag[k] {
            proof {
                assert(input@.subrange(start as int, start + m)[k as int] != tag@[k as int]);
            }
            return None;
        }
        k = k + 1;
    }
    assert(input@.subrange(start as int, start + m) =~= tag@);
    Some(start + m)
}

/// Finds the first occurrence of `tag` at or after `start` and says where
/// it ends.
pub fn find_after(input: &[u8], start: usize, tag: &[u8]) -> (end: Option<usize>)
    requires
        start <= input@.len(),
    ensures
        match end {
            Some(e) => after_first(input@, start as int, tag@) == Some(e as int) && start
                + tag@.len() <= e <= input@.len(),
            None => after_first(input@, start as int, tag@) is None,
        },
{
    let n = input.len();
    let mut i = start;
    loop
        invariant
            start <= i <= n,
            n == input@.len(),
            after_first(input@, start as int, tag@) == after_first(input@, i as int, tag@),
        decreases n - i,
    {
        if let Some(end) = tag_from(input, i, tag) {
            return Some(end);
        }
        if i == n {
            return None;
        }
        i = i + 1;
    }
}

/// The bytes of the text `t`.
pub open spec fn bytes_of(t: &str) -> Seq<u8> {
    t.spec_bytes()
}

/// Where the model starts: after the first line `(1 Model`.
pub open spec fn model_start_at(s: Seq<u8>) -> Option<int> {
    if after_first(s, 0, bytes_of("(1 Model\r\n")) is Some {
        after_first(s, 0, bytes_of("(1 Model\r\n"))
    } else {
        after_first(s, 0, bytes_of("(1 Model\n"))
    }
}

/// Skips the header of the file.
pub fn msi_model_start(input: &[u8]) -> (end: Option<usize>)
    ensures
        match end {
            Some(e) => model_start_at(input@) == Some(e as int) && e <= input@.len(),
            None => model_start_at(input@) is None,
        },
{
    match find_after(input, 0, "(1 Model\r\n".as_bytes()) {
        Some(end) => Some(end),
        None => find_after(input, 0, "(1 Model\n".as_bytes()),
    }
}

/// A piece of a text: the bytes from `from` up to, but without, `to`.
#[derive(Clone, Copy, Debug)]
pub struct Span {
    pub from: usize,
    pub to: usize,
}

/// The piece from `from` up to `to`.
pub open spec fn span(from: int, to: int) -> Span {
    Span { from: from as usize, to: to as usize }
}

/// `b` is a space or a tab.
pub open spec fn is_blank(b: u8) -> bool {
    b == 32 || b == 9
}

/// `b` is an ASCII letter.
pub open spec fn is_letter(b: u8) -> bool {
    65 <= b <= 90 || 97 <= b <= 122
}

/// Where the longest run of spaces and tabs that starts at `i` ends.
pub open spec fn blanks_end(s: Seq<u8>, i: int) -> int
    decreases s.len() - i,
{
    if 0 <= i < s.len() && is_blank(s[i]) {
        blanks_end(s, i + 1)
    } else {
        i
    }
}

/// Where the run of one or more spaces and tabs that starts at `i` ends.
pub open spec fn blank1_at(s: Seq<u8>, i: int) -> Option<int> {
    if blanks_end(s, i) > i {
        Some(blanks_end(s, i))
    } else {
        None
    }
}

/// Where the longest run of letters that starts at `i` ends.
pub open spec fn letters_end(s: Seq<u8>, i: int) -> int
    decreases s.len() - i,
{
    if 0 <= i < s.len() && is_letter(s[i]) {
        letters_end(s, i + 1)
    } else {
        i
    }
}

/// Where the run of one or more letters that starts at `i` ends.
pub open spec fn letter1_at(s: Seq<u8>, i: int) -> Option<int> {
    if letters_end(s, i) > i {
        Some(letters_end(s, i))
    } else {
        None
    }
}

/// Where the line ending that starts at `i` ends: a line feed, or a carriage
/// return and a line feed.
pub open spec fn line_ending_at(s: Seq<u8>, i: int) -> Option<int> {
    if 0 <= i < s.len() && s[i] == 10 {
        Some(i + 1)
    } else if 0 <= i && i + 1 < s.len() && s[i] == 13 && s[i + 1] == 10 {
        Some(i + 2)
    } else {
        None
    }
}

/// Where `tag` and the line ending after it end.
pub open spec fn closing_at(s: Seq<u8>, i: int, tag: Seq<u8>) -> Option<int> {
    match tag_at(s, i, tag) {
        Some(end) => line_ending_at(s, end),
        None => None,
    }
}

/// Where `tag`, after one or more spaces and tabs, ends.
pub open spec fn indented_at(s: Seq<u8>, i: int, tag: Seq<u8>) -> Option<int> {
    match blank1_at(s, i) {
        Some(end) => tag_at(s, end, tag),
        None => None,
    }
}

/// Scans the longest run of spaces and tabs from `start` on.
pub fn scan_blanks(input: &[u8], start: usize) -> (end: usize)
    requires
        start <= input@.len(),
    ensures
        end == blanks_end(input@, start as int),
        start <= end <= input@.len(),
{
    let mut i = start;
    while i < input.len() && (input[i] == 32 || input[i] == 9)
        invariant
            start <= i <= input@.len(),
            blanks_end(input@, start as int) == blanks_end(input@, i as int),
        decreases input@.len() - i,
    {
        i = i + 1;
    }
    i
}

/// Scans the longest run of letters from `start` on.
pub fn scan_letters(input: &[u8], start: usize) -> (end: usize)
    requires
        start <= input@.len(),
    ensures
        end == letters_end(input@, start as int),
        start <= end <= input@.len(),
{
    let mut i = start;
    while i < input.len() && ((input[i] >= 65 && input[i] <= 90) || (input[i] >= 97 && input[i]
        <= 122))
        invariant
            start <= i <= input@.len(),
            letters_end(input@, start as int) == letters_end(input@, i as int),
        decreases input@.len() - i,
    {
        i = i + 1;
    }
    i
}

/// Recognizes one or more spaces and tabs from `start` on.
pub fn blank1_from(input: &[u8], start: usize) -> (end: Option<usize>)
    requires
        start <= input@.len(),
    ensures
        match end {
            Some(e) => blank1_at(input@, start as int) == Some(e as int) && start < e
                <= input@.len(),
            None => blank1_at(input@, start as int) is None,
        },
{
    let end = scan_blanks(input, start);
    if end > start {
        Some(end)
    } else {
        None
    }
}

/// Recognizes one or more letters from `start` on.
pub fn letter1_from(input: &[u8], start: usize) -> (end: Option<usize>)
    requires
        start <= input@.len(),
    ensures
        match end {
            Some(e) => letter1_at(input@, start as int) == Some(e as int) && start < e
                <= input@.len(),
            None => letter1_at(input@, start as int) is None,
        },
{
    let end = scan_letters(input, start);
    if end > start {
        Some(end)
    } else {
        None
    }
}

/// Recognizes a line ending at `start`.
pub fn line_ending_from(input: &[u8], start: usize) -> (end: Option<usize>)
    requires
        start <= input@.len(),
    ensures
        match end {
            Some(e) => line_ending_at(input@, start as int) == Some(e as int) && start < e
                <= input@.len(),
            None => line_ending_at(input@, start as int) is None,
        },
{
    let n = input.len();
    if start < n && input[start] == 10 {
        Some(start + 1)
    } else if start < n && n - start > 1 && input[start] == 13 && input[start + 1] == 10 {
        Some(start + 2)
    } else {
        None
    }
}

/// Recognizes `tag` and the line ending after it.
pub fn closing_from(input: &[u8], start: usize, tag: &[u8]) -> (end: Option<usize>)
    requires
        start <= input@.len(),
    ensures
        match end {
            Some(e) => closing_at(input@, start as int, tag@) == Some(e as int) && start < e
                <= input@.len(),
            None => closing_at(input@, start as int, tag@) is None,
        },
{
    match tag_from(input, start, tag) {
        Some(end) => line_ending_from(input, end),
        None => None,
    }
}

/// Recognizes `tag` after one or more spaces and tabs.
pub fn indented_from(input: &[u8], start: usize, tag: &[u8]) -> (end: Option<usize>)
    requires
        start <= input@.len(),
    ensures
        match end {
            Some(e) => indented_at(input@, start as int, tag@) == Some(e as int) && start < e
                <= input@.len(),
            None => indented_at(input@, start as int, tag@) is None,
        },
{
    match blank1_from(input, start) {
        Some(end) => tag_from(input, end, tag),
        None => None,
    }
}

/// The three numbers of a point or a vector, as pieces of the text.
#[derive(Clone, Copy, Debug)]
pub struct Xyz {
    pub x: Span,
    pub y: Span,
    pub z: Span,
}

/// Where the closing of a coordinate triple ends: `))` and a line ending.
pub open spec fn xyz_close_at(s: Seq<u8>, i: int) -> Option<int> {
    closing_at(s, i, bytes_of("))"))
}

/// The coordinate triple that starts at `i`, and where it ends: three
/// numbers, apart by spaces and tabs or by nothing, then `))` and a line
/// ending.
pub open spec fn xyz_at(s: Seq<u8>, i: int) -> Option<(Xyz, int)> {
    match number_at(s, i) {
        Some(x_end) => match number_at(s, blanks_end(s, x_end)) {
            Some(y_end) => match number_at(s, blanks_end(s, y_end)) {
                Some(z_end) => match xyz_close_at(s, z_end) {
                    Some(end) => Some(
                        (
                            Xyz {
                                x: span(i, x_end),
                                y: span(blanks_end(s, x_end), y_end),
                                z: span(blanks_end(s, y_end), z_end),
                            },
                            end,
                        ),
                    ),
                    None => None,
                },
                None => None,
            },
            None => None,
        },
        None => None,
    }
}

/// Recognizes a coordinate triple from `start` on.
pub fn parse_xyz(input: &[u8], start: usize) -> (r: Option<(Xyz, usize)>)
    requires
        start <= input@.len(),
    ensures
        match r {
            Some((xyz, end)) => xyz_at(input@, start as int) == Some((xyz, end as int)) && start
                < end <= input@.len() && xyz_wf(input@, xyz),
            None => xyz_at(input@, start as int) is None,
        },
{
    reveal(xyz_wf);
    let x_end = match number_from(input, start) {
        Some(e) => e,
        None => {
            return None;
        },
    };
    let y_from = scan_blanks(input, x_end);
    let y_end = match number_from(input, y_from) {
        Some(e) => e,
        None => {
            return None;
        },
    };
    let z_from = scan_blanks(input, y_end);
    let z_end = match number_from(input, z_from) {
        Some(e) => e,
        None => {
            return None;
        },
    };
    match closing_from(input, z_end, "))".as_bytes()) {
        Some(end) => Some(
            (
                Xyz {
                    x: Span { from: start, to: x_end },
                    y: Span { from: y_from, to: y_end },
                    z: Span { from: z_from, to: z_end },
                },
                end,
            ),
        ),
        None => None,
    }
}

/// The cell vector that is announced by `tag` at or after `i`, and where it
/// ends.
pub open spec fn cell_vector_at(s: Seq<u8>, i: int, tag: Seq<u8>) -> Option<(Xyz, int)> {
    match after_first(s, i, tag) {
        Some(at) => xyz_at(s, at),
        None => None,
    }
}

/// The three cell vectors at or after `i`, and where the last one ends.
pub open spec fn lattice_vector_at(s: Seq<u8>, i: int) -> Option<([Xyz; 3], int)> {
    match cell_vector_at(s, i, bytes_of("A D A3 (")) {
        Some((a, a_end)) => match cell_vector_at(s, a_end, bytes_of("A D B3 (")) {
            Some((b, b_end)) => match cell_vector_at(s, b_end, bytes_of("A D C3 (")) {
                Some((c, c_end)) => Some(([a, b, c], c_end)),
                None => None,
            },
            None => None,
        },
        None => None,
    }
}

/// Finds the cell vector that `tag` announces.
pub fn cell_vector(input: &[u8], start: usize, tag: &[u8]) -> (r: Option<(Xyz, usize)>)
    requires
        start <= input@.len(),
    ensures
        match r {
            Some((xyz, end)) => cell_vector_at(input@, start as int, tag@) == Some(
                (xyz, end as int),
            ) && start < end <= input@.len() && xyz_wf(input@, xyz),
            None => cell_vector_at(input@, start as int, tag@) is None,
        },
{
    match find_after(input, start, tag) {
        Some(at) => parse_xyz(input, at),
        None => None,
    }
}

/// Finds the three cell vectors of the model.
pub fn lattice_vector(input: &[u8], start: usize) -> (r: Option<([Xyz; 3], usize)>)
    requires
        start <= input@.len(),
    ensures
        match r {
            Some((cell, end)) => lattice_vector_at(input@, start as int) == Some(
                (cell, end as int),
            ) && start < end <= input@.len() && xyz_wf(input@, cell@[0]) && xyz_wf(
                input@,
                cell@[1],
            ) && xyz_wf(input@, cell@[2]),
            None => lattice_vector_at(input@, start as int) is None,
        },
{
    let (a, a_end) = match cell_vector(input, start, "A D A3 (".as_bytes()) {
        Some(found) => found,
        None => {
            return None;
        },
    };
    let (b, b_end) = match cell_vector(input, a_end, "A D B3 (".as_bytes()) {
        Some(found) => found,
        None => {
            return None;
        },
    };
    let (c, c_end) = match cell_vector(input, b_end, "A D C3 (".as_bytes()) {
        Some(found) => found,
        None => {
            return None;
        },
    };
    Some(([a, b, c], c_end))
}

/// The pieces of the text that one atom block is made of.
#[derive(Clone, Copy, Debug)]
pub struct AtomSpans {
    /// The atomic number.
    pub element_id: Span,
    /// The symbol of the element.
    pub symbol: Span,
    /// The coordinates.
    pub xyz: Xyz,
    /// The id of the atom.
    pub atom_id: Span,
}

/// Where the opening line of an atom block ends: `(`, a number, ` Atom` and
/// a line ending, after one or more spaces and tabs.
pub open spec fn atom_open_at(s: Seq<u8>, i: int) -> Option<int> {
    match indented_at(s, i, bytes_of("(")) {
        Some(at) => match decimal_at(s, at) {
            Some(end) => closing_at(s, end, bytes_of(" Atom")),
            None => None,
        },
        None => None,
    }
}

/// The element line of an atom block, such as `(A C ACL "6 C")`: the pieces
/// that hold the atomic number and the symbol, and where the line ends.
pub open spec fn element_at(s: Seq<u8>, i: int) -> Option<(Span, Span, int)> {
    match indented_at(s, i, bytes_of("(A C ACL \"")) {
        Some(id_from) => match decimal_at(s, id_from) {
            Some(id_to) => match tag_at(s, id_to, bytes_of(" ")) {
                Some(symbol_from) => match letter1_at(s, symbol_from) {
                    Some(symbol_to) => match closing_at(s, symbol_to, bytes_of("\")")) {
                        Some(end) => Some(
                            (span(id_from, id_to), span(symbol_from, symbol_to), end),
                        ),
                        None => None,
                    },
                    None => None,
                },
                None => None,
            },
            None => None,
        },
        None => None,
    }
}

/// Where the label line of an atom block, such as `(A C Label "C")`, ends.
pub open spec fn label_at(s: Seq<u8>, i: int) -> Option<int> {
    match indented_at(s, i, bytes_of("(A C Label \"")) {
        Some(at) => match letter1_at(s, at) {
            Some(end) => closing_at(s, end, bytes_of("\")")),
            None => None,
        },
        None => None,
    }
}

/// The coordinate line of an atom block, such as `(A D XYZ (0.1 0.2 0.3))`.
pub open spec fn xyz_line_at(s: Seq<u8>, i: int) -> Option<(Xyz, int)> {
    match indented_at(s, i, bytes_of("(A D XYZ (")) {
        Some(at) => xyz_at(s, at),
        None => None,
    }
}

/// The coordinates of an atom block, with or without a label line before
/// them.
pub open spec fn position_at(s: Seq<u8>, i: int) -> Option<(Xyz, int)> {
    let labelled = match label_at(s, i) {
        Some(at) => xyz_line_at(s, at),
        None => None,
    };
    if labelled is Some {
        labelled
    } else {
        xyz_line_at(s, i)
    }
}

/// The id line of an atom block, such as `(A I Id 1)`, and the closing of
/// the block after it.
pub open spec fn id_at(s: Seq<u8>, i: int) -> Option<(Span, int)> {
    match indented_at(s, i, bytes_of("(A I Id ")) {
        Some(id_from) => match decimal_at(s, id_from) {
            Some(id_to) => match closing_at(s, id_to, bytes_of(")")) {
                Some(line_end) => match indented_at(s, line_end, bytes_of(")")) {
                    Some(at) => match line_ending_at(s, at) {
                        Some(end) => Some((span(id_from, id_to), end)),
                        None => None,
                    },
                    None => None,
                },
                None => None,
            },
            None => None,
        },
        None => None,
    }
}

/// The atom block that starts at `i`, and where it ends.
pub open spec fn atom_at(s: Seq<u8>, i: int) -> Option<(AtomSpans, int)> {
    match atom_open_at(s, i) {
        Some(opened) => match element_at(s, opened) {
            Some((element_id, symbol, element_end)) => match position_at(s, element_end) {
                Some((xyz, xyz_end)) => match id_at(s, xyz_end) {
                    Some((atom_id, end)) => Some(
                        (AtomSpans { element_id, symbol, xyz, atom_id }, end),
                    ),
                    None => None,
                },
                None => None,
            },
            None => None,
        },
        None => None,
    }
}

/// The atom blocks that follow one another from `i` on.
pub open spec fn atoms_at(s: Seq<u8>, i: int) -> Seq<AtomSpans>
    decreases s.len() - i,
{
    match atom_at(s, i) {
        Some((atom, end)) => if i < end <= s.len() {
            seq![atom] + atoms_at(s, end)
        } else {
            seq![atom]
        },
        None => Seq::empty(),
    }
}

/// Recognizes the opening line of an atom block.
pub fn atom_open(input: &[u8], start: usize) -> (end: Option<usize>)
    requires
        start <= input@.len(),
    ensures
        match end {
            Some(e) => atom_open_at(input@, start as int) == Some(e as int) && start < e
                <= input@.len(),
            None => atom_open_at(input@, start as int) is None,
        },
{
    let at = match indented_from(input, start, "(".as_bytes()) {
        Some(e) => e,
        None => {
            return None;
        },
    };
    match decimal_from(input, at) {
        Some(end) => closing_from(input, end, " Atom".as_bytes()),
        None => None,
    }
}

/// Recognizes the element line of an atom block.
pub fn element_line(input: &[u8], start: usize) -> (r: Option<(Span, Span, usize)>)
    requires
        start <= input@.len(),
    ensures
        match r {
            Some((id, symbol, end)) => element_at(input@, start as int) == Some(
                (id, symbol, end as int),
            ) && start < end <= input@.len() && decimal_at(input@, id.from as int) == Some(
                id.to as int,
            ) && id.from < id.to <= input@.len() && letters_end(input@, symbol.from as int)
                == symbol.to && symbol.from < symbol.to <= input@.len(),
            None => element_at(input@, start as int) is None,
        },
{
    let id_from = match indented_from(input, start, "(A C ACL \"".as_bytes()) {
        Some(e) => e,
        None => {
            return None;
        },
    };
    let id_to = match decimal_from(input, id_from) {
        Some(e) => e,
        None => {
            return None;
        },
    };
    let symbol_from = match tag_from(input, id_to, " ".as_bytes()) {
        Some(e) => e,
        None => {
            return None;
        },
    };
    let symbol_to = match letter1_from(input, symbol_from) {
        Some(e) => e,
        None => {
            return None;
        },
    };
    match closing_from(input, symbol_to, "\")".as_bytes()) {
        Some(end) => Some(
            (Span { from: id_from, to: id_to }, Span { from: symbol_from, to: symbol_to }, end),
        ),
        None => None,
    }
}

/// Recognizes the label line of an atom block.
pub fn label_line(input: &[u8], start: usize) -> (end: Option<usize>)
    requires
        start <= input@.len(),
    ensures
        match end {
            Some(e) => label_at(input@, start as int) == Some(e as int) && start < e
                <= input@.len(),
            None => label_at(input@, start as int) is None,
        },
{
    let at = match indented_from(input, start, "(A C Label \"".as_bytes()) {
        Some(e) => e,
        None => {
            return None;
        },
    };
    match letter1_from(input, at) {
        Some(end) => closing_from(input, end, "\")".as_bytes()),
        None => None,
    }
}

/// Recognizes the coordinate line of an atom block.
pub fn xyz_line(input: &[u8], start: usize) -> (r: Option<(Xyz, usize)>)
    requires
        start <= input@.len(),
    ensures
        match r {
            Some((xyz, end)) => xyz_line_at(input@, start as int) == Some((xyz, end as int))
                && start < end <= input@.len() && xyz_wf(input@, xyz),
            None => xyz_line_at(input@, start as int) is None,
        },
{
    match indented_from(input, start, "(A D XYZ (".as_bytes()) {
        Some(at) => parse_xyz(input, at),
        None => None,
    }
}

/// Recognizes the coordinates of an atom block, with or without a label
/// line before them.
pub fn position(input: &[u8], start: usize) -> (r: Option<(Xyz, usize)>)
    requires
        start <= input@.len(),
    ensures
        match r {
            Some((xyz, end)) => position_at(input@, start as int) == Some((xyz, end as int))
                && start < end <= input@.len() && xyz_wf(input@, xyz),
            None => position_at(input@, start as int) is None,
        },
{
    if let Some(at) = label_line(input, start) {
        if let Some(found) = xyz_line(input, at) {
            return Some(found);
        }
    }
    xyz_line(input, start)
}

/// Recognizes the id line of an atom block and the closing of the block.
pub fn id_line(input: &[u8], start: usize) -> (r: Option<(Span, usize)>)
    requires
        start <= input@.len(),
    ensures
        match r {
            Some((id, end)) => id_at(input@, start as int) == Some((id, end as int)) && start
                < end <= input@.len() && decimal_at(input@, id.from as int) == Some(
                id.to as int,
            ) && id.from < id.to <= input@.len(),
            None => id_at(input@, start as int) is None,
        },
{
    let id_from = match indented_from(input, start, "(A I Id ".as_bytes()) {
        Some(e) => e,
        None => {
            return None;
        },
    };
    let id_to = match decimal_from(input, id_from) {
        Some(e) => e,
        None => {
            return None;
        },
    };
    let line_end = match closing_from(input, id_to, ")".as_bytes()) {
        Some(e) => e,
        None => {
            return None;
        },
    };
    let at = match indented_from(input, line_end, ")".as_bytes()) {
        Some(e) => e,
        None => {
            return None;
        },
    };
    match line_ending_from(input, at) {
        Some(end) => Some((Span { from: id_from, to: id_to }, end)),
        None => None,
    }
}

/// What holds of the pieces of an atom block of the text `s`: each lies
/// within the text and is not empty, the numbers are decimal numerals, and
/// the symbol is made of letters.
#[verifier::opaque]
pub open spec fn atom_spans_wf(s: Seq<u8>, atom: AtomSpans) -> bool {
    &&& decimal_at(s, atom.element_id.from as int) == Some(atom.element_id.to as int)
    &&& atom.element_id.from < atom.element_id.to <= s.len()
    &&& letters_end(s, atom.symbol.from as int) == atom.symbol.to
    &&& atom.symbol.from < atom.symbol.to <= s.len()
    &&& decimal_at(s, atom.atom_id.from as int) == Some(atom.atom_id.to as int)
    &&& atom.atom_id.from < atom.atom_id.to <= s.len()
    &&& xyz_wf(s, atom.xyz)
}

/// What holds of the pieces of a coordinate triple of the text `s`: each is
/// a number of the text.
#[verifier::opaque]
pub open spec fn xyz_wf(s: Seq<u8>, xyz: Xyz) -> bool {
    &&& number_at(s, xyz.x.from as int) == Some(xyz.x.to as int)
    &&& xyz.x.from < xyz.x.to <= s.len()
    &&& number_at(s, xyz.y.from as int) == Some(xyz.y.to as int)
    &&& xyz.y.from < xyz.y.to <= s.len()
    &&& number_at(s, xyz.z.from as int) == Some(xyz.z.to as int)
    &&& xyz.z.from < xyz.z.to <= s.len()
}

/// Recognizes an atom block from `start` on.
pub fn parse_atom(input: &[u8], start: usize) -> (r: Option<(AtomSpans, usize)>)
    requires
        start <= input@.len(),
    ensures
        match r {
            Some((atom, end)) => atom_at(input@, start as int) == Some((atom, end as int))
                && start < end <= input@.len() && atom_spans_wf(input@, atom),
            None => atom_at(input@, start as int) is None,
        },
{
    reveal(atom_spans_wf);
    let opened = match atom_open(input, start) {
        Some(e) => e,
        None => {
            return None;
        },
    };
    let (element_id, symbol, element_end) = match element_line(input, opened) {
        Some(found) => found,
        None => {
            return None;
        },
    };
    let (xyz, xyz_end) = match position(input, element_end) {
        Some(found) => found,
        None => {
            return None;
        },
    };
    match id_line(input, xyz_end) {
        Some((atom_id, end)) => Some((AtomSpans { element_id, symbol, xyz, atom_id }, end)),
        None => None,
    }
}

/// Recognizes the atom blocks that follow one another from `start` on.
pub fn parse_atoms(input: &[u8], start: usize) -> (atoms: Vec<AtomSpans>)
    requires
        start <= input@.len(),
    ensures
        atoms@ == atoms_at(input@, start as int),
        forall|k: int| 0 <= k < atoms@.len() ==> atom_spans_wf(input@, #[trigger] atoms@[k]),
{
    let mut atoms: Vec<AtomSpans> = Vec::new();
    let mut i = start;
    loop
        invariant
            start <= i <= input@.len(),
            atoms_at(input@, start as int) == atoms@ + atoms_at(input@, i as int),
            forall|k: int| 0 <= k < atoms@.len() ==> atom_spans_wf(input@, #[trigger] atoms@[k]),
        decreases input@.len() - i,
    {
        match parse_atom(input, i) {
            Some((atom, end)) => {
                proof {
                    assert(atoms@.push(atom) + atoms_at(input@, end as int) =~= atoms@ + (seq![
                        atom,
                    ] + atoms_at(input@, end as int)));
                }
                atoms.push(atom);
                i = end;
            },
            None => {
                proof {
                    assert(atoms@ + Seq::<AtomSpans>::empty() =~= atoms@);
                }
                return atoms;
            },
        }
    }
}

/// Why a text is not read as a model.
#[derive(Debug, Clone, Copy, PartialEq, Eq, Structural)]
pub enum ParseError {
    /// The text holds a character outside ASCII.
    NotAscii,
    /// There is no line `(1 Model`.
    NoModel,
    /// The line of the last cell vector does not end.
    NoLineEnding,
    /// No atom block follows.
    NoAtom,
    /// An atomic number or an atom id is too large.
    NumberTooLarge,
}

/// Where the line that `i` lies in ends, after its line ending. A carriage
/// return with a line feed anywhere further on counts before a line feed
/// alone.
pub open spec fn rest_of_line_at(s: Seq<u8>, i: int) -> Option<int> {
    if after_first(s, i, bytes_of("\r\n")) is Some {
        after_first(s, i, bytes_of("\r\n"))
    } else {
        after_first(s, i, bytes_of("\n"))
    }
}

/// The pieces of the text that a model is made of: the three cell vectors,
/// where the model has a cell, and the atoms.
pub struct ModelSpans {
    /// The cell vectors a, b and c.
    pub lattice_vectors: Option<[Xyz; 3]>,
    /// The atom blocks, in the order of the text.
    pub atoms: Vec<AtomSpans>,
}

/// The atom blocks from `i` on, which must be one at least.
pub open spec fn some_atoms_at(s: Seq<u8>, i: int) -> Result<Seq<AtomSpans>, ParseError> {
    if atoms_at(s, i).len() > 0 {
        Ok(atoms_at(s, i))
    } else {
        Err(ParseError::NoAtom)
    }
}

/// The model that the text `s` holds.
///
/// The model starts after the first line `(1 Model`. Where three cell
/// vectors follow, announced by `A D A3 (`, `A D B3 (` and `A D C3 (` in this
/// order, the atom blocks start on the line after them; otherwise they start
/// at once. There must be one atom block at least.
#[verifier::opaque]
pub open spec fn model_at(s: Seq<u8>) -> Result<(Option<[Xyz; 3]>, Seq<AtomSpans>), ParseError> {
    match model_start_at(s) {
        Some(start) => match lattice_vector_at(s, start) {
            Some((cell, cell_end)) => match rest_of_line_at(s, cell_end) {
                Some(line_end) => match some_atoms_at(s, line_end) {
                    Ok(atoms) => Ok((Some(cell), atoms)),
                    Err(e) => Err(e),
                },
                None => Err(ParseError::NoLineEnding),
            },
            None => match some_atoms_at(s, start) {
                Ok(atoms) => Ok((None, atoms)),
                Err(e) => Err(e),
            },
        },
        None => Err(ParseError::NoModel),
    }
}

/// Finds the pieces of the text that the model is made of.
pub fn scan_model(input: &[u8]) -> (r: Result<ModelSpans, ParseError>)
    ensures
        match r {
            Ok(model) => {
                &&& model_at(input@) == Ok::<(Option<[Xyz; 3]>, Seq<AtomSpans>), ParseError>(
                    (model.lattice_vectors, model.atoms@),
                )
                &&& model.atoms@.len() > 0
                &&& forall|k: int|
                    0 <= k < model.atoms@.len() ==> atom_spans_wf(
                        input@,
                        #[trigger] model.atoms@[k],
                    )
                &&& model.lattice_vectors matches Some(cell) ==> xyz_wf(input@, cell@[0])
                    && xyz_wf(input@, cell@[1]) && xyz_wf(input@, cell@[2])
            },
            Err(e) => model_at(input@) == Err::<(Option<[Xyz; 3]>, Seq<AtomSpans>), ParseError>(
                e,
            ),
        },
{
    reveal(model_at);
    let start = match msi_model_start(input) {
        Some(e) => e,
        None => {
            return Err(ParseError::NoModel);
        },
    };
    match lattice_vector(input, start) {
        Some((cell, cell_end)) => {
            let line_end = match find_after(input, cell_end, "\r\n".as_bytes()) {
                Some(e) => e,
                None => match find_after(input, cell_end, "\n".as_bytes()) {
                    Some(e) => e,
                    None => {
                        return Err(ParseError::NoLineEnding);
                    },
                },
            };
            let atoms = parse_atoms(input, line_end);
            if atoms.len() == 0 {
                return Err(ParseError::NoAtom);
            }
            Ok(ModelSpans { lattice_vectors: Some(cell), atoms })
        },
        None => {
            let atoms = parse_atoms(input, start);
            if atoms.len() == 0 {
                return Err(ParseError::NoAtom);
            }
            Ok(ModelSpans { lattice_vectors: None, atoms })
        },
    }
}

/// The number that the digit `b` stands for.
pub open spec fn digit_value(b: u8) -> nat {
    if is_digit(b) {
        (b - 48) as nat
    } else {
        0
    }
}

/// The number that the digits of `s` from `from` up to `to` stand for.
pub open spec fn decimal_value(s: Seq<u8>, from: int, to: int) -> nat
    decreases to - from,
{
    if to <= from || from < 0 || to > s.len() {
        0
    } else {
        decimal_value(s, from, to - 1) * 10 + digit_value(s[to - 1])
    }
}

/// Every byte of a run of digits is a digit.
pub proof fn lemma_digits_run(s: Seq<u8>, i: int, j: int)
    requires
        0 <= i <= j < digits_end(s, i),
    ensures
        j < s.len(),
        is_digit(s[j]),
    decreases j - i,
{
    if i < j {
        lemma_digits_run(s, i + 1, j);
    }
}

/// A numeral stands for no less than each of its prefixes.
pub proof fn lemma_value_grows(s: Seq<u8>, from: int, mid: int, to: int)
    requires
        0 <= from <= mid <= to <= s.len(),
    ensures
        decimal_value(s, from, mid) <= decimal_value(s, from, to),
    decreases to - mid,
{
    if mid < to {
        lemma_value_grows(s, from, mid, to - 1);
    }
}

/// Reads the decimal numeral `piece` of `input`. There is no result exactly
/// where the number is too large.
pub fn read_u32(input: &[u8], piece: Span) -> (r: Option<u32>)
    requires
        decimal_at(input@, piece.from as int) == Some(piece.to as int),
        piece.from < piece.to <= input@.len(),
    ensures
        match r {
            Some(v) => v == decimal_value(input@, piece.from as int, piece.to as int),
            None => decimal_value(input@, piece.from as int, piece.to as int) > u32::MAX,
        },
{
    let mut acc: u64 = 0;
    let mut i = piece.from;
    while i < piece.to
        invariant
            piece.from <= i <= piece.to <= input@.len(),
            digits_end(input@, piece.from as int) == piece.to,
            acc == decimal_value(input@, piece.from as int, i as int),
            acc <= u32::MAX,
        decreases piece.to - i,
    {
        proof {
            lemma_digits_run(input@, piece.from as int, i as int);
        }
        let digit = (input[i] - 48) as u64;
        acc = acc * 10 + digit;
        i = i + 1;
        if acc > 0xffff_ffff {
            proof {
                lemma_value_grows(input@, piece.from as int, i as int, piece.to as int);
            }
            return None;
        }
    }
    Some(acc as u32)
}

/// The value `value` was read from the piece `piece` of `text`: it is what
/// `number` gave for that piece.
pub open spec fn number_read_as<S, F: Fn(&str) -> S>(
    text: &str,
    number: F,
    piece: Span,
    value: S,
) -> bool {
    exists|t: &str|
        t@ == text@.subrange(piece.from as int, piece.to as int) && #[trigger] call_ensures(
            number,
            (t,),
            value,
        )
}

/// The point `point` was read from the coordinate triple `xyz` of `text`.
pub open spec fn point_read_as<S, F: Fn(&str) -> S>(
    text: &str,
    number: F,
    xyz: Xyz,
    point: Point3<S>,
) -> bool {
    &&& number_read_as(text, number, xyz.x, point.x)
    &&& number_read_as(text, number, xyz.y, point.y)
    &&& number_read_as(text, number, xyz.z, point.z)
}

/// The vector `vector` was read from the coordinate triple `xyz` of `text`.
pub open spec fn vector_read_as<S, F: Fn(&str) -> S>(
    text: &str,
    number: F,
    xyz: Xyz,
    vector: [S; 3],
) -> bool {
    &&& number_read_as(text, number, xyz.x, vector@[0])
    &&& number_read_as(text, number, xyz.y, vector@[1])
    &&& number_read_as(text, number, xyz.z, vector@[2])
}

/// The atom `atom` was read from the atom block `spans` of `text`.
pub open spec fn atom_read_as<S, F: Fn(&str) -> S>(
    text: &str,
    number: F,
    spans: AtomSpans,
    atom: Atom<S, MsiFormat>,
) -> bool {
    &&& atom.element_id == decimal_value(
        text.spec_bytes(),
        spans.element_id.from as int,
        spans.element_id.to as int,
    )
    &&& atom.atom_id == decimal_value(
        text.spec_bytes(),
        spans.atom_id.from as int,
        spans.atom_id.to as int,
    )
    &&& atom.element_symbol@ == text@.subrange(spans.symbol.from as int, spans.symbol.to as int)
    &&& point_read_as(text, number, spans.xyz, atom.xyz)
}

/// The atomic number and the atom id of the atom block `atom` are small
/// enough to be held.
pub open spec fn atom_fits(s: Seq<u8>, atom: AtomSpans) -> bool {
    &&& decimal_value(s, atom.element_id.from as int, atom.element_id.to as int) <= u32::MAX
    &&& decimal_value(s, atom.atom_id.from as int, atom.atom_id.to as int) <= u32::MAX
}

/// The atomic numbers and the atom ids of `atoms` are small enough to be
/// held.
pub open spec fn numbers_fit(s: Seq<u8>, atoms: Seq<AtomSpans>) -> bool {
    forall|k: int| 0 <= k < atoms.len() ==> atom_fits(s, #[trigger] atoms[k])
}

/// Why the text `text` is not read as a model, if it is not.
pub open spec fn parse_error_of(text: &str) -> Option<ParseError> {
    if !text.is_ascii() {
        Some(ParseError::NotAscii)
    } else {
        match model_at(text.spec_bytes()) {
            Ok((_, atoms)) => if numbers_fit(text.spec_bytes(), atoms) {
                None
            } else {
                Some(ParseError::NumberTooLarge)
            },
            Err(e) => Some(e),
        }
    }
}

/// A model as an `msi` file holds it.
#[derive(Debug)]
pub struct MsiModel<S> {
    /// The cell vectors a, b and c, where the model has a cell.
    pub lattice_vectors: Option<[[S; 3]; 3]>,
    /// The atoms, in the order of the file.
    pub atoms: Vec<Atom<S, MsiFormat>>,
}

/// Reads the number that the piece `piece` of `text` holds.
fn read_number<S, F: Fn(&str) -> S>(text: &str, number: &F, piece: Span) -> (value: S)
    requires
        text.is_ascii(),
        piece.from <= piece.to <= text@.len(),
        forall|t: &str| call_requires(*number, (t,)),
    ensures
        number_read_as(text, *number, piece, value),
{
    let t = text.substring_ascii(piece.from, piece.to);
    number(t)
}

/// The bytes of a text that is all ASCII: one for each character.
fn ascii_bytes<'a>(text: &'a str) -> (input: &'a [u8])
    requires
        text.is_ascii(),
    ensures
        input@ == text.spec_bytes(),
        input@.len() == text@.len(),
{
    broadcast use is_ascii_spec_bytes;

    text.as_bytes()
}

/// Reads the atom that the atom block `block` of `text` holds. There is no
/// result exactly where its atomic number or its id is too large.
fn read_atom<S, F: Fn(&str) -> S>(
    text: &str,
    input: &[u8],
    number: &F,
    block: AtomSpans,
) -> (r: Option<Atom<S, MsiFormat>>)
    requires
        text.is_ascii(),
        input@ == text.spec_bytes(),
        input@.len() == text@.len(),
        atom_spans_wf(input@, block),
        forall|t: &str| call_requires(*number, (t,)),
    ensures
        match r {
            Some(atom) => atom_fits(input@, block) && atom_read_as(text, *number, block, atom),
            None => !atom_fits(input@, block),
        },
{
    reveal(atom_spans_wf);
    reveal(xyz_wf);
    let element_id = match read_u32(input, block.element_id) {
        Some(v) => v,
        None => {
            return None;
        },
    };
    let atom_id = match read_u32(input, block.atom_id) {
        Some(v) => v,
        None => {
            return None;
        },
    };
    let symbol = text.substring_ascii(block.symbol.from, block.symbol.to).to_owned();
    let x = read_number(text, number, block.xyz.x);
    let y = read_number(text, number, block.xyz.y);
    let z = read_number(text, number, block.xyz.z);
    Some(Atom::new(symbol, element_id, Point3 { x, y, z }, atom_id, MsiFormat))
}

/// Reads the atoms that the atom blocks `blocks` of `text` hold. There is no
/// result exactly where an atomic number or an id is too large.
fn read_atoms<S, F: Fn(&str) -> S>(
    text: &str,
    input: &[u8],
    number: &F,
    blocks: &Vec<AtomSpans>,
) -> (r: Option<Vec<Atom<S, MsiFormat>>>)
    requires
        text.is_ascii(),
        input@ == text.spec_bytes(),
        input@.len() == text@.len(),
        forall|j: int| 0 <= j < blocks@.len() ==> atom_spans_wf(input@, #[trigger] blocks@[j]),
        forall|t: &str| call_requires(*number, (t,)),
    ensures
        match r {
            Some(atoms) => {
                &&& numbers_fit(input@, blocks@)
                &&& atoms@.len() == blocks@.len()
                &&& forall|j: int|
                    0 <= j < blocks@.len() ==> atom_read_as(
                        text,
                        *number,
                        blocks@[j],
                        #[trigger] atoms@[j],
                    )
            },
            None => !numbers_fit(input@, blocks@),
        },
{
    let mut atoms: Vec<Atom<S, MsiFormat>> = Vec::new();
    let mut k: usize = 0;
    while k < blocks.len()
        invariant
            0 <= k <= blocks@.len(),
            text.is_ascii(),
            input@ == text.spec_bytes(),
            input@.len() == text@.len(),
            forall|t: &str| call_requires(*number, (t,)),
            forall|j: int|
                0 <= j < blocks@.len() ==> atom_spans_wf(input@, #[trigger] blocks@[j]),
            atoms@.len() == k,
            forall|j: int| 0 <= j < k ==> atom_fits(input@, #[trigger] blocks@[j]),
            forall|j: int|
                0 <= j < k ==> atom_read_as(text, *number, blocks@[j], #[trigger] atoms@[j]),
        decreases blocks@.len() - k,
    {
        let block = blocks[k];
        match read_atom(text, input, number, block) {
            Some(atom) => {
                atoms.push(atom);
            },
            None => {
                return None;
            },
        }
        k = k + 1;
    }
    Some(atoms)
}

/// Reads the vector that the coordinate triple `xyz` of `text` holds.
fn read_vector<S, F: Fn(&str) -> S>(text: &str, number: &F, xyz: Xyz) -> (vector: [S; 3])
    requires
        text.is_ascii(),
        xyz_wf(text.spec_bytes(), xyz),
        text.spec_bytes().len() == text@.len(),
        forall|t: &str| call_requires(*number, (t,)),
    ensures
        vector_read_as(text, *number, xyz, vector),
{
    reveal(xyz_wf);
    let x = read_number(text, number, xyz.x);
    let y = read_number(text, number, xyz.y);
    let z = read_number(text, number, xyz.z);
    [x, y, z]
}

/// The cell vectors `vectors` were read from the coordinate triples `cell`
/// of `text`, where there are any.
pub open spec fn cell_read_as<S, F: Fn(&str) -> S>(
    text: &str,
    number: F,
    cell: Option<[Xyz; 3]>,
    vectors: Option<[[S; 3]; 3]>,
) -> bool {
    match (cell, vectors) {
        (Some(spans), Some(vectors)) => forall|a: int|
            0 <= a < 3 ==> vector_read_as(text, number, spans@[a], #[trigger] vectors@[a]),
        (None, None) => true,
        _ => false,
    }
}

/// Reads the cell vectors that the coordinate triples `cell` of `text` hold.
fn read_cell<S, F: Fn(&str) -> S>(text: &str, number: &F, cell: Option<[Xyz; 3]>) -> (vectors:
    Option<[[S; 3]; 3]>)
    requires
        text.is_ascii(),
        text.spec_bytes().len() == text@.len(),
        cell matches Some(spans) ==> xyz_wf(text.spec_bytes(), spans@[0]) && xyz_wf(
            text.spec_bytes(),
            spans@[1],
        ) && xyz_wf(text.spec_bytes(), spans@[2]),
        forall|t: &str| call_requires(*number, (t,)),
    ensures
        cell_read_as(text, *number, cell, vectors),
{
    match cell {
        Some(spans) => {
            let a = read_vector(text, number, spans[0]);
            let b = read_vector(text, number, spans[1]);
            let c = read_vector(text, number, spans[2]);
            Some([a, b, c])
        },
        None => None,
    }
}

impl<S: Copy> MsiModel<S> {
    /// Creates a model from its parts.
    pub fn new(lattice_vectors: Option<[[S; 3]; 3]>, atoms: Vec<Atom<S, MsiFormat>>) -> (model:
        Self)
        ensures
            model.lattice_vectors == lattice_vectors,
            model.atoms == atoms,
    {
        Self { lattice_vectors, atoms }
    }

    /// The cell vectors a, b and c, where the model has a cell.
    pub fn lattice_vectors(&self) -> (r: Option<[[S; 3]; 3]>)
        ensures
            r == self.lattice_vectors,
    {
        self.lattice_vectors
    }

    /// The atoms, in the order of the file.
    pub fn atoms(&self) -> (r: &[Atom<S, MsiFormat>])
        ensures
            r@ == self.atoms@,
    {
        self.atoms.as_slice()
    }

    /// Reads a model from the text of an `msi` file. Each number of the text
    /// is handed to `number` as it stands, and what comes back is taken for
    /// its value.
    ///
    /// The text is refused exactly where [`parse_error_of`] says so, and with
    /// that error. Otherwise the model holds the atoms of [`model_at`] in
    /// their order, each with the atomic number, the symbol, the
    /// coordinates and the id of its block, and the cell vectors where the
    /// text has them.
    pub fn try_from<F: Fn(&str) -> S>(value: &str, number: F) -> (r: Result<Self, ParseError>)
        requires
            forall|t: &str| call_requires(number, (t,)),
        ensures
            match r {
                Ok(model) => {
                    &&& parse_error_of(value) is None
                    &&& model_at(value.spec_bytes()) matches Ok((cell, atoms))
                    &&& model.atoms@.len() == atoms.len()
                    &&& forall|k: int|
                        0 <= k < atoms.len() ==> atom_read_as(
                            value,
                            number,
                            atoms[k],
                            #[trigger] model.atoms@[k],
                        )
                    &&& cell_read_as(value, number, cell, model.lattice_vectors)
                },
                Err(e) => parse_error_of(value) == Some(e),
            },
    {
        if !value.is_ascii() {
            return Err(ParseError::NotAscii);
        }
        let input = ascii_bytes(value);
        let spans = match scan_model(input) {
            Ok(found) => found,
            Err(e) => {
                return Err(e);
            },
        };
        let atoms = match read_atoms(value, input, &number, &spans.atoms) {
            Some(atoms) => atoms,
            None => {
                return Err(ParseError::NumberTooLarge);
            },
        };
        let lattice_vectors = read_cell(value, &number, spans.lattice_vectors);
        Ok(MsiModel { lattice_vectors, atoms })
    }
}

} // verus!
