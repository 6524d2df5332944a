//! Recognizers for the numerals of the text formats.
pub mod msi_parser;

use vstd::prelude::*;

verus! {

/// `b` is an ASCII digit.
pub open spec fn is_digit(b: u8) -> bool {
    48 <= b <= 57
}

/// Where the longest run of digits that starts at `i` ends.
pub open spec fn digits_end(s: Seq<u8>, i: int) -> int
    decreases s.len() - i,
{
    if 0 <= i < s.len() && is_digit(s[i]) {
        digits_end(s, i + 1)
    } else {
        i
    }
}

/// Where the decimal numeral that starts at `i` ends: one or more digits.
pub open spec fn decimal_at(s: Seq<u8>, i: int) -> Option<int> {
    if digits_end(s, i) > i {
        Some(digits_end(s, i))
    } else {
        None
    }
}

/// Where an optional sign at `i` ends.
pub open spec fn sign_end(s: Seq<u8>, i: int) -> int {
    if 0 <= i < s.len() && (s[i] == 43 || s[i] == 45) {
        i + 1
    } else {
        i
    }
}

/// Where the exponent that starts at `i` ends: `e` or `E`, an optional sign,
/// and a decimal numeral.
pub open spec fn exponent_at(s: Seq<u8>, i: int) -> Option<int> {
    if 0 <= i < s.len() && (s[i] == 101 || s[i] == 69) {
        decimal_at(s, sign_end(s, i + 1))
    } else {
        None
    }
}

/// Where the fraction that starts at `i` ends: a point and a decimal
/// numeral.
pub open spec fn fraction_at(s: Seq<u8>, i: int) -> Option<int> {
    if 0 <= i < s.len() && s[i] == 46 {
        decimal_at(s, i + 1)
    } else {
        None
    }
}

/// `at`, or `i` where there is none.
pub open spec fn or_stay(at: Option<int>, i: int) -> int {
    match at {
        Some(end) => end,
        None => i,
    }
}

/// Where a numeral of the form `.42`, with an optional exponent, ends.
pub open spec fn leading_point_at(s: Seq<u8>, i: int) -> Option<int> {
    match fraction_at(s, i) {
        Some(end) => Some(or_stay(exponent_at(s, end), end)),
        None => None,
    }
}

/// Where a numeral of the form `42e42` or `42.42e42` ends.
pub open spec fn with_exponent_at(s: Seq<u8>, i: int) -> Option<int> {
    match decimal_at(s, i) {
        Some(end) => exponent_at(s, or_stay(fraction_at(s, end), end)),
        None => None,
    }
}

/// Where a numeral of the form `42.` or `42.42`, with an optional sign in
/// front, ends.
pub open spec fn with_point_at(s: Seq<u8>, i: int) -> Option<int> {
    match decimal_at(s, sign_end(s, i)) {
        Some(end) => if end < s.len() && s[end] == 46 {
            Some(digits_end(s, end + 1))
        } else {
            None
        },
        None => None,
    }
}

/// Where the numeral with a point or an exponent that starts at `i` ends.
/// The three forms are tried in this order, and the first that fits counts:
/// `.42` with an optional exponent; `42e42` and `42.42e42`; `42.` and
/// `42.42` with an optional sign.
pub open spec fn float_at(s: Seq<u8>, i: int) -> Option<int> {
    if leading_point_at(s, i) is Some {
        leading_point_at(s, i)
    } else if with_exponent_at(s, i) is Some {
        with_exponent_at(s, i)
    } else {
        with_point_at(s, i)
    }
}

/// Where the number that starts at `i` ends: a numeral with a point or an
/// exponent, or else a decimal numeral.
pub open spec fn number_at(s: Seq<u8>, i: int) -> Option<int> {
    if float_at(s, i) is Some {
        float_at(s, i)
    } else {
        decimal_at(s, i)
    }
}

/// Scans the longest run of digits from `start` on.
pub fn scan_digits(input: &[u8], start: usize) -> (end: usize)
    requires
        start <= input@.len(),
    ensures
        end == digits_end(input@, start as int),
        start <= end <= input@.len(),
{
    let mut i = start;
    while i < input.len() && input[i] >= 48 && input[i] <= 57
        invariant
            start <= i <= input@.len(),
            digits_end(input@, start as int) == digits_end(input@, i as int),
        decreases input@.len() - i,
    {
        i = i + 1;
    }
    i
}

/// Recognizes a decimal numeral from `start` on and says where it ends.
pub fn decimal_from(input: &[u8], start: usize) -> (end: Option<usize>)
    requires
        start <= input@.len(),
    ensures
        match end {
            Some(e) => decimal_at(input@, start as int) == Some(e as int) && start < e
                <= input@.len(),
            None => decimal_at(input@, start as int) is None,
        },
{
    let end = scan_digits(input, start);
    if end > start {
        Some(end)
    } else {
        None
    }
}

/// Recognizes a decimal numeral at the front of `input`: one or more
/// digits. Returns the length of the numeral.
pub fn decimal(input: &[u8]) -> (len: Option<usize>)
    ensures
        match len {
            Some(n) => decimal_at(input@, 0) == Some(n as int) && 0 < n <= input@.len(),
            None => decimal_at(input@, 0) is None,
        },
{
    decimal_from(input, 0)
}

/// Skips an optional sign at `start`.
pub fn skip_sign(input: &[u8], start: usize) -> (end: usize)
    requires
        start <= input@.len(),
    ensures
        end == sign_end(input@, start as int),
        start <= end <= input@.len(),
{
    if start < input.len() && (input[start] == 43 || input[start] == 45) {
        start + 1
    } else {
        start
    }
}

/// Recognizes an exponent from `start` on.
pub fn exponent_from(input: &[u8], start: usize) -> (end: Option<usize>)
    requires
        start <= input@.len(),
    ensures
        match end {
            Some(e) => exponent_at(input@, start as int) == Some(e as int) && start < e
                <= input@.len(),
            None => exponent_at(input@, start as int) is None,
        },
{
    if start < input.len() && (input[start] == 101 || input[start] == 69) {
        let after_sign = skip_sign(input, start + 1);
        decimal_from(input, after_sign)
    } else {
        None
    }
}

/// Recognizes a fraction from `start` on.
pub fn fraction_from(input: &[u8], start: usize) -> (end: Option<usize>)
    requires
        start <= input@.len(),
    ensures
        match end {
            Some(e) => fraction_at(input@, start as int) == Some(e as int) && start < e
                <= input@.len(),
            None => fraction_at(input@, start as int) is None,
        },
{
    if start < input.len() && input[start] == 46 {
        decimal_from(input, start + 1)
    } else {
        None
    }
}

/// Recognizes a numeral with a point or an exponent from `start` on and
/// says where it ends.
pub fn float_from(input: &[u8], start: usize) -> (end: Option<usize>)
    requires
        start <= input@.len(),
    ensures
        match end {
            Some(e) => float_at(input@, start as int) == Some(e as int) && start < e
                <= input@.len(),
            None => float_at(input@, start as int) is None,
        },
{
    if let Some(after_fraction) = fraction_from(input, start) {
        return match exponent_from(input, after_fraction) {
            Some(end) => Some(end),
            None => Some(after_fraction),
        };
    }
    if let Some(after_digits) = decimal_from(input, start) {
        let after_fraction = match fraction_from(input, after_digits) {
            Some(end) => end,
            None => after_digits,
        };
        if let Some(end) = exponent_from(input, after_fraction) {
            return Some(end);
        }
    }
    let after_sign = skip_sign(input, start);
    match decimal_from(input, after_sign) {
        Some(after_digits) => {
            if after_digits < input.len() && input[after_digits] == 46 {
                Some(scan_digits(input, after_digits + 1))
            } else {
                None
            }
        },
        None => None,
    }
}

/// Recognizes a numeral with a point or an exponent at the front of
/// `input`, in one of the forms `.42`, `.42e42`, `42e42`, `42.42e42`, `42.`
/// and `42.42`, the last two with an optional sign. Returns the length of
/// the numeral.
pub fn float(input: &[u8]) -> (len: Option<usize>)
    ensures
        match len {
            Some(n) => float_at(input@, 0) == Some(n as int) && 0 < n <= input@.len(),
            None => float_at(input@, 0) is None,
        },
{
    float_from(input, 0)
}

/// Recognizes a number from `start` on and says where it ends.
pub fn number_from(input: &[u8], start: usize) -> (end: Option<usize>)
    requires
        start <= input@.len(),
    ensures
        match end {
            Some(e) => number_at(input@, start as int) == Some(e as int) && start < e
                <= input@.len(),
            None => number_at(input@, start as int) is None,
        },
{
    match float_from(input, start) {
        Some(end) => Some(end),
        None => decimal_from(input, start),
    }
}

} // verus!
