//! Small operations on text: comparison with a fixed word, and reading a
//! decimal integer.
use vstd::prelude::*;

verus! {

/// Whether `s` is exactly the text `word`.
pub fn is_word(s: &String, word: &str) -> (r: bool)
    ensures
        r == (s@ == word@),
{
    let w = word.to_owned();
    *s == w
}

/// Whether every character of `s` is an ASCII digit, and there is at least one.
pub open spec fn is_digits(s: Seq<char>) -> bool {
    s.len() > 0 && forall|i: int| 0 <= i < s.len() ==> '0' <= #[trigger] s[i] <= '9'
}

/// The value of a string of decimal digits, most significant first.
pub open spec fn decimal(s: Seq<char>) -> int
    decreases s.len(),
{
    if s.len() == 0 {
        0
    } else {
        decimal(s.drop_last()) * 10 + (s.last() as int - '0' as int)
    }
}

/// The integer that `s` writes: an optional `+` or `-`, then decimal digits.
pub open spec fn signed_decimal(s: Seq<char>) -> Option<int> {
    if s.len() > 0 && s[0] == '-' && is_digits(s.drop_first()) {
        Some(-decimal(s.drop_first()))
    } else if s.len() > 0 && s[0] == '+' && is_digits(s.drop_first()) {
        Some(decimal(s.drop_first()))
    } else if is_digits(s) {
        Some(decimal(s))
    } else {
        None
    }
}

/// The integer that `s` writes, where it fits in an `isize`.
pub open spec fn isize_of(s: Seq<char>) -> Option<int> {
    match signed_decimal(s) {
        Some(v) => if isize::MIN <= v <= isize::MAX {
            Some(v)
        } else {
            None
        },
        None => None,
    }
}

/// Relies on `str::parse::<isize>` (std's `FromStr` for integers): it accepts
/// an optional sign and decimal digits, nothing else, and fails on a value out
/// of range.
#[verifier::external_body]
fn parse_isize(s: &str) -> (r: Option<isize>)
    ensures
        r == (match isize_of(s@) {
            Some(v) => Some(v as isize),
            None => None::<isize>,
        }),
{
    s.parse::<isize>().ok()
}

/// A pixel dimension as a page writes it: the integer, or 0 where the text
/// is not one.
pub open spec fn dimension_of(s: Seq<char>) -> int {
    match isize_of(s) {
        Some(v) => v,
        None => 0,
    }
}

/// Reads a pixel dimension, 0 where `s` is no integer that fits.
pub fn parse_dimension(s: &String) -> (r: isize)
    ensures
        r as int == dimension_of(s@),
{
    match parse_isize(s.as_str()) {
        Some(v) => v,
        None => 0,
    }
}

} // verus!
