//! Text helpers: comparison, suffixes and decimal numbers.

use vstd::prelude::*;

verus! {

/// Whether `suffix` stands at the end of `s`.
pub open spec fn is_suffix(suffix: Seq<char>, s: Seq<char>) -> bool {
    suffix.len() <= s.len() && s.subrange(s.len() - suffix.len(), s.len() as int) == suffix
}

/// Whether `c` is one of the ten ASCII digits.
pub open spec fn is_digit(c: char) -> bool {
    '0' <= c && c <= '9'
}

/// Whether `s` is a non-empty run of ASCII digits.
pub open spec fn is_digits(s: Seq<char>) -> bool {
    s.len() > 0 && forall|i: int| 0 <= i < s.len() ==> is_digit(#[trigger] s[i])
}

/// The number that a run of digits denotes in base ten.
pub open spec fn digits_value(s: Seq<char>) -> nat
    decreases s.len(),
{
    if s.len() == 0 {
        0
    } else {
        (digits_value(s.drop_last()) * 10 + (s.last() as nat - '0' as nat)) as nat
    }
}

/// The integer that `s` denotes when it is an optional sign followed by
/// digits and nothing else; `None` for every other text.
pub open spec fn decimal(s: Seq<char>) -> Option<int> {
    if s.len() > 0 && s[0] == '-' {
        if is_digits(s.skip(1)) {
            Some(-(digits_value(s.skip(1)) as int))
        } else {
            None
        }
    } else if s.len() > 0 && s[0] == '+' {
        if is_digits(s.skip(1)) {
            Some(digits_value(s.skip(1)) as int)
        } else {
            None
        }
    } else if is_digits(s) {
        Some(digits_value(s) as int)
    } else {
        None
    }
}

/// The `i32` that `s` denotes, if it denotes an integer that fits.
pub open spec fn decimal_i32(s: Seq<char>) -> Option<i32> {
    match decimal(s) {
        Some(v) if i32::MIN <= v <= i32::MAX => Some(v as i32),
        _ => None,
    }
}

/// The `i64` that `s` denotes, if it denotes an integer that fits.
pub open spec fn decimal_i64(s: Seq<char>) -> Option<i64> {
    match decimal(s) {
        Some(v) if i64::MIN <= v <= i64::MAX => Some(v as i64),
        _ => None,
    }
}

/// Why std could not read an integer; nothing is known of its content.
#[verifier::external_type_specification]
#[verifier::external_body]
pub struct ExParseIntError(std::num::ParseIntError);

/// `str == str` of std: true exactly when both hold the same characters.
#[verifier::external_body]
pub(crate) fn same_text(a: &str, b: &str) -> (r: bool)
    ensures
        r == (a@ == b@),
{
    a == b
}

/// `str::ends_with` of std with a string pattern: true exactly when the
/// pattern is a suffix of the text.
#[verifier::external_body]
pub(crate) fn ends_with(s: &str, suffix: &str) -> (r: bool)
    ensures
        r == is_suffix(suffix@, s@),
{
    s.ends_with(suffix)
}

/// `str::parse::<i32>` of std. It accepts an optional `+` or `-`, then one or
/// more ASCII digits and nothing else, and fails when the number does not fit.
#[verifier::external_body]
pub(crate) fn parse_i32(s: &str) -> (r: Result<i32, std::num::ParseIntError>)
    ensures
        match decimal_i32(s@) {
            Some(v) => r == Ok::<i32, std::num::ParseIntError>(v),
            None => r is Err,
        },
{
    s.parse::<i32>()
}

/// `str::parse::<i64>` of std, which reads as `parse::<i32>` does, with the
/// range of `i64`.
#[verifier::external_body]
pub(crate) fn parse_i64(s: &str) -> (r: Result<i64, std::num::ParseIntError>)
    ensures
        match decimal_i64(s@) {
            Some(v) => r == Ok::<i64, std::num::ParseIntError>(v),
            None => r is Err,
        },
{
    s.parse::<i64>()
}

} // verus!
