//! Points in time, read from text and written as text by chrono. A point in
//! time is carried as chrono's `NaiveDateTime`, always meant in UTC.

use vstd::prelude::*;
use chrono::TimeZone;

verus! {

/// chrono's date with time of day; its inside is not looked at here.
#[verifier::external_type_specification]
#[verifier::external_body]
pub struct ExNaiveDateTime(chrono::NaiveDateTime);

/// Why chrono could not read a point in time.
#[verifier::external_type_specification]
#[verifier::external_body]
pub struct ExDateParseError(chrono::ParseError);

/// The point in time that chrono reads from a text in its relaxed RFC 3339
/// form, in UTC, or `None` where it reads none.
pub uninterp spec fn parsed_datetime(text: Seq<char>) -> Option<chrono::NaiveDateTime>;

/// The point in time that chrono reads from `text` laid out as `format`
/// says, taken as UTC, or `None` where it reads none.
pub uninterp spec fn parsed_with_format(text: Seq<char>, format: Seq<char>) -> Option<
    chrono::NaiveDateTime,
>;

/// The text that chrono writes for a point in time laid out as `format` says.
pub uninterp spec fn formatted_datetime(at: chrono::NaiveDateTime, format: Seq<char>) -> Seq<char>;

/// The layout of a calendar day on the wire: day, month and year with dots.
pub open spec fn day_format() -> Seq<char> {
    "%d.%m.%Y"@
}

/// `str::parse::<DateTime<Utc>>` of chrono, the result taken by
/// `naive_utc`: it is a function of the text alone, and an error comes
/// exactly where no point in time is read.
#[verifier::external_body]
pub(crate) fn parse_datetime(text: &str) -> (r: Result<chrono::NaiveDateTime, chrono::ParseError>)
    ensures
        match parsed_datetime(text@) {
            Some(at) => r == Ok::<chrono::NaiveDateTime, chrono::ParseError>(at),
            None => r is Err,
        },
{
    text.parse::<chrono::DateTime<chrono::Utc>>().map(|at| at.naive_utc())
}

/// `Utc.datetime_from_str` of chrono, the result taken by `naive_utc`: it is
/// a function of the text and the format alone, and an error comes exactly
/// where no point in time is read.
#[verifier::external_body]
#[allow(deprecated)]
pub(crate) fn parse_with_format(text: &str, format: &str) -> (r: Result<
    chrono::NaiveDateTime,
    chrono::ParseError,
>)
    ensures
        match parsed_with_format(text@, format@) {
            Some(at) => r == Ok::<chrono::NaiveDateTime, chrono::ParseError>(at),
            None => r is Err,
        },
{
    chrono::Utc.datetime_from_str(text, format).map(|at| at.naive_utc())
}

/// `DateTime::<Utc>::format` of chrono, written out: the text is a function
/// of the point in time and the format alone. Only the day layout is let in,
/// since writing panics on a format that chrono cannot read.
#[verifier::external_body]
pub(crate) fn format_datetime(at: &chrono::NaiveDateTime, format: &str) -> (r: String)
    requires
        format@ == day_format(),
    ensures
        r@ == formatted_datetime(*at, format@),
{
    at.and_utc().format(format).to_string()
}

} // verus!
