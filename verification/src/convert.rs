//! From an era code to its Gregorian year.

use crate::digits::{spec_two_digit_value, two_digit_value};
use crate::era::Era;
use crate::error::ErrorKind;
use vstd::prelude::*;

verus! {

/// The Gregorian year that the era code `code` stands for, or the reason why
/// it stands for none.
///
/// A code has three characters: the prefix of an era, then the year within
/// that era in two decimal digits. The checks are made in this order: the
/// length, the digits, the lower bound of the year, the prefix, and the last
/// year of the era.
pub open spec fn spec_convert(code: Seq<char>) -> Result<int, ErrorKind> {
    if code.len() != 3 {
        Err(ErrorKind::InvalidLength)
    } else {
        match spec_two_digit_value(code[1], code[2]) {
            None => Err(ErrorKind::InvalidYear),
            Some(era_year) => if era_year < 1 {
                Err(ErrorKind::YearTooLow)
            } else {
                match Era::from_prefix(code[0]) {
                    None => Err(ErrorKind::UnknownEra),
                    Some(era) => if era.definition().spec_exceeds_max(era_year) {
                        Err(ErrorKind::EraYearOutOfRange(era))
                    } else {
                        Ok(era.definition().year_offset + era_year)
                    },
                }
            },
        }
    }
}

/// Whether `r` is the outcome of converting `code`.
pub open spec fn is_conversion_of(code: Seq<char>, r: Result<i32, ErrorKind>) -> bool {
    match r {
        Ok(year) => spec_convert(code) == Ok::<int, ErrorKind>(year as int),
        Err(kind) => spec_convert(code) == Err::<int, ErrorKind>(kind),
    }
}

/// Converts an era code to its Gregorian year.
///
/// The length of `code` is counted in characters, not in bytes.
pub fn convert(code: &str) -> (r: Result<i32, ErrorKind>)
    ensures
        is_conversion_of(code@, r),
        code@.len() != 3 ==> r == Err::<i32, ErrorKind>(ErrorKind::InvalidLength),
{
    if code.unicode_len() != 3 {
        return Err(ErrorKind::InvalidLength);
    }
    let prefix = code.get_char(0);
    let tens = code.get_char(1);
    let ones = code.get_char(2);
    let era_year: i32 = match two_digit_value(tens, ones) {
        Some(n) => n,
        None => {
            return Err(ErrorKind::InvalidYear);
        },
    };
    if era_year < 1 {
        return Err(ErrorKind::YearTooLow);
    }
    let era = match Era::from_prefix(prefix) {
        Some(era) => era,
        None => {
            return Err(ErrorKind::UnknownEra);
        },
    };
    let definition = era.definition();
    if definition.exceeds_max(era_year) {
        return Err(ErrorKind::EraYearOutOfRange(era));
    }
    Ok(definition.year_offset + era_year)
}

/// What `to_gregorian_year` reports for `code`: the year of `spec_convert`,
/// or the message of its error.
pub open spec fn spec_to_gregorian_year(code: Seq<char>) -> Result<int, Seq<char>> {
    match spec_convert(code) {
        Ok(year) => Ok(year),
        Err(kind) => Err(kind.spec_message()),
    }
}

/// A year as an integer and a message as its characters.
pub open spec fn outcome_view(r: Result<i32, String>) -> Result<int, Seq<char>> {
    match r {
        Ok(year) => Ok(year as int),
        Err(message) => Err(message@),
    }
}

/// Converts an era code to its Gregorian year, as `convert` does, and
/// reports a rejected code by the message of its error.
pub fn to_gregorian_year(wareki: &str) -> (r: Result<i32, String>)
    ensures
        outcome_view(r) == spec_to_gregorian_year(wareki@),
        wareki@.len() != 3 ==> r is Err && r->Err_0@ == ErrorKind::InvalidLength.spec_message(),
{
    match convert(wareki) {
        Ok(year) => Ok(year),
        Err(kind) => Err(kind.message()),
    }
}

} // verus!
