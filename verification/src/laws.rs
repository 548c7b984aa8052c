//! What holds of the conversion for every code, stated over `spec_convert`
//! and proved from its definition.

use crate::convert::{is_conversion_of, outcome_view, spec_convert, spec_to_gregorian_year};
use crate::digits::spec_two_digit_value;
use crate::era::Era;
use crate::error::ErrorKind;
use vstd::prelude::*;

verus! {

/// A code whose number of characters is not three is rejected for its
/// length, whatever it holds.
pub proof fn lemma_wrong_length_rejected(code: Seq<char>)
    requires
        code.len() != 3,
    ensures
        spec_convert(code) == Err::<int, ErrorKind>(ErrorKind::InvalidLength),
        spec_to_gregorian_year(code) == Err::<int, Seq<char>>(
            ErrorKind::InvalidLength.spec_message(),
        ),
{
}

/// A code is rejected for its length only where its number of characters is
/// not three.
pub proof fn lemma_length_error_only_for_wrong_length(code: Seq<char>)
    ensures
        spec_convert(code) == Err::<int, ErrorKind>(ErrorKind::InvalidLength) <==> code.len() != 3,
{
}

/// The letter and the digit of an era are synonyms: before the same two
/// characters they give the same outcome, a year or an error.
pub proof fn lemma_prefixes_interchangeable(era: Era, tens: char, ones: char)
    ensures
        spec_convert(seq![era.definition().letter, tens, ones]) == spec_convert(
            seq![era.definition().digit, tens, ones],
        ),
        spec_to_gregorian_year(seq![era.definition().letter, tens, ones])
            == spec_to_gregorian_year(seq![era.definition().digit, tens, ones]),
{
}

/// Two codes of three characters that differ only in their prefixes, both
/// prefixes of one era, have the same outcome.
pub proof fn lemma_same_era_same_outcome(a: Seq<char>, b: Seq<char>)
    requires
        a.len() == 3,
        b.len() == 3,
        a[1] == b[1],
        a[2] == b[2],
        Era::from_prefix(a[0]) == Era::from_prefix(b[0]),
    ensures
        spec_convert(a) == spec_convert(b),
{
}

/// The year zero is rejected as too low before the prefix is looked at: a
/// code that ends in `00` fails that way under every prefix, known or not.
pub proof fn lemma_year_zero_rejected(prefix: char)
    ensures
        spec_convert(seq![prefix, '0', '0']) == Err::<int, ErrorKind>(ErrorKind::YearTooLow),
{
}

/// A code is rejected as too low exactly where it has three characters and
/// ends in `00`.
pub proof fn lemma_too_low_only_for_year_zero(code: Seq<char>)
    ensures
        spec_convert(code) == Err::<int, ErrorKind>(ErrorKind::YearTooLow) <==> (code.len() == 3
            && code[1] == '0' && code[2] == '0'),
{
}

/// A code of three characters with a year of at least one is rejected for
/// its prefix exactly where the prefix is neither the letter nor the digit
/// of any era.
pub proof fn lemma_unknown_prefix_rejected(code: Seq<char>)
    requires
        code.len() == 3,
        spec_two_digit_value(code[1], code[2]) matches Some(era_year) && era_year >= 1,
    ensures
        spec_convert(code) == Err::<int, ErrorKind>(ErrorKind::UnknownEra) <==> (forall|era: Era|
            !(#[trigger] era.definition()).has_prefix(code[0])),
{
    if forall|era: Era| !(#[trigger] era.definition()).has_prefix(code[0]) {
        assert(!Era::Meiji.definition().has_prefix(code[0]));
        assert(!Era::Taisho.definition().has_prefix(code[0]));
        assert(!Era::Showa.definition().has_prefix(code[0]));
        assert(!Era::Heisei.definition().has_prefix(code[0]));
        assert(!Era::Reiwa.definition().has_prefix(code[0]));
    }
}

/// Under a prefix of `era`, every year from one to the era's last year,
/// or to 99 where the era has none, is accepted and counted from the era's
/// offset; every later year is rejected as out of the era's range.
pub proof fn lemma_era_bounds(era: Era, code: Seq<char>, era_year: int)
    requires
        code.len() == 3,
        era.definition().has_prefix(code[0]),
        spec_two_digit_value(code[1], code[2]) == Some(era_year),
        era_year >= 1,
    ensures
        era_year <= 99,
        spec_convert(code) == (if era.definition().max_year matches Some(max) && era_year > max {
            Err::<int, ErrorKind>(ErrorKind::EraYearOutOfRange(era))
        } else {
            Ok::<int, ErrorKind>(era.definition().year_offset + era_year)
        }),
{
    Era::lemma_prefix_identifies_era(era, code[0]);
}

/// An era without a last year is never reported as exceeded.
pub proof fn lemma_out_of_range_names_ended_era(code: Seq<char>, era: Era)
    requires
        spec_convert(code) == Err::<int, ErrorKind>(ErrorKind::EraYearOutOfRange(era)),
    ensures
        era.definition().max_year is Some,
        era.definition().has_prefix(code[0]),
{
}

/// Every year that a code stands for lies between the first year of Meiji
/// and the ninety-ninth of Reiwa.
pub proof fn lemma_year_range(code: Seq<char>)
    requires
        spec_convert(code) is Ok,
    ensures
        1868 <= spec_convert(code)->Ok_0 <= 2117,
{
}

/// The conversion is a function of the code's characters: two calls of
/// `convert` on codes with the same characters return the same value.
pub proof fn lemma_convert_deterministic(
    a: Seq<char>,
    b: Seq<char>,
    first: Result<i32, ErrorKind>,
    second: Result<i32, ErrorKind>,
)
    requires
        a == b,
        is_conversion_of(a, first),
        is_conversion_of(b, second),
    ensures
        first == second,
{
}

/// Two calls of `to_gregorian_year` on codes with the same characters return
/// the same year, or messages with the same text.
pub proof fn lemma_to_gregorian_year_deterministic(
    a: Seq<char>,
    b: Seq<char>,
    first: Result<i32, String>,
    second: Result<i32, String>,
)
    requires
        a == b,
        outcome_view(first) == spec_to_gregorian_year(a),
        outcome_view(second) == spec_to_gregorian_year(b),
    ensures
        outcome_view(first) == outcome_view(second),
        first is Ok ==> first == second,
{
}

} // verus!
