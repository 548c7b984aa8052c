//! From a Gregorian year back to an era code.

use crate::convert::spec_convert;
use crate::digits::{lemma_two_digits_read_back, spec_two_digits, two_digits};
use crate::era::Era;
use crate::error::ErrorKind;
use vstd::prelude::*;

verus! {

/// The era in which the Gregorian year `year` is written: the latest era
/// that has begun by that year. A year in which one era ends and the next
/// begins belongs to the one that begins. `None` before the first year of
/// Meiji, and after the last year of Reiwa that two digits can hold.
pub open spec fn spec_era_of_year(year: int) -> Option<Era> {
    if year > Era::Reiwa.definition().year_offset + 99 {
        None
    } else if year > Era::Reiwa.definition().year_offset {
        Some(Era::Reiwa)
    } else if year > Era::Heisei.definition().year_offset {
        Some(Era::Heisei)
    } else if year > Era::Showa.definition().year_offset {
        Some(Era::Showa)
    } else if year > Era::Taisho.definition().year_offset {
        Some(Era::Taisho)
    } else if year > Era::Meiji.definition().year_offset {
        Some(Era::Meiji)
    } else {
        None
    }
}

/// The era in which the Gregorian year `year` is written.
pub fn era_of_year(year: i32) -> (r: Option<Era>)
    ensures
        r == spec_era_of_year(year as int),
        r is Some <==> 1868 <= year <= 2117,
{
    if year > Era::Reiwa.definition().year_offset + 99 {
        None
    } else if year > Era::Reiwa.definition().year_offset {
        Some(Era::Reiwa)
    } else if year > Era::Heisei.definition().year_offset {
        Some(Era::Heisei)
    } else if year > Era::Showa.definition().year_offset {
        Some(Era::Showa)
    } else if year > Era::Taisho.definition().year_offset {
        Some(Era::Taisho)
    } else if year > Era::Meiji.definition().year_offset {
        Some(Era::Meiji)
    } else {
        None
    }
}

/// The era code of the Gregorian year `year`: the letter of its era, then
/// the year within the era in two digits.
pub open spec fn spec_era_code_from_year(year: int) -> Option<Seq<char>> {
    match spec_era_of_year(year) {
        Some(era) => Some(
            seq![era.definition().letter] + spec_two_digits(year - era.definition().year_offset),
        ),
        None => None,
    }
}

/// Writes the Gregorian year `year` as an era code with a letter prefix.
///
/// Every year from 1868 to 2117 has a code; no other year has one.
pub fn era_code_from_year(year: i32) -> (r: Option<String>)
    ensures
        r is Some <==> 1868 <= year <= 2117,
        match r {
            Some(code) => spec_era_code_from_year(year as int) == Some(code@),
            None => spec_era_code_from_year(year as int) is None,
        },
        r matches Some(code) ==> spec_convert(code@) == Ok::<int, ErrorKind>(year as int),
{
    proof {
        if 1868 <= year <= 2117 {
            lemma_year_round_trip(year as int);
        }
    }
    match era_of_year(year) {
        Some(era) => {
            let era_year: i32 = year - era.definition().year_offset;
            let digits = two_digits(era_year);
            Some(String::from_str(era.letter_str()).concat(digits.as_str()))
        },
        None => None,
    }
}

/// The era of a year holds that year: counted from the era's offset it is
/// at least one, fits in two digits and does not pass the era's last year.
pub proof fn lemma_era_of_year_holds_year(year: int)
    requires
        spec_era_of_year(year) is Some,
    ensures
        ({
            let definition = spec_era_of_year(year)->Some_0.definition();
            &&& 1 <= year - definition.year_offset <= 99
            &&& !definition.spec_exceeds_max(year - definition.year_offset)
        }),
{
}

/// Writing a year as an era code and converting the code gives the year
/// back, for every year that has a code.
pub proof fn lemma_year_round_trip(year: int)
    requires
        1868 <= year <= 2117,
    ensures
        spec_era_code_from_year(year) is Some,
        spec_convert(spec_era_code_from_year(year)->Some_0) == Ok::<int, ErrorKind>(year),
{
    let era = spec_era_of_year(year)->Some_0;
    let era_year = year - era.definition().year_offset;
    let code = spec_era_code_from_year(year)->Some_0;
    lemma_two_digits_read_back(era_year);
    assert(code.len() == 3);
    assert(code[0] == era.definition().letter);
    assert(code[1] == spec_two_digits(era_year)[0]);
    assert(code[2] == spec_two_digits(era_year)[1]);
    Era::lemma_prefix_identifies_era(era, code[0]);
}

} // verus!
